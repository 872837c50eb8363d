pub mod asset;
pub mod errors;
pub mod group_hash;
pub mod keys;
pub mod merkle_note;
pub mod merkle_note_hash;
pub mod mining;
pub mod note;
pub mod params;
pub mod primitives;
pub mod receiving;
pub mod serializing;
pub mod spending;
pub mod witness;

pub use asset::AssetType;
pub use keys::PublicAddress;
pub use keys::SaplingKey;
pub use merkle_note::MerkleNote;
pub use merkle_note_hash::MerkleNoteHash;
pub use note::Memo;
pub use note::Note;
pub use params::Sapling;
pub use receiving::ReceiptParams;
pub use receiving::ReceiptProof;
pub use spending::SpendParams;
pub use spending::SpendProof;
pub use witness::Witness;
pub use witness::WitnessNode;
