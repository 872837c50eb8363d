use vstd::prelude::*;
use crate::merkle_note_hash::{combined_hash_of, MerkleNoteHash};
use crate::serializing::bytes_eq;

verus! {

/// Depth of the note commitment tree.
pub const TREE_DEPTH: usize = 32;

/// One level of an authentication path. `Left(h)` means the node on the
/// path is the left child and `h` is its right sibling; `Right(h)` means
/// the node is the right child and `h` is its left sibling.
pub enum WitnessNode {
    Left(Vec<u8>),
    Right(Vec<u8>),
}

impl WitnessNode {
    /// The sibling hash this level carries.
    pub open spec fn sibling(&self) -> Seq<u8> {
        match self {
            WitnessNode::Left(h) => h@,
            WitnessNode::Right(h) => h@,
        }
    }
}

/// The root obtained by folding an authentication path over a leaf in
/// strict leaf-to-root order: at each level the running hash is combined
/// with the level's sibling, on the side the orientation dictates, at the
/// level's depth.
pub open spec fn root_from(leaf: Seq<u8>, path: Seq<WitnessNode>, depth: int) -> Seq<u8>
    decreases path.len(),
{
    if path.len() == 0 {
        leaf
    } else {
        let combined = match path[0] {
            WitnessNode::Left(h) => combined_hash_of(depth, leaf, h@),
            WitnessNode::Right(h) => combined_hash_of(depth, h@, leaf),
        };
        root_from(combined, path.skip(1), depth + 1)
    }
}

/// An authentication path from a note's commitment to a historical root of
/// the commitment tree.
pub struct Witness {
    /// How many notes the tree held when the root was taken.
    pub tree_size: u64,
    /// The leaf's position in the tree, which the nullifier binds.
    pub position: u64,
    /// The historical root the path leads to.
    pub root_hash: Vec<u8>,
    /// The ordered sibling hashes, leaf level first.
    pub auth_path: Vec<WitnessNode>,
}

impl Witness {
    /// Well-formedness: the root is 32 bytes, the path is one sibling per
    /// tree level, each 32 bytes wide.
    pub open spec fn wf(&self) -> bool {
        &&& self.root_hash@.len() == 32
        &&& self.auth_path@.len() == TREE_DEPTH as int
        &&& forall|i: int|
            0 <= i < self.auth_path@.len() ==> #[trigger] self.auth_path@[i].sibling().len() == 32
    }

    /// Whether this witness authenticates `commitment`: recomputes the
    /// root from the path, left/right aware at every level, and compares
    /// it with the stored root.
    pub fn verify(&self, commitment: &Vec<u8>) -> (r: bool)
        requires
            self.wf(),
        ensures
            r == (root_from(commitment@, self.auth_path@, 0) == self.root_hash@),
    {
        let root = root_from_path(commitment, &self.auth_path);
        bytes_eq(root.as_slice(), self.root_hash.as_slice())
    }
}

/// Recomputes the root of an authentication path over `leaf`, combining
/// sibling hashes in strict leaf-to-root order and respecting the
/// orientation at every level.
pub fn root_from_path(leaf: &Vec<u8>, path: &Vec<WitnessNode>) -> (r: Vec<u8>)
    requires
        path@.len() <= 255,
    ensures
        r@ == root_from(leaf@, path@, 0),
{
    let n: usize = path.len();
    let mut current: Vec<u8> = leaf.clone();
    let mut i: usize = 0;
    proof {
        assert(path@.skip(0) =~= path@);
    }
    while i < n
        invariant
            i <= n,
            n == path@.len(),
            n <= 255,
            root_from(leaf@, path@, 0) == root_from(current@, path@.skip(i as int), i as int),
        decreases n - i,
    {
        let ghost prev = current@;
        let combined = match &path[i] {
            WitnessNode::Left(h) => MerkleNoteHash::combine_hash(i as u8, &current, h),
            WitnessNode::Right(h) => MerkleNoteHash::combine_hash(i as u8, h, &current),
        };
        proof {
            assert(path@.skip(i as int)[0] == path@[i as int]);
            assert(path@.skip(i as int).skip(1) =~= path@.skip(i as int + 1));
            assert(root_from(prev, path@.skip(i as int), i as int) == root_from(
                combined@,
                path@.skip(i as int + 1),
                i as int + 1,
            ));
        }
        current = combined;
        i = i + 1;
    }
    proof {
        assert(path@.skip(n as int) =~= Seq::<WitnessNode>::empty());
    }
    current
}

/// A genuine witness verifies: when the stored root was produced by the
/// same leaf-to-root, orientation-respecting combination over the leaf,
/// recomputing the root reproduces it exactly.
pub proof fn lemma_genuine_witness_verifies(w: Witness, leaf: Seq<u8>)
    requires
        w.root_hash@ == root_from(leaf, w.auth_path@, 0),
    ensures
        root_from(leaf, w.auth_path@, 0) == w.root_hash@,
{
}

} // verus!
