use ironfish::errors::SaplingProofError;
use ironfish::mining::{Command, ThreadPool};
use ironfish::{AssetType, Memo, MerkleNote, MerkleNoteHash, Note, SaplingKey, Witness, WitnessNode};

#[test]
fn test_asset_type_is_deterministic() {
    let a = AssetType::new("foo".as_bytes()).unwrap();
    let b = AssetType::new("foo".as_bytes()).unwrap();
    assert_eq!(a.identifier, b.identifier);
    assert_eq!(a.generator, b.generator);
    assert_eq!(a.nonce, b.nonce);
    let c = AssetType::new("other".as_bytes()).unwrap();
    assert_ne!(a.identifier, c.identifier);
}

#[test]
fn test_value_commitment_randomness_reuse_is_detectable() {
    // Two distinct notes of the same asset and value, committed under the
    // same randomness, must yield identical value commitments.
    let key_one = SaplingKey::generate_key();
    let key_two = SaplingKey::generate_key();
    let asset = AssetType::new("foo".as_bytes()).unwrap();
    let note_one = Note::new(
        key_one.generate_public_address().unwrap(),
        42,
        Memo(vec![1u8; 32]),
        AssetType::new("foo".as_bytes()).unwrap(),
    );
    let note_two = Note::new(
        key_two.generate_public_address().unwrap(),
        42,
        Memo(vec![2u8; 32]),
        AssetType::new("foo".as_bytes()).unwrap(),
    );
    let randomness = jubjub::Fr::from(77u64).to_bytes().to_vec();
    let cv_one = note_one
        .asset_type
        .value_commitment(note_one.value, &randomness)
        .unwrap();
    let cv_two = note_two
        .asset_type
        .value_commitment(note_two.value, &randomness)
        .unwrap();
    assert_eq!(cv_one, cv_two);

    // Fresh randomness unlinks them again.
    let other_randomness = jubjub::Fr::from(78u64).to_bytes().to_vec();
    let cv_three = asset.value_commitment(42, &other_randomness).unwrap();
    assert_ne!(cv_one, cv_three);
}

#[test]
fn test_value_commitment_exercises_the_curve() {
    // The commitment to value 0 under randomness 0 is the identity, which
    // encodes as (0, 1): the curve arithmetic genuinely runs.
    let asset = AssetType::new("foo".as_bytes()).unwrap();
    let zero = jubjub::Fr::from(0u64).to_bytes().to_vec();
    let cv = asset.value_commitment(0, &zero).unwrap();
    let mut identity = vec![0u8; 32];
    identity[0] = 1;
    assert_eq!(cv, identity);
    // A nonzero value moves the point away from the identity.
    let cv_one = asset.value_commitment(1, &zero).unwrap();
    assert_ne!(cv_one, identity);
}

#[test]
fn test_witness_root_recomputation_and_orientation() {
    let leaf = vec![5u8; 32];
    let mut auth_path = vec![];
    let mut current = leaf.clone();
    for depth in 0..32u8 {
        let sibling = vec![depth ^ 0x5a; 32];
        if depth % 3 == 0 {
            current = MerkleNoteHash::combine_hash(depth, &current, &sibling);
            auth_path.push(WitnessNode::Left(sibling));
        } else {
            current = MerkleNoteHash::combine_hash(depth, &sibling, &current);
            auth_path.push(WitnessNode::Right(sibling));
        }
    }
    let witness = Witness {
        tree_size: 8,
        position: 3,
        root_hash: current.clone(),
        auth_path,
    };
    assert!(witness.verify(&leaf));
    assert!(!witness.verify(&vec![6u8; 32]));

    // Swapping a single level's orientation changes the recomputed root.
    let mut swapped_path = vec![];
    for (depth, node) in witness.auth_path.iter().enumerate() {
        if depth == 13 {
            match node {
                WitnessNode::Left(h) => swapped_path.push(WitnessNode::Right(h.clone())),
                WitnessNode::Right(h) => swapped_path.push(WitnessNode::Left(h.clone())),
            }
        } else {
            match node {
                WitnessNode::Left(h) => swapped_path.push(WitnessNode::Left(h.clone())),
                WitnessNode::Right(h) => swapped_path.push(WitnessNode::Right(h.clone())),
            }
        }
    }
    let swapped = Witness {
        tree_size: 8,
        position: 3,
        root_hash: current,
        auth_path: swapped_path,
    };
    assert!(!swapped.verify(&leaf));
}

#[test]
fn test_combine_hash_order_matters() {
    let left = vec![1u8; 32];
    let right = vec![2u8; 32];
    assert_ne!(
        MerkleNoteHash::combine_hash(0, &left, &right),
        MerkleNoteHash::combine_hash(0, &right, &left)
    );
    assert_ne!(
        MerkleNoteHash::combine_hash(0, &left, &right),
        MerkleNoteHash::combine_hash(1, &left, &right)
    );
}

#[test]
fn test_merkle_note_hash_read_rejects_bad_scalar() {
    // All bits set is larger than the field modulus: not canonical.
    assert!(MerkleNoteHash::read(&[0xff; 32]).is_err());
    assert!(MerkleNoteHash::read(&[0u8; 16]).is_err());
    let ok = MerkleNoteHash::read(&[0u8; 32]).unwrap();
    assert_eq!(ok.0, vec![0u8; 32]);
}

#[test]
fn test_merkle_note_read_rejects_bad_points() {
    assert!(matches!(
        MerkleNote::read(&[0u8; 100]),
        Err(SaplingProofError::ReadError)
    ));
    // A value commitment of all ones is a non-canonical encoding: no point.
    let mut bytes = vec![0u8; 307];
    for b in bytes.iter_mut().take(32) {
        *b = 0xff;
    }
    assert!(matches!(
        MerkleNote::read(&bytes),
        Err(SaplingProofError::ReadError)
    ));
}

#[test]
fn test_sapling_key_length_is_enforced() {
    assert!(SaplingKey::new(vec![0u8; 31]).is_err());
    let key = SaplingKey::new(vec![7u8; 32]).unwrap();
    assert_eq!(key.spending_key, vec![7u8; 32]);
    // Key derivation is deterministic in the spending key.
    let again = SaplingKey::new(vec![7u8; 32]).unwrap();
    let addr_one = key.generate_public_address().unwrap();
    let addr_two = again.generate_public_address().unwrap();
    assert_eq!(addr_one.diversifier, addr_two.diversifier);
    assert_eq!(addr_one.pk_d, addr_two.pk_d);
}

#[test]
fn test_thread_pool_commands() {
    let mut pool = ThreadPool::new(3);
    let commands = pool.new_work(&[1, 2, 3], &[9, 9], 7);
    assert_eq!(commands.len(), 3);
    for command in &commands {
        match command {
            Command::NewWork(header, target, id) => {
                assert_eq!(header, &vec![1u8, 2, 3]);
                assert_eq!(target, &vec![9u8, 9]);
                assert_eq!(*id, 7);
            }
            Command::Stop => panic!("expected work, found stop"),
        }
    }
    let stops = pool.stop();
    assert_eq!(stops.len(), 3);
    for command in &stops {
        assert!(matches!(command, Command::Stop));
    }
}

#[test]
fn test_thread_pool_discards_stale_results() {
    let mut pool = ThreadPool::new(1);
    let _ = pool.new_work(&[0], &[0], 2);
    // A result from an older request id is stale.
    assert!(pool.get_found_block(Some((5, 1, vec![0xab, 0x01]))).is_none());
    assert!(pool.get_found_block(None).is_none());
    let found = pool.get_found_block(Some((5, 2, vec![0xab, 0x01]))).unwrap();
    assert_eq!(found.0, 5);
    assert_eq!(found.1, 2);
    assert_eq!(found.2, "ab01");
}

#[test]
fn test_thread_pool_hash_rate_sum() {
    let pool = ThreadPool::new(2);
    assert_eq!(pool.get_hash_rate_submission(&vec![]), 0);
    assert_eq!(pool.get_hash_rate_submission(&vec![1, 2, 3, 10]), 16);
}

#[test]
fn test_meets_target_compares_big_endian() {
    assert!(ironfish::mining::meets_target(&[0, 5], &[0, 5]));
    assert!(ironfish::mining::meets_target(&[0, 4], &[0, 5]));
    assert!(!ironfish::mining::meets_target(&[1, 0], &[0, 255]));
    assert!(ironfish::mining::meets_target(&[], &[]));
}

#[test]
fn test_next_randomness_wraps_in_safe_range() {
    assert_eq!(ironfish::mining::next_randomness(10, 5), 15);
    let max = 9007199254740991i64;
    assert_eq!(ironfish::mining::next_randomness(10, max + 11), max + 11 - (max - 10) - 1);
}

#[test]
fn test_error_descriptions() {
    assert_eq!(
        SaplingProofError::VerificationFailed.describe(),
        "verification failed"
    );
    assert_eq!(SaplingProofError::ReadError.describe(), "read failed");
}

#[test]
fn test_root_of_empty_path_is_the_leaf() {
    let leaf = vec![8u8; 32];
    let empty: Vec<WitnessNode> = vec![];
    assert_eq!(ironfish::witness::root_from_path(&leaf, &empty), leaf);
}
