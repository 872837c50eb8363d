use bellman::{Circuit, ConstraintSystem, SynthesisError};
use bls12_381::{Bls12, Scalar};
use ironfish::{MerkleNoteHash, SpendParams, SpendProof, Witness, WitnessNode};
use ironfish::errors::SaplingProofError;
use ironfish::{AssetType, Memo, Note, ReceiptParams, ReceiptProof, Sapling, SaplingKey};

/// A circuit that exposes `n` public inputs equal to its witness values:
/// a stand-in statement with the same public-input shape as the real
/// circuits, so the groth16 pipeline runs end to end.
struct PassThrough {
    n: usize,
    values: Vec<Option<Scalar>>,
}

impl Circuit<Scalar> for PassThrough {
    fn synthesize<CS: ConstraintSystem<Scalar>>(self, cs: &mut CS) -> Result<(), SynthesisError> {
        for i in 0..self.n {
            let val = self.values.get(i).cloned().flatten();
            let w = cs.alloc(
                || format!("w{}", i),
                || val.ok_or(SynthesisError::AssignmentMissing),
            )?;
            let inp = cs.alloc_input(
                || format!("i{}", i),
                || val.ok_or(SynthesisError::AssignmentMissing),
            )?;
            cs.enforce(|| format!("c{}", i), |lc| lc + w, |lc| lc + CS::one(), |lc| lc + inp);
        }
        Ok(())
    }
}

fn make_sapling() -> (
    Sapling,
    bellman::groth16::Parameters<Bls12>,
    bellman::groth16::Parameters<Bls12>,
) {
    let spend_params = bellman::groth16::generate_random_parameters::<Bls12, _, _>(
        PassThrough { n: 7, values: vec![] },
        &mut rand::rngs::OsRng,
    )
    .unwrap();
    let output_params = bellman::groth16::generate_random_parameters::<Bls12, _, _>(
        PassThrough { n: 5, values: vec![] },
        &mut rand::rngs::OsRng,
    )
    .unwrap();
    let mut spend_bytes = vec![];
    spend_params.write(&mut spend_bytes).unwrap();
    let mut output_bytes = vec![];
    output_params.write(&mut output_bytes).unwrap();
    let sapling = Sapling::load(&spend_bytes, &output_bytes).expect("params should load");
    (sapling, spend_params, output_params)
}

fn affine(bytes: &[u8]) -> jubjub::AffinePoint {
    let arr: [u8; 32] = bytes.try_into().unwrap();
    jubjub::AffinePoint::from_bytes(arr).unwrap()
}

fn scalar(bytes: &[u8]) -> Scalar {
    let arr: [u8; 32] = bytes.try_into().unwrap();
    Scalar::from_bytes(&arr).unwrap()
}

fn prove(
    params: &bellman::groth16::Parameters<Bls12>,
    inputs: &[Scalar],
) -> Vec<u8> {
    let proof = bellman::groth16::create_random_proof(
        PassThrough {
            n: inputs.len(),
            values: inputs.iter().map(|x| Some(*x)).collect(),
        },
        params,
        &mut rand::rngs::OsRng,
    )
    .unwrap();
    let mut bytes = vec![];
    proof.write(&mut bytes).unwrap();
    bytes
}

fn receipt_inputs(m: &ironfish::MerkleNote) -> Vec<Scalar> {
    let vc = affine(&m.value_commitment);
    let epk = affine(&m.ephemeral_public_key);
    vec![
        vc.get_u(),
        vc.get_v(),
        epk.get_u(),
        epk.get_v(),
        scalar(&m.note_commitment),
    ]
}

#[test]
fn test_receipt_round_trip() {
    let (sapling, _spend_params, output_params) = make_sapling();
    let spender_key = SaplingKey::generate_key();
    let address = spender_key
        .generate_public_address()
        .expect("address should derive");
    let note = Note::new(
        address,
        42,
        Memo(vec![0u8; 32]),
        AssetType::new("foo".as_bytes()).unwrap(),
    );

    let receipt =
        ReceiptParams::new(&spender_key, &note).expect("should be able to create receipt proof");
    let proof_bytes = prove(&output_params, &receipt_inputs(&receipt.merkle_note));
    let proof = receipt
        .post(&sapling, &proof_bytes)
        .expect("Should be able to post receipt proof");
    proof.verify_proof(&sapling).expect("proof should check out");

    // test serialization
    let mut serialized_proof = vec![];
    proof.write(&mut serialized_proof);
    let read_back_proof: ReceiptProof =
        ReceiptProof::read(&serialized_proof).expect("Should be able to deserialize valid proof");

    assert_eq!(proof.proof, read_back_proof.proof);
    assert_eq!(
        affine(&proof.merkle_note.value_commitment),
        affine(&read_back_proof.merkle_note.value_commitment)
    );
    assert_eq!(
        scalar(&proof.merkle_note.note_commitment).to_bytes(),
        scalar(&read_back_proof.merkle_note.note_commitment).to_bytes()
    );
    assert_eq!(
        affine(&proof.merkle_note.ephemeral_public_key),
        affine(&read_back_proof.merkle_note.ephemeral_public_key)
    );
    assert_eq!(
        proof.merkle_note.encrypted_note[..],
        read_back_proof.merkle_note.encrypted_note[..]
    );
    assert_eq!(
        proof.merkle_note.note_encryption_keys[..],
        read_back_proof.merkle_note.note_encryption_keys[..]
    );

    let mut serialized_again = vec![];
    read_back_proof.write(&mut serialized_again);
    assert_eq!(serialized_proof, serialized_again);
}

#[test]
fn test_tampered_value_commitment_rejected() {
    let (sapling, _sp, output_params) = make_sapling();
    let spender_key = SaplingKey::generate_key();
    let address = spender_key.generate_public_address().unwrap();
    let note = Note::new(
        address,
        7,
        Memo(vec![3u8; 32]),
        AssetType::new("bar".as_bytes()).unwrap(),
    );
    let receipt = ReceiptParams::new(&spender_key, &note).unwrap();
    let proof_bytes = prove(&output_params, &receipt_inputs(&receipt.merkle_note));
    let proof = receipt.post(&sapling, &proof_bytes).unwrap();
    let mut serialized = vec![];
    proof.write(&mut serialized);

    // Mutate each byte of the value-commitment field in turn: after
    // deserializing, verification must fail (or the bytes must no longer
    // parse as a point at all).
    for offset in [192usize, 200, 210, 223] {
        let mut tampered = serialized.clone();
        tampered[offset] ^= 0x01;
        match ReceiptProof::read(&tampered) {
            Err(e) => assert_eq!(e, SaplingProofError::ReadError),
            Ok(read_back) => {
                assert!(read_back.verify_proof(&sapling).is_err());
            }
        }
    }
}

#[test]
fn test_small_order_ephemeral_key_rejected() {
    let (sapling, _sp, output_params) = make_sapling();
    let spender_key = SaplingKey::generate_key();
    let address = spender_key.generate_public_address().unwrap();
    let note = Note::new(
        address,
        11,
        Memo(vec![0u8; 32]),
        AssetType::new("baz".as_bytes()).unwrap(),
    );
    let receipt = ReceiptParams::new(&spender_key, &note).unwrap();
    let proof_bytes = prove(&output_params, &receipt_inputs(&receipt.merkle_note));
    let mut proof = receipt.post(&sapling, &proof_bytes).unwrap();

    // The identity point (0, 1) is a valid encoding but of small order;
    // swapping it in for the ephemeral public key must fail verification
    // even though the proof bytes are untouched.
    let mut small_order = vec![0u8; 32];
    small_order[0] = 1;
    proof.merkle_note.ephemeral_public_key = small_order;
    assert!(proof.verify_proof(&sapling).is_err());
}

#[test]
fn test_spend_round_trip() {
    let (sapling, spend_params, _op) = make_sapling();
    let spender_key = SaplingKey::generate_key();
    let address = spender_key.generate_public_address().unwrap();
    let note = Note::new(
        address,
        100,
        Memo(vec![9u8; 32]),
        AssetType::new("foo".as_bytes()).unwrap(),
    );

    // Build a genuine authentication path over the note's commitment.
    let commitment = note.commitment();
    let mut auth_path = vec![];
    let mut current = commitment.clone();
    for depth in 0..32u8 {
        let sibling = vec![depth; 32];
        if depth % 2 == 0 {
            current = MerkleNoteHash::combine_hash(depth, &current, &sibling);
            auth_path.push(WitnessNode::Left(sibling));
        } else {
            current = MerkleNoteHash::combine_hash(depth, &sibling, &current);
            auth_path.push(WitnessNode::Right(sibling));
        }
    }
    let witness = Witness {
        tree_size: 1,
        position: 0,
        root_hash: current,
        auth_path,
    };
    assert!(witness.verify(&commitment));

    let spend = SpendParams::new(&spender_key, &note, &witness)
        .expect("should be able to create spend params");
    assert_eq!(spend.root_hash, witness.root_hash);

    let rk = affine(&spend.randomized_public_key);
    let cv = affine(&spend.value_commitment);
    let mut nf_low = spend.nullifier[0..16].to_vec();
    nf_low.extend_from_slice(&[0u8; 16]);
    let mut nf_high = spend.nullifier[16..32].to_vec();
    nf_high.extend_from_slice(&[0u8; 16]);
    let inputs = vec![
        rk.get_u(),
        rk.get_v(),
        cv.get_u(),
        cv.get_v(),
        scalar(&spend.root_hash),
        scalar(&nf_low),
        scalar(&nf_high),
    ];
    let proof_bytes = prove(&spend_params, &inputs);
    let proof = spend
        .post(&sapling, &proof_bytes)
        .expect("should be able to post spend proof");
    proof.verify_proof(&sapling).expect("spend proof should check out");

    let mut serialized = vec![];
    proof.write(&mut serialized);
    let read_back: SpendProof =
        SpendProof::read(&serialized).expect("should deserialize spend proof");
    assert_eq!(read_back.proof, proof.proof);
    assert_eq!(read_back.nullifier, proof.nullifier);
    assert_eq!(read_back.tree_size, proof.tree_size);
    let mut serialized_again = vec![];
    read_back.write(&mut serialized_again);
    assert_eq!(serialized, serialized_again);
}

#[test]
fn test_sapling_load_rejects_corrupt_params() {
    let result = Sapling::load(&[1, 2, 3], &[]);
    assert!(matches!(result, Err(SaplingProofError::InitializationError)));
}

#[test]
fn test_receipt_read_rejects_truncated_bytes() {
    assert!(matches!(
        ReceiptProof::read(&[0u8; 40]),
        Err(SaplingProofError::ReadError)
    ));
}

#[test]
fn test_post_rejects_proof_for_other_inputs() {
    let (sapling, _sp, output_params) = make_sapling();
    let spender_key = SaplingKey::generate_key();
    let address = spender_key.generate_public_address().unwrap();
    let note = Note::new(
        address,
        21,
        Memo(vec![0u8; 32]),
        AssetType::new("foo".as_bytes()).unwrap(),
    );
    let receipt = ReceiptParams::new(&spender_key, &note).unwrap();

    // A structurally valid proof over a different public input vector must
    // not post: the self-check rejects it.
    let wrong_inputs = vec![Scalar::from(1u64); 5];
    let wrong_proof = prove(&output_params, &wrong_inputs);
    assert!(matches!(
        receipt.post(&sapling, &wrong_proof),
        Err(SaplingProofError::VerificationFailed)
    ));

    // Truncated proof bytes are rejected outright.
    let good_proof = prove(&output_params, &receipt_inputs(&receipt.merkle_note));
    assert!(receipt.post(&sapling, &good_proof[..100]).is_err());
}

#[test]
fn test_read_accepts_trailing_bytes() {
    let (sapling, _sp, output_params) = make_sapling();
    let spender_key = SaplingKey::generate_key();
    let address = spender_key.generate_public_address().unwrap();
    let note = Note::new(
        address,
        3,
        Memo(vec![0u8; 32]),
        AssetType::new("foo".as_bytes()).unwrap(),
    );
    let receipt = ReceiptParams::new(&spender_key, &note).unwrap();
    let proof_bytes = prove(&output_params, &receipt_inputs(&receipt.merkle_note));
    let proof = receipt.post(&sapling, &proof_bytes).unwrap();
    let mut serialized = vec![];
    proof.write(&mut serialized);
    // A reader positioned in a longer stream consumes only its fixed width.
    serialized.extend_from_slice(&[7u8; 5]);
    let read_back = ReceiptProof::read(&serialized).expect("prefix should parse");
    assert_eq!(read_back.proof, proof.proof);
}
