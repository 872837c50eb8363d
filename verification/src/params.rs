use vstd::prelude::*;
use crate::errors::SaplingProofError;

verus! {

/// Whether `bytes` parses as a full proving-parameter bundle
/// (whether `bellman::groth16::Parameters::read` accepts it).
pub uninterp spec fn params_wf(bytes: Seq<u8>) -> bool;

/// Whether `b` is the 192-byte wire encoding of a proof: three non-identity
/// group elements in canonical compressed form
/// (whether `bellman::groth16::Proof::read` accepts it).
pub uninterp spec fn proof_wf(b: Seq<u8>) -> bool;

/// Whether the pairing-based verification equation of the proving system
/// holds for the proof `proof` and the public input vector `inputs`, under
/// the prepared verifying key of the parameter bundle that was loaded from
/// `vk_src`. The outcome depends on those three values alone.
pub uninterp spec fn groth16_verifies(vk_src: Seq<u8>, proof: Seq<u8>, inputs: Seq<Seq<u8>>) -> bool;

/// Bellman's prepared verifying key for one circuit, opaque to the verifier.
/// Verus refuses a declaration of the generic bellman type itself (its bound
/// is an outside trait), so the value is hidden in this private field.
#[verifier::external_body]
pub struct PreparedKey {
    vk: bellman::groth16::PreparedVerifyingKey<bls12_381::Bls12>,
}

/// The prepared verifying key of one circuit, beside the parameter bytes it
/// was derived from.
///
/// The fields are private on purpose: the only way to obtain a value is
/// `load_circuit_params`, which guarantees that the prepared verifying key
/// was derived from exactly the bytes that `key_source` reports.
pub struct CircuitParams {
    key: PreparedKey,
    src: Vec<u8>,
}

impl CircuitParams {
    /// The parameter bytes this bundle was loaded from.
    pub closed spec fn key_source(&self) -> Seq<u8> {
        self.src@
    }
}

/// Relies on bellman::groth16::Parameters::read (without the expensive
/// point checks, as the parameter files come from a trusted setup) and on
/// bellman::groth16::prepare_verifying_key, which derives the prepared key
/// from the bundle's verifying key.
#[verifier::external_body]
fn load_circuit_params(bytes: &[u8]) -> (r: Option<CircuitParams>)
    ensures
        r is Some <==> params_wf(bytes@),
        r is Some ==> r->Some_0.key_source() == bytes@,
{
    let params = bellman::groth16::Parameters::<bls12_381::Bls12>::read(bytes, false).ok()?;
    let vk = bellman::groth16::prepare_verifying_key(&params.vk);
    Some(CircuitParams { key: PreparedKey { vk }, src: bytes.to_vec() })
}

/// Relies on bellman::groth16::Proof::read: it accepts exactly 192 bytes
/// that decode to canonical, non-identity group elements.
#[verifier::external_body]
pub(crate) fn proof_check(b: &[u8]) -> (r: bool)
    requires
        b@.len() == 192,
    ensures
        r == proof_wf(b@),
{
    bellman::groth16::Proof::<bls12_381::Bls12>::read(b).is_ok()
}

/// Relies on bellman::groth16::verify_proof; the outcome depends only on
/// the key, the proof bytes and the public inputs, and is false whenever
/// the proof bytes or an input fail to decode.
#[verifier::external_body]
pub(crate) fn groth16_verify(cp: &CircuitParams, proof: &[u8], inputs: &Vec<Vec<u8>>) -> (r: bool)
    requires
        proof@.len() == 192,
        forall|i: int| 0 <= i < inputs@.len() ==> #[trigger] inputs@[i]@.len() == 32,
    ensures
        r == groth16_verifies(
            cp.key_source(),
            proof@,
            inputs@.map_values(|v: Vec<u8>| v@),
        ),
{
    let Ok(pr) = bellman::groth16::Proof::<bls12_381::Bls12>::read(proof) else { return false };
    let mut scalars = Vec::new();
    for bytes in inputs {
        let arr: [u8; 32] = match bytes.as_slice().try_into() {
            Ok(a) => a,
            Err(_) => return false,
        };
        match Option::<bls12_381::Scalar>::from(bls12_381::Scalar::from_bytes(&arr)) {
            Some(s) => scalars.push(s),
            None => return false,
        }
    }
    bellman::groth16::verify_proof(&cp.key.vk, &pr, &scalars).is_ok()
}

/// The shared, read-only context of every proof operation: the proving
/// parameters and prepared verifying keys of the spend circuit and of the
/// receipt (output) circuit, loaded once from two trusted-setup byte bundles.
pub struct Sapling {
    pub spend: CircuitParams,
    pub receipt: CircuitParams,
}

impl Sapling {
    /// Parses the two parameter bundles. Loading either fails atomically:
    /// truncated or corrupt bytes yield an initialization error and no
    /// partially-usable store.
    pub fn load(spend_bytes: &[u8], receipt_bytes: &[u8]) -> (r: Result<Sapling, SaplingProofError>)
        ensures
            r is Ok <==> (params_wf(spend_bytes@) && params_wf(receipt_bytes@)),
            r is Ok ==> r->Ok_0.spend.key_source() == spend_bytes@,
            r is Ok ==> r->Ok_0.receipt.key_source() == receipt_bytes@,
            r is Err ==> r->Err_0 == SaplingProofError::InitializationError,
    {
        let spend = match load_circuit_params(spend_bytes) {
            Some(cp) => cp,
            None => {
                return Err(SaplingProofError::InitializationError);
            },
        };
        let receipt = match load_circuit_params(receipt_bytes) {
            Some(cp) => cp,
            None => {
                return Err(SaplingProofError::InitializationError);
            },
        };
        Ok(Sapling { spend, receipt })
    }
}

} // verus!
