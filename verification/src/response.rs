//! What the backend answers, and the envelope that carries a proof to the host.

use vstd::prelude::*;

use crate::error::Error;

verus! {

/// A verification key as the backend returns it.
#[derive(Debug)]
pub struct VerificationKey {
    pub bytes: Vec<u8>,
    pub fields: Vec<Vec<u8>>,
    pub hash: Vec<u8>,
}

/// What proving returns: the public inputs, the proof and the key it was made for.
#[derive(Debug)]
pub struct ProofResponse {
    pub public_inputs: Vec<Vec<u8>>,
    pub proof: Vec<Vec<u8>>,
    pub vk: VerificationKey,
}

impl ProofResponse {
    /// The response as plain values: public inputs, proof, then the key's
    /// bytes, fields and hash.
    pub open spec fn parts(&self) -> (Seq<Seq<u8>>, Seq<Seq<u8>>, Seq<u8>, Seq<Seq<u8>>, Seq<u8>) {
        (
            self.public_inputs.deep_view(),
            self.proof.deep_view(),
            self.vk.bytes@,
            self.vk.fields.deep_view(),
            self.vk.hash@,
        )
    }
}

/// The MessagePack encoding of a proof response with its field names kept, if
/// it has one.
pub uninterp spec fn msgpack_named_response(
    parts: (Seq<Seq<u8>>, Seq<Seq<u8>>, Seq<u8>, Seq<Seq<u8>>, Seq<u8>),
) -> Option<Seq<u8>>;

/// The proof response that a MessagePack envelope holds, if it holds one.
pub uninterp spec fn msgpack_response_decoding(bytes: Seq<u8>) -> Option<
    (Seq<Seq<u8>>, Seq<Seq<u8>>, Seq<u8>, Seq<Seq<u8>>, Seq<u8>),
>;

/// Copies the response into barretenberg's `CircuitProveResponse` and calls
/// `rmp_serde::to_vec_named` on it. The result depends on the response alone;
/// the error comes back as its text.
#[verifier::external_body]
fn response_to_msgpack(response: &ProofResponse) -> (encoded: Result<Vec<u8>, String>)
    ensures
        match encoded {
            Ok(bytes) => msgpack_named_response(response.parts()) == Some(bytes@),
            Err(_) => msgpack_named_response(response.parts()) is None,
        },
{
    let outside = barretenberg_rs::generated_types::CircuitProveResponse {
        public_inputs: response.public_inputs.clone(),
        proof: response.proof.clone(),
        vk: barretenberg_rs::generated_types::CircuitComputeVkResponse {
            bytes: response.vk.bytes.clone(),
            fields: response.vk.fields.clone(),
            hash: response.vk.hash.clone(),
        },
    };
    rmp_serde::to_vec_named(&outside).map_err(|e| e.to_string())
}

/// Calls `rmp_serde::from_slice` for barretenberg's `CircuitProveResponse` and
/// moves its fields over. The result depends on the bytes alone; the error
/// comes back as its text.
#[verifier::external_body]
fn response_from_msgpack(bytes: &[u8]) -> (decoded: Result<ProofResponse, String>)
    ensures
        match decoded {
            Ok(response) => msgpack_response_decoding(bytes@) == Some(response.parts()),
            Err(_) => msgpack_response_decoding(bytes@) is None,
        },
{
    match rmp_serde::from_slice::<barretenberg_rs::generated_types::CircuitProveResponse>(bytes) {
        Ok(found) => Ok(
            ProofResponse {
                public_inputs: found.public_inputs,
                proof: found.proof,
                vk: VerificationKey {
                    bytes: found.vk.bytes,
                    fields: found.vk.fields,
                    hash: found.vk.hash,
                },
            },
        ),
        Err(e) => Err(e.to_string()),
    }
}

/// Turns the outcome of serializing a proof response into the bridge's result.
pub fn encoding_outcome(outcome: Result<Vec<u8>, String>) -> (encoded: Result<Vec<u8>, Error>)
    ensures
        match outcome {
            Ok(bytes) => encoded matches Ok(same) && same@ == bytes@,
            Err(detail) => encoded matches Err(Error::ResponseEncoding(d)) && d@ == detail@,
        },
{
    match outcome {
        Ok(bytes) => Ok(bytes),
        Err(detail) => Err(Error::ResponseEncoding(detail)),
    }
}

/// Turns the outcome of reading a proof envelope into the bridge's result.
pub fn decoding_outcome(outcome: Result<ProofResponse, String>) -> (decoded: Result<
    ProofResponse,
    Error,
>)
    ensures
        match outcome {
            Ok(response) => decoded matches Ok(same) && same == response,
            Err(detail) => decoded matches Err(Error::ResponseDecoding(d)) && d@ == detail@,
        },
{
    match outcome {
        Ok(response) => Ok(response),
        Err(detail) => Err(Error::ResponseDecoding(detail)),
    }
}

/// Encodes a proof response as the self-describing envelope that the host keeps.
pub fn encode_response(response: &ProofResponse) -> (encoded: Result<Vec<u8>, Error>)
    ensures
        match msgpack_named_response(response.parts()) {
            Some(bytes) => encoded matches Ok(found) && found@ == bytes,
            None => encoded matches Err(Error::ResponseEncoding(_)),
        },
{
    encoding_outcome(response_to_msgpack(response))
}

/// Reads a proof response back from its envelope.
pub fn decode_response(envelope: &[u8]) -> (decoded: Result<ProofResponse, Error>)
    ensures
        match msgpack_response_decoding(envelope@) {
            Some(parts) => decoded matches Ok(response) && response.parts() == parts,
            None => decoded matches Err(Error::ResponseDecoding(_)),
        },
{
    decoding_outcome(response_from_msgpack(envelope))
}

} // verus!
