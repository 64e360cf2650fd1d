//! The three operations of the bridge as steps between calls of the backend:
//! each step takes what the host or the backend gave and says what to do next.

use vstd::prelude::*;
use vstd::slice::slice_to_vec;
use vstd::string::StringExecFns;

use crate::boundary::argument_text;
use crate::boundary::cstr_to_string;
use crate::bytecode::bytecode_of;
use crate::bytecode::decode_bytecode;
use crate::dispatch::CircuitInput;
use crate::dispatch::CircuitInputNoVk;
use crate::dispatch::Command;
use crate::dispatch::CommandView;
use crate::dispatch::Response;
use crate::error::Error;
use crate::error::Fault;
use crate::response::decode_response;
use crate::response::encode_response;
use crate::response::msgpack_named_response;
use crate::response::msgpack_response_decoding;
use crate::settings::parse_settings;
use crate::settings::settings_json_decoding;
use crate::settings::Settings;
use crate::witness::encode_witness;
use crate::witness::fields_of;
use crate::witness::parse_witness;
use crate::witness::witness_envelope;

verus! {

/// The name under which every circuit is sent to the backend.
pub open spec fn circuit_name() -> Seq<char> {
    "circuit"@
}

/// The settings that a text argument describes.
pub open spec fn settings_of(p: Option<&[u8]>) -> Result<(bool, Seq<char>, bool, bool), Fault> {
    match argument_text(p) {
        Err(fault) => Err(fault),
        Ok(text) => match settings_json_decoding(text) {
            None => Err(Fault::SettingsJson),
            Some(parts) => Ok(parts),
        },
    }
}

/// The bytecode that a text argument holds.
pub open spec fn bytecode_argument(p: Option<&[u8]>) -> Result<Seq<u8>, Fault> {
    match argument_text(p) {
        Err(fault) => Err(fault),
        Ok(text) => match bytecode_of(text) {
            Err(stage) => Err(Fault::Decode(stage)),
            Ok(bytes) => Ok(bytes),
        },
    }
}

/// Reads the settings argument.
pub fn read_settings(p: Option<&[u8]>) -> (parsed: Result<Settings, Error>)
    ensures
        match settings_of(p) {
            Ok(parts) => parsed matches Ok(settings) && settings.parts() == parts,
            Err(fault) => parsed matches Err(e) && e@ == fault,
        },
{
    let text = cstr_to_string(p)?;
    parse_settings(text.as_str())
}

/// Reads the bytecode argument.
pub fn read_bytecode(p: Option<&[u8]>) -> (decoded: Result<Vec<u8>, Error>)
    ensures
        match bytecode_argument(p) {
            Ok(bytes) => decoded matches Ok(found) && found@ == bytes,
            Err(fault) => decoded matches Err(e) && e@ == fault,
        },
{
    let text = cstr_to_string(p)?;
    decode_bytecode(text.as_str())
}

/// What proving starts from: the bytecode and the witness document.
pub open spec fn prove_inputs(bytecode: Option<&[u8]>, witness: Option<&[u8]>) -> Result<
    (Seq<u8>, Seq<char>),
    Fault,
> {
    match bytecode_argument(bytecode) {
        Err(fault) => Err(fault),
        Ok(bytes) => match argument_text(witness) {
            Err(fault) => Err(fault),
            Ok(json) => Ok((bytes, json)),
        },
    }
}

/// First step of proving: decodes the bytecode, then reads the witness
/// document, which the caller has to parse next.
pub fn prove_begin(bytecode: Option<&[u8]>, witness: Option<&[u8]>) -> (begun: Result<
    (Vec<u8>, String),
    Error,
>)
    ensures
        match prove_inputs(bytecode, witness) {
            Ok((bytes, json)) => begun matches Ok((b, j)) && b@ == bytes && j@ == json,
            Err(fault) => begun matches Err(e) && e@ == fault,
        },
{
    let bytes = read_bytecode(bytecode)?;
    let json = cstr_to_string(witness)?;
    Ok((bytes, json))
}

/// What a proving run keeps while the backend computes the verification key.
#[derive(Debug)]
pub struct ProveState {
    pub bytecode: Vec<u8>,
    pub witness: Vec<u8>,
    pub settings: Settings,
}

/// The witness envelope and the settings of a proving run, or the first fault
/// in the order: witness document, settings, witness values, encoding.
pub open spec fn prove_plan(witness: Result<Vec<String>, String>, settings: Option<&[u8]>) -> Result<
    (Seq<u8>, (bool, Seq<char>, bool, bool)),
    Fault,
> {
    match witness {
        Err(_) => Err(Fault::WitnessJson),
        Ok(values) => match settings_of(settings) {
            Err(fault) => Err(fault),
            Ok(parts) => match fields_of(values@) {
                Err(fault) => Err(fault),
                Ok(fields) => if fields.len() > u32::MAX {
                    Err(Fault::WitnessTooLong)
                } else {
                    match witness_envelope(fields) {
                        None => Err(Fault::WitnessEncoding),
                        Some(envelope) => Ok((envelope, parts)),
                    }
                },
            },
        },
    }
}

/// Second step of proving: with the witness document parsed into its values,
/// or the reason why it could not be, prepares the witness and asks for the
/// verification key of the circuit.
pub fn prove_request_vk(
    bytecode: Vec<u8>,
    witness: Result<Vec<String>, String>,
    settings: Option<&[u8]>,
) -> (requested: Result<(Command, ProveState), Error>)
    ensures
        match prove_plan(witness, settings) {
            Ok((envelope, parts)) => {
                &&& requested matches Ok((command, state))
                &&& command@ == (CommandView::CircuitComputeVk {
                    name: circuit_name(),
                    bytecode: bytecode@,
                    settings: parts,
                })
                &&& state.bytecode == bytecode
                &&& state.witness@ == envelope
                &&& state.settings.parts() == parts
            },
            Err(fault) => requested matches Err(e) && e@ == fault,
        },
{
    let values = match witness {
        Ok(values) => values,
        Err(reason) => {
            return Err(Error::WitnessJson(reason));
        },
    };
    let parsed = read_settings(settings)?;
    let fields = parse_witness(&values)?;
    let envelope = encode_witness(&fields)?;
    let command = Command::CircuitComputeVk {
        circuit: CircuitInputNoVk { name: String::from_str("circuit"), bytecode: bytecode.clone() },
        settings: parsed.clone(),
    };
    Ok((command, ProveState { bytecode, witness: envelope, settings: parsed }))
}

/// Third step of proving: with the backend's answer to the request for the
/// verification key, asks for the proof.
pub fn prove_request_proof(state: ProveState, reply: Result<Response, Error>) -> (requested: Result<
    Command,
    Error,
>)
    ensures
        match reply {
            Err(fault) => requested == Err::<Command, Error>(fault),
            Ok(Response::CircuitComputeVkResponse(vk)) => {
                &&& requested matches Ok(command)
                &&& command@ == (CommandView::CircuitProve {
                    name: circuit_name(),
                    bytecode: state.bytecode@,
                    verification_key: vk.bytes@,
                    witness: state.witness@,
                    settings: state.settings.parts(),
                })
            },
            Ok(_) => requested matches Err(Error::UnexpectedResponse),
        },
{
    match reply? {
        Response::CircuitComputeVkResponse(vk) => Ok(
            Command::CircuitProve {
                circuit: CircuitInput {
                    name: String::from_str("circuit"),
                    bytecode: state.bytecode,
                    verification_key: vk.bytes,
                },
                witness: state.witness,
                settings: state.settings,
            },
        ),
        _ => Err(Error::UnexpectedResponse),
    }
}

/// Last step of proving: encodes the backend's proof response as the envelope
/// that the host receives.
pub fn prove_finish(reply: Result<Response, Error>) -> (proved: Result<Vec<u8>, Error>)
    ensures
        match reply {
            Err(fault) => proved == Err::<Vec<u8>, Error>(fault),
            Ok(Response::CircuitProveResponse(response)) => match msgpack_named_response(
                response.parts(),
            ) {
                Some(bytes) => proved matches Ok(envelope) && envelope@ == bytes,
                None => proved matches Err(Error::ResponseEncoding(_)),
            },
            Ok(_) => proved matches Err(Error::UnexpectedResponse),
        },
{
    match reply? {
        Response::CircuitProveResponse(response) => encode_response(&response),
        _ => Err(Error::UnexpectedResponse),
    }
}

/// The bytecode and the settings that a request for a verification key is
/// made of.
pub open spec fn vk_inputs(bytecode: Option<&[u8]>, settings: Option<&[u8]>) -> Result<
    (Seq<u8>, (bool, Seq<char>, bool, bool)),
    Fault,
> {
    match bytecode_argument(bytecode) {
        Err(fault) => Err(fault),
        Ok(bytes) => match settings_of(settings) {
            Err(fault) => Err(fault),
            Ok(parts) => Ok((bytes, parts)),
        },
    }
}

/// First step of getting a verification key: decodes the bytecode, reads the
/// settings and asks the backend for the key.
pub fn get_vk_request(bytecode: Option<&[u8]>, settings: Option<&[u8]>) -> (requested: Result<
    Command,
    Error,
>)
    ensures
        match vk_inputs(bytecode, settings) {
            Ok((bytes, parts)) => requested matches Ok(command) && command@ == (
            CommandView::CircuitComputeVk { name: circuit_name(), bytecode: bytes, settings: parts }),
            Err(fault) => requested matches Err(e) && e@ == fault,
        },
{
    let bytes = read_bytecode(bytecode)?;
    let parsed = read_settings(settings)?;
    Ok(
        Command::CircuitComputeVk {
            circuit: CircuitInputNoVk { name: String::from_str("circuit"), bytecode: bytes },
            settings: parsed,
        },
    )
}

/// Last step of getting a verification key: the bytes of the key that the
/// backend answered with.
pub fn get_vk_finish(reply: Result<Response, Error>) -> (key: Result<Vec<u8>, Error>)
    ensures
        match reply {
            Err(fault) => key == Err::<Vec<u8>, Error>(fault),
            Ok(Response::CircuitComputeVkResponse(vk)) => key == Ok::<Vec<u8>, Error>(vk.bytes),
            Ok(_) => key matches Err(Error::UnexpectedResponse),
        },
{
    match reply? {
        Response::CircuitComputeVkResponse(vk) => Ok(vk.bytes),
        _ => Err(Error::UnexpectedResponse),
    }
}

/// What a request to verify is made of: the key, then the public inputs and
/// the proof that the envelope holds, and the settings. Both buffers must be
/// there before anything else is looked at.
pub open spec fn verify_inputs(
    envelope: Option<&[u8]>,
    vk: Option<&[u8]>,
    settings: Option<&[u8]>,
) -> Result<CommandView, Fault> {
    match (envelope, vk) {
        (Some(bytes), Some(key)) => match settings_of(settings) {
            Err(fault) => Err(fault),
            Ok(parts) => match msgpack_response_decoding(bytes@) {
                None => Err(Fault::ResponseDecoding),
                Some(response) => Ok(
                    CommandView::CircuitVerify {
                        verification_key: key@,
                        public_inputs: response.0,
                        proof: response.1,
                        settings: parts,
                    },
                ),
            },
        },
        _ => Err(Fault::NullInput),
    }
}

/// First step of verifying: reads the settings, opens the proof envelope and
/// asks the backend to verify what it holds against the key.
pub fn verify_request(envelope: Option<&[u8]>, vk: Option<&[u8]>, settings: Option<&[u8]>) -> (requested:
    Result<Command, Error>)
    ensures
        match verify_inputs(envelope, vk, settings) {
            Ok(view) => requested matches Ok(command) && command@ == view,
            Err(fault) => requested matches Err(e) && e@ == fault,
        },
{
    let (bytes, key) = match (envelope, vk) {
        (Some(bytes), Some(key)) => (bytes, key),
        _ => {
            return Err(Error::NullInput);
        },
    };
    let verification_key = slice_to_vec(key);
    let parsed = read_settings(settings)?;
    let response = decode_response(bytes)?;
    Ok(
        Command::CircuitVerify {
            verification_key,
            public_inputs: response.public_inputs,
            proof: response.proof,
            settings: parsed,
        },
    )
}

/// Last step of verifying: what the backend found.
pub fn verify_finish(reply: Result<Response, Error>) -> (verified: Result<bool, Error>)
    ensures
        match reply {
            Err(fault) => verified == Err::<bool, Error>(fault),
            Ok(Response::CircuitVerifyResponse(flag)) => verified == Ok::<bool, Error>(flag),
            Ok(_) => verified matches Err(Error::UnexpectedResponse),
        },
{
    match reply? {
        Response::CircuitVerifyResponse(flag) => Ok(flag),
        _ => Err(Error::UnexpectedResponse),
    }
}

/// The plain answer of verifying: every failure on the way counts as "not
/// verified".
pub fn verify_verdict(outcome: Result<bool, Error>) -> (verified: bool)
    ensures
        verified == (outcome matches Ok(flag) && flag),
{
    match outcome {
        Ok(flag) => flag,
        Err(_) => false,
    }
}

} // verus!
