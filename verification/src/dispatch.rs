//! The commands that the bridge sends to the backend, the responses that come
//! back, and the routing between them.

use vstd::prelude::*;

use crate::backend::BackendKind;
use crate::error::Error;
use crate::response::ProofResponse;
use crate::response::VerificationKey;
use crate::settings::Settings;

verus! {

/// A circuit whose verification key is not known yet.
#[derive(Debug)]
pub struct CircuitInputNoVk {
    pub name: String,
    pub bytecode: Vec<u8>,
}

/// A circuit with its verification key.
#[derive(Debug)]
pub struct CircuitInput {
    pub name: String,
    pub bytecode: Vec<u8>,
    pub verification_key: Vec<u8>,
}

/// A request to the backend.
#[derive(Debug)]
pub enum Command {
    CircuitComputeVk { circuit: CircuitInputNoVk, settings: Settings },
    CircuitProve { circuit: CircuitInput, witness: Vec<u8>, settings: Settings },
    CircuitVerify {
        verification_key: Vec<u8>,
        public_inputs: Vec<Vec<u8>>,
        proof: Vec<Vec<u8>>,
        settings: Settings,
    },
    /// Any other command of the backend's protocol, by its name.
    Other(String),
}

/// A command as plain values.
pub enum CommandView {
    CircuitComputeVk { name: Seq<char>, bytecode: Seq<u8>, settings: (bool, Seq<char>, bool, bool) },
    CircuitProve {
        name: Seq<char>,
        bytecode: Seq<u8>,
        verification_key: Seq<u8>,
        witness: Seq<u8>,
        settings: (bool, Seq<char>, bool, bool),
    },
    CircuitVerify {
        verification_key: Seq<u8>,
        public_inputs: Seq<Seq<u8>>,
        proof: Seq<Seq<u8>>,
        settings: (bool, Seq<char>, bool, bool),
    },
    Other(Seq<char>),
}

impl View for Command {
    type V = CommandView;

    open spec fn view(&self) -> CommandView {
        match *self {
            Command::CircuitComputeVk { circuit, settings } => CommandView::CircuitComputeVk {
                name: circuit.name@,
                bytecode: circuit.bytecode@,
                settings: settings.parts(),
            },
            Command::CircuitProve { circuit, witness, settings } => CommandView::CircuitProve {
                name: circuit.name@,
                bytecode: circuit.bytecode@,
                verification_key: circuit.verification_key@,
                witness: witness@,
                settings: settings.parts(),
            },
            Command::CircuitVerify {
                verification_key,
                public_inputs,
                proof,
                settings,
            } => CommandView::CircuitVerify {
                verification_key: verification_key@,
                public_inputs: public_inputs.deep_view(),
                proof: proof.deep_view(),
                settings: settings.parts(),
            },
            Command::Other(name) => CommandView::Other(name@),
        }
    }
}

/// One of the three operations that every backend offers.
#[derive(Debug)]
pub enum Operation {
    ComputeVk { circuit: CircuitInputNoVk, settings: Settings },
    Prove { circuit: CircuitInput, witness: Vec<u8>, settings: Settings },
    Verify {
        verification_key: Vec<u8>,
        public_inputs: Vec<Vec<u8>>,
        proof: Vec<Vec<u8>>,
        settings: Settings,
    },
}

/// An answer of the backend.
#[derive(Debug)]
pub enum Response {
    CircuitComputeVkResponse(VerificationKey),
    CircuitProveResponse(ProofResponse),
    CircuitVerifyResponse(bool),
    /// Any other response of the backend's protocol, by its name.
    Other(String),
}

/// The operation that serves a command, if one does.
pub open spec fn operation_for(cmd: Command) -> Option<Operation> {
    match cmd {
        Command::CircuitComputeVk { circuit, settings } => Some(
            Operation::ComputeVk { circuit, settings },
        ),
        Command::CircuitProve { circuit, witness, settings } => Some(
            Operation::Prove { circuit, witness, settings },
        ),
        Command::CircuitVerify { verification_key, public_inputs, proof, settings } => Some(
            Operation::Verify { verification_key, public_inputs, proof, settings },
        ),
        Command::Other(_) => None,
    }
}

/// Routes a command to the operation of the active backend that serves it.
/// `api` is the backend that access was granted to, or why none was. The
/// operation is the same whichever backend is active.
pub fn call_bb(api: Result<BackendKind, Error>, cmd: Command) -> (routed: Result<
    (BackendKind, Operation),
    Error,
>)
    ensures
        match api {
            Err(fault) => routed == Err::<(BackendKind, Operation), Error>(fault),
            Ok(kind) => match operation_for(cmd) {
                Some(operation) => routed == Ok::<(BackendKind, Operation), Error>(
                    (kind, operation),
                ),
                None => routed matches Err(Error::UnsupportedCommand),
            },
        },
{
    let kind = api?;
    match cmd {
        Command::CircuitComputeVk { circuit, settings } => Ok(
            (kind, Operation::ComputeVk { circuit, settings }),
        ),
        Command::CircuitProve { circuit, witness, settings } => Ok(
            (kind, Operation::Prove { circuit, witness, settings }),
        ),
        Command::CircuitVerify { verification_key, public_inputs, proof, settings } => Ok(
            (kind, Operation::Verify { verification_key, public_inputs, proof, settings }),
        ),
        Command::Other(_) => Err(Error::UnsupportedCommand),
    }
}

/// Hands on what the backend answered; its failure is kept word for word.
pub fn answer(outcome: Result<Response, String>) -> (reply: Result<Response, Error>)
    ensures
        match outcome {
            Ok(response) => reply == Ok::<Response, Error>(response),
            Err(reason) => reply == Err::<Response, Error>(Error::Backend(reason)),
        },
{
    match outcome {
        Ok(response) => Ok(response),
        Err(reason) => Err(Error::Backend(reason)),
    }
}

} // verus!
