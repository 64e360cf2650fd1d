//! The failures that the bridge reports to its host.

use vstd::prelude::*;
use vstd::string::StringExecFns;

verus! {

/// The two stages of decoding transport-encoded bytecode.
#[derive(Clone, Copy, Debug, PartialEq, Eq, Structural)]
pub enum DecodeStage {
    Base64,
    Gzip,
}

/// Why a decimal numeral is not an unsigned 128-bit integer.
#[derive(Clone, Copy, Debug, PartialEq, Eq, Structural)]
pub enum DecimalError {
    /// The text is empty.
    Empty,
    /// A character is not a decimal digit, or no digit follows the sign.
    InvalidDigit,
    /// The digits denote a number above `u128::MAX`.
    Overflow,
}

/// The coarse classes of failure that a host can tell apart.
#[derive(Clone, Copy, Debug, PartialEq, Eq, Structural)]
pub enum ErrorKind {
    Initialization,
    Decode,
    Parse,
    Backend,
    UnsupportedOperation,
    NullInput,
}

/// A failure of one bridge operation. A `String` field holds the text that the
/// failing collaborator gave.
#[derive(Debug)]
pub enum Error {
    /// A required argument is absent.
    NullInput,
    /// A text argument is not UTF-8.
    InvalidUtf8(String),
    /// The bytecode text failed to decode at the given stage.
    Decode(DecodeStage, String),
    /// The witness document is not a JSON object with a `witness` list of strings.
    WitnessJson(String),
    /// The settings document does not describe proof-system settings.
    SettingsJson(String),
    /// The digits after `0x` are not hexadecimal.
    FieldHex(String),
    /// The digits after `0x` denote more than 32 bytes.
    FieldTooLong,
    /// The text is not an unsigned 128-bit decimal numeral.
    FieldDecimal(DecimalError),
    /// The witness has more values than 32-bit indices.
    WitnessTooLong,
    /// The witness stack could not be serialized.
    WitnessEncoding(String),
    /// The proof response could not be serialized.
    ResponseEncoding(String),
    /// The proof envelope does not hold a proof response.
    ResponseDecoding(String),
    /// The backend reported a failure.
    Backend(String),
    /// The backend answered with another kind of response than the command asks for.
    UnexpectedResponse,
    /// The command is not one that the bridge routes.
    UnsupportedCommand,
    /// The backend could not be created or located.
    Initialization(String),
    /// Exclusive access to the backend could not be had.
    LockFailed(String),
}

/// A failure without the text that came with it.
pub enum Fault {
    NullInput,
    InvalidUtf8,
    Decode(DecodeStage),
    WitnessJson,
    SettingsJson,
    FieldHex,
    FieldTooLong,
    FieldDecimal(DecimalError),
    WitnessTooLong,
    WitnessEncoding,
    ResponseEncoding,
    ResponseDecoding,
    Backend,
    UnexpectedResponse,
    UnsupportedCommand,
    Initialization,
    LockFailed,
}

impl View for Error {
    type V = Fault;

    open spec fn view(&self) -> Fault {
        match *self {
            Error::NullInput => Fault::NullInput,
            Error::InvalidUtf8(_) => Fault::InvalidUtf8,
            Error::Decode(stage, _) => Fault::Decode(stage),
            Error::WitnessJson(_) => Fault::WitnessJson,
            Error::SettingsJson(_) => Fault::SettingsJson,
            Error::FieldHex(_) => Fault::FieldHex,
            Error::FieldTooLong => Fault::FieldTooLong,
            Error::FieldDecimal(fault) => Fault::FieldDecimal(fault),
            Error::WitnessTooLong => Fault::WitnessTooLong,
            Error::WitnessEncoding(_) => Fault::WitnessEncoding,
            Error::ResponseEncoding(_) => Fault::ResponseEncoding,
            Error::ResponseDecoding(_) => Fault::ResponseDecoding,
            Error::Backend(_) => Fault::Backend,
            Error::UnexpectedResponse => Fault::UnexpectedResponse,
            Error::UnsupportedCommand => Fault::UnsupportedCommand,
            Error::Initialization(_) => Fault::Initialization,
            Error::LockFailed(_) => Fault::LockFailed,
        }
    }
}

impl Error {
    /// The class of this failure.
    pub open spec fn spec_kind(&self) -> ErrorKind {
        match *self {
            Error::NullInput => ErrorKind::NullInput,
            Error::Decode(_, _) => ErrorKind::Decode,
            Error::InvalidUtf8(_) | Error::WitnessJson(_) | Error::SettingsJson(_)
            | Error::FieldHex(_) | Error::FieldTooLong | Error::FieldDecimal(_)
            | Error::WitnessTooLong | Error::ResponseDecoding(_) => ErrorKind::Parse,
            Error::WitnessEncoding(_) | Error::ResponseEncoding(_) | Error::Backend(_)
            | Error::UnexpectedResponse => ErrorKind::Backend,
            Error::UnsupportedCommand => ErrorKind::UnsupportedOperation,
            Error::Initialization(_) | Error::LockFailed(_) => ErrorKind::Initialization,
        }
    }

    /// The text of this failure, as the host reads it.
    pub open spec fn spec_message(&self) -> Seq<char> {
        match *self {
            Error::NullInput => "null pointer"@,
            Error::InvalidUtf8(detail) => detail@,
            Error::Decode(_, detail) => detail@,
            Error::WitnessJson(detail) => detail@,
            Error::SettingsJson(detail) => detail@,
            Error::FieldHex(detail) => detail@,
            Error::FieldTooLong => "Hex string too long for field element"@,
            Error::FieldDecimal(DecimalError::Empty) => "cannot parse integer from empty string"@,
            Error::FieldDecimal(DecimalError::InvalidDigit) => "invalid digit found in string"@,
            Error::FieldDecimal(DecimalError::Overflow) => "number too large to fit in target type"@,
            Error::WitnessTooLong => "Too many witness values"@,
            Error::WitnessEncoding(detail) => "Failed to serialize witness stack: "@ + detail@,
            Error::ResponseEncoding(detail) => "Failed to serialize response: "@ + detail@,
            Error::ResponseDecoding(detail) => "Failed to deserialize proof response: "@ + detail@,
            Error::Backend(detail) => detail@,
            Error::UnexpectedResponse => "Unexpected response"@,
            Error::UnsupportedCommand => "Unsupported command"@,
            Error::Initialization(detail) => detail@,
            Error::LockFailed(detail) => "Mutex lock failed: "@ + detail@,
        }
    }

    #[verifier::when_used_as_spec(spec_kind)]
    pub fn kind(&self) -> (kind: ErrorKind)
        ensures
            kind == self.spec_kind(),
    {
        match self {
            Error::NullInput => ErrorKind::NullInput,
            Error::Decode(_, _) => ErrorKind::Decode,
            Error::InvalidUtf8(_) | Error::WitnessJson(_) | Error::SettingsJson(_)
            | Error::FieldHex(_) | Error::FieldTooLong | Error::FieldDecimal(_)
            | Error::WitnessTooLong | Error::ResponseDecoding(_) => ErrorKind::Parse,
            Error::WitnessEncoding(_) | Error::ResponseEncoding(_) | Error::Backend(_)
            | Error::UnexpectedResponse => ErrorKind::Backend,
            Error::UnsupportedCommand => ErrorKind::UnsupportedOperation,
            Error::Initialization(_) | Error::LockFailed(_) => ErrorKind::Initialization,
        }
    }

    pub fn message(&self) -> (text: String)
        ensures
            text@ == self.spec_message(),
    {
        match self {
            Error::NullInput => String::from_str("null pointer"),
            Error::InvalidUtf8(detail) => detail.clone(),
            Error::Decode(_, detail) => detail.clone(),
            Error::WitnessJson(detail) => detail.clone(),
            Error::SettingsJson(detail) => detail.clone(),
            Error::FieldHex(detail) => detail.clone(),
            Error::FieldTooLong => String::from_str("Hex string too long for field element"),
            Error::FieldDecimal(DecimalError::Empty) => String::from_str(
                "cannot parse integer from empty string",
            ),
            Error::FieldDecimal(DecimalError::InvalidDigit) => String::from_str(
                "invalid digit found in string",
            ),
            Error::FieldDecimal(DecimalError::Overflow) => String::from_str(
                "number too large to fit in target type",
            ),
            Error::WitnessTooLong => String::from_str("Too many witness values"),
            Error::WitnessEncoding(detail) => String::from_str(
                "Failed to serialize witness stack: ",
            ).concat(detail.as_str()),
            Error::ResponseEncoding(detail) => String::from_str(
                "Failed to serialize response: ",
            ).concat(detail.as_str()),
            Error::ResponseDecoding(detail) => String::from_str(
                "Failed to deserialize proof response: ",
            ).concat(detail.as_str()),
            Error::Backend(detail) => detail.clone(),
            Error::UnexpectedResponse => String::from_str("Unexpected response"),
            Error::UnsupportedCommand => String::from_str("Unsupported command"),
            Error::Initialization(detail) => detail.clone(),
            Error::LockFailed(detail) => String::from_str("Mutex lock failed: ").concat(
                detail.as_str(),
            ),
        }
    }
}

} // verus!
