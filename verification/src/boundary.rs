//! What crosses the boundary to the host: arguments that may be absent, owned
//! buffers, and the result envelope.

use vstd::prelude::*;
use vstd::string::StringExecFns;
use vstd::utf8::decode_utf8;
use vstd::utf8::encode_utf8;
use vstd::utf8::valid_utf8;

use crate::error::Error;
use crate::error::Fault;

verus! {

/// A buffer whose owner must release it: the bytes of an allocation, or
/// nothing for the null buffer. It cannot be copied, so it is released once.
#[derive(Debug)]
pub struct ByteBuffer {
    pub bytes: Option<Vec<u8>>,
}

impl ByteBuffer {
    /// The buffer that owns no allocation.
    pub fn null() -> (buffer: ByteBuffer)
        ensures
            buffer.bytes is None,
    {
        ByteBuffer { bytes: None }
    }

    pub open spec fn spec_is_null(&self) -> bool {
        self.bytes is None
    }

    #[verifier::when_used_as_spec(spec_is_null)]
    pub fn is_null(&self) -> (null: bool)
        ensures
            null == self.spec_is_null(),
    {
        self.bytes.is_none()
    }

    /// The number of bytes that the buffer holds; none for the null buffer.
    pub open spec fn spec_len(&self) -> usize {
        match self.bytes {
            Some(bytes) => bytes.len(),
            None => 0,
        }
    }

    #[verifier::when_used_as_spec(spec_len)]
    pub fn len(&self) -> (len: usize)
        ensures
            len == self.spec_len(),
    {
        match &self.bytes {
            Some(bytes) => bytes.len(),
            None => 0,
        }
    }
}

/// The result envelope. Either `ok` holds, with a buffer and no message, or it
/// does not, with a message and the null buffer.
#[derive(Debug)]
pub struct BBResult {
    pub ok: bool,
    pub err: Option<String>,
    pub data: ByteBuffer,
}

impl BBResult {
    /// Whether the envelope is wholly a success or wholly a failure.
    pub open spec fn well_formed(&self) -> bool {
        if self.ok {
            self.err is None && self.data.bytes is Some
        } else {
            self.err is Some && self.data.bytes is None
        }
    }
}

/// The success envelope that hands `data` to the host.
pub fn ok(data: Vec<u8>) -> (result: BBResult)
    ensures
        result.ok,
        result.err is None,
        result.data.bytes == Some(data),
        result.well_formed(),
{
    BBResult { ok: true, err: None, data: ByteBuffer { bytes: Some(data) } }
}

/// Whether a zero byte stands among `bytes`.
pub open spec fn has_nul(bytes: Seq<u8>) -> bool {
    exists|i: int| 0 <= i < bytes.len() && bytes[i] == 0u8
}

/// The message that the host can read as a C string: `msg` itself, or a fixed
/// text where `msg` holds a zero byte.
pub open spec fn c_message(msg: Seq<char>) -> Seq<char> {
    if has_nul(encode_utf8(msg)) {
        "Unknown error"@
    } else {
        msg
    }
}

/// The failure envelope that carries `msg` to the host.
pub fn err(msg: String) -> (result: BBResult)
    ensures
        !result.ok,
        result.data.bytes is None,
        result.err matches Some(text) && text@ == c_message(msg@),
        result.well_formed(),
{
    let bytes = msg.as_str().as_bytes();
    let mut i: usize = 0;
    let mut found = false;
    while i < bytes.len() && !found
        invariant
            i <= bytes@.len(),
            found ==> has_nul(bytes@),
            !found ==> forall|j: int| 0 <= j < i ==> bytes@[j] != 0u8,
        decreases bytes@.len() - i + if found { 0int } else { 1int },
    {
        if bytes[i] == 0u8 {
            found = true;
        } else {
            i += 1;
        }
    }
    let text = if found {
        String::from_str("Unknown error")
    } else {
        msg
    };
    BBResult { ok: false, err: Some(text), data: ByteBuffer::null() }
}

/// The envelope of an operation's outcome.
pub fn envelope(outcome: Result<Vec<u8>, Error>) -> (result: BBResult)
    ensures
        result.well_formed(),
        match outcome {
            Ok(data) => result.ok && result.data.bytes == Some(data),
            Err(fault) => {
                &&& !result.ok
                &&& result.err matches Some(text)
                &&& text@ == c_message(fault.spec_message())
            },
        },
{
    match outcome {
        Ok(data) => ok(data),
        Err(fault) => err(fault.message()),
    }
}

/// Calls `std::str::from_utf8`, which accepts exactly the byte strings that
/// are UTF-8 and then gives the text that they encode. The error comes back as
/// its text.
#[verifier::external_body]
fn utf8_text(bytes: &[u8]) -> (text: Result<&str, String>)
    ensures
        match text {
            Ok(s) => valid_utf8(bytes@) && s@ == decode_utf8(bytes@),
            Err(_) => !valid_utf8(bytes@),
        },
{
    std::str::from_utf8(bytes).map_err(|e| e.to_string())
}

/// The text of an argument of the host: absent for a null pointer, and no
/// text where the bytes are not UTF-8.
pub open spec fn argument_text(p: Option<&[u8]>) -> Result<Seq<char>, Fault> {
    match p {
        None => Err(Fault::NullInput),
        Some(bytes) => if valid_utf8(bytes@) {
            Ok(decode_utf8(bytes@))
        } else {
            Err(Fault::InvalidUtf8)
        },
    }
}

/// Reads a text argument of the host: the bytes of a C string, without the
/// zero byte that ends it, or nothing for a null pointer.
pub fn cstr_to_string(p: Option<&[u8]>) -> (text: Result<String, Error>)
    ensures
        match argument_text(p) {
            Ok(chars) => text matches Ok(s) && s@ == chars,
            Err(fault) => text matches Err(e) && e@ == fault,
        },
{
    match p {
        None => Err(Error::NullInput),
        Some(bytes) => match utf8_text(bytes) {
            Ok(s) => Ok(s.to_owned()),
            Err(detail) => Err(Error::InvalidUtf8(detail)),
        },
    }
}

/// Prepares the setup resources for a circuit. Nothing is prepared: the
/// result is a success with an empty buffer, whatever the argument.
pub fn bb_init_srs_from_bytecode(_bytecode_b64_gz: Option<&[u8]>) -> (result: BBResult)
    ensures
        result.ok,
        result.err is None,
        result.data.bytes matches Some(data) && data@.len() == 0,
        result.well_formed(),
{
    ok(Vec::new())
}

} // verus!
