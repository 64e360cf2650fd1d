//! Which backend serves the process, where its executable lies, and the life
//! of the one handle to it.

use vstd::prelude::*;
use vstd::string::StringExecFns;

use crate::error::Error;

verus! {

/// The two ways to reach the proving backend.
#[derive(Clone, Copy, Debug, PartialEq, Eq, Structural)]
pub enum BackendKind {
    /// Linked into the process.
    Native,
    /// A separate executable, spoken to through pipes.
    Pipe,
}

/// How many requests the pipe backend may have in flight.
pub const PIPE_REQUEST_DEPTH: usize = 16;

/// The lower-case form of a text.
pub uninterp spec fn lowercase_of(text: Seq<char>) -> Seq<char>;

/// Calls `str::to_lowercase`, whose result depends on the text alone.
#[verifier::external_body]
fn to_lowercase(text: &str) -> (lowered: String)
    ensures
        lowered@ == lowercase_of(text@),
{
    text.to_lowercase()
}

/// The backend for a configured kind in lower case: native where that is
/// asked for and built in, the executable otherwise.
pub open spec fn kind_for(lowered: Seq<char>, native_available: bool) -> BackendKind {
    if lowered == "native"@ && native_available {
        BackendKind::Native
    } else {
        BackendKind::Pipe
    }
}

/// Chooses the backend for a configured kind that is already in lower case.
pub fn backend_kind_for(lowered: &String, native_available: bool) -> (kind: BackendKind)
    ensures
        kind == kind_for(lowered@, native_available),
{
    let native = String::from_str("native");
    if *lowered == native && native_available {
        BackendKind::Native
    } else {
        BackendKind::Pipe
    }
}

/// Chooses the backend from the configured kind, read without regard to
/// case. Where none is configured, native is asked for.
pub fn select_backend(configured: Option<&str>, native_available: bool) -> (kind: BackendKind)
    ensures
        kind == match configured {
            Some(text) => kind_for(lowercase_of(text@), native_available),
            None => kind_for("native"@, native_available),
        },
{
    match configured {
        Some(text) => {
            let lowered = to_lowercase(text);
            backend_kind_for(&lowered, native_available)
        },
        None => {
            let native = String::from_str("native");
            backend_kind_for(&native, native_available)
        },
    }
}

/// What was found out about the places where the executable may lie.
#[derive(Debug)]
pub struct BinaryProbe {
    /// The path that the configuration names, if it names one.
    pub configured: Option<String>,
    /// Whether `bb` is found on the execution search path.
    pub on_search_path: bool,
    /// The home directory, empty where none is known.
    pub home: String,
    /// Whether a file lies at `installer_path` of the home directory.
    pub installer_found: bool,
    /// Whether a file lies at `legacy_path` of the home directory.
    pub legacy_found: bool,
}

/// Where the current installer puts the executable.
pub open spec fn spec_installer_path(home: Seq<char>) -> Seq<char> {
    home + "/.aztec/bin/bb"@
}

/// Where the former installer put the executable.
pub open spec fn spec_legacy_path(home: Seq<char>) -> Seq<char> {
    home + "/.bb/bb"@
}

/// The installer's place under a home directory.
pub fn installer_path(home: &str) -> (path: String)
    ensures
        path@ == spec_installer_path(home@),
{
    String::from_str(home).concat("/.aztec/bin/bb")
}

/// The former installer's place under a home directory.
pub fn legacy_path(home: &str) -> (path: String)
    ensures
        path@ == spec_legacy_path(home@),
{
    String::from_str(home).concat("/.bb/bb")
}

/// The path of the executable: the configured one, else the bare name where
/// the search path has it, else the installer's place, else the former
/// installer's place, else the bare name as a last resort.
pub open spec fn binary_path(probe: BinaryProbe) -> Seq<char> {
    if let Some(path) = probe.configured {
        path@
    } else if probe.on_search_path {
        "bb"@
    } else if probe.installer_found {
        spec_installer_path(probe.home@)
    } else if probe.legacy_found {
        spec_legacy_path(probe.home@)
    } else {
        "bb"@
    }
}

/// Resolves the path of the backend executable from what was probed.
pub fn find_bb_binary(probe: BinaryProbe) -> (path: String)
    ensures
        path@ == binary_path(probe),
{
    if let Some(path) = probe.configured {
        path
    } else if probe.on_search_path {
        String::from_str("bb")
    } else if probe.installer_found {
        installer_path(probe.home.as_str())
    } else if probe.legacy_found {
        legacy_path(probe.home.as_str())
    } else {
        String::from_str("bb")
    }
}

/// The one backend handle of the process: not yet created, created with its
/// kind, or failed to be created, with the reason.
#[derive(Debug)]
pub enum BackendSlot {
    Empty,
    Ready(BackendKind),
    Failed(String),
}

/// What the holder of the handle has to do next.
#[derive(Clone, Copy, Debug, PartialEq, Eq, Structural)]
pub enum Access {
    /// Create the backend, then record how that went.
    Create,
    /// Use the backend of this kind.
    Use(BackendKind),
}

/// The handle after an attempt to create the backend was recorded: the first
/// attempt decides, and what it decided stays.
pub open spec fn settled(slot: BackendSlot, kind: BackendKind, created: Result<(), String>) -> BackendSlot {
    match slot {
        BackendSlot::Empty => match created {
            Ok(_) => BackendSlot::Ready(kind),
            Err(reason) => BackendSlot::Failed(reason),
        },
        _ => slot,
    }
}

impl BackendSlot {
    /// The handle before first use.
    pub fn new() -> (slot: BackendSlot)
        ensures
            slot is Empty,
    {
        BackendSlot::Empty
    }

    /// Records how creating the backend of kind `kind` went.
    pub fn settle(&mut self, kind: BackendKind, created: Result<(), String>)
        ensures
            *final(self) == settled(*old(self), kind, created),
    {
        if let BackendSlot::Empty = self {
            match created {
                Ok(_) => {
                    *self = BackendSlot::Ready(kind);
                },
                Err(reason) => {
                    *self = BackendSlot::Failed(reason);
                },
            }
        }
    }
}

/// Once an attempt was recorded, no later one changes the handle: its kind is
/// fixed, and a failure is not tried again.
pub proof fn lemma_first_attempt_decides(
    slot: BackendSlot,
    first_kind: BackendKind,
    first: Result<(), String>,
    later_kind: BackendKind,
    later: Result<(), String>,
)
    ensures
        !(settled(slot, first_kind, first) is Empty),
        settled(settled(slot, first_kind, first), later_kind, later) == settled(
            slot,
            first_kind,
            first,
        ),
{
}

/// Grants access to the backend. `locked` is the handle, where exclusive
/// access to it was had, or the reason why it was not.
pub fn get_api(locked: Result<&BackendSlot, String>) -> (access: Result<Access, Error>)
    ensures
        match locked {
            Err(reason) => access matches Err(Error::LockFailed(text)) && text@ == reason@,
            Ok(slot) => match *slot {
                BackendSlot::Empty => access matches Ok(Access::Create),
                BackendSlot::Ready(kind) => access matches Ok(Access::Use(k)) && k == kind,
                BackendSlot::Failed(reason) => access matches Err(Error::Initialization(text))
                    && text@ == reason@,
            },
        },
{
    match locked {
        Err(reason) => Err(Error::LockFailed(reason)),
        Ok(slot) => match slot {
            BackendSlot::Empty => Ok(Access::Create),
            BackendSlot::Ready(kind) => Ok(Access::Use(*kind)),
            BackendSlot::Failed(reason) => Err(Error::Initialization(reason.clone())),
        },
    }
}

} // verus!
