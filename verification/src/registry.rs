use vstd::prelude::*;

verus! {

/// The registry folder, under the current user's hive, that holds the
/// program's folder.
pub const PROGRAM_PATH: &'static str = "Software";

/// The program's own registry folder.
pub const PROGRAM_FOLDER: &'static str = "RsTop";

/// The value, in the program's folder, that remembers the selected program.
pub const PROGRAM_KEY: &'static str = "LastProgram";

/// The kinds of failure of a registry access that the program tells apart.
#[derive(Clone, Copy, Debug, PartialEq, Eq, Structural)]
pub enum FailureKind {
    NotFound,
    PermissionDenied,
    OutOfMemory,
    Other,
}

/// The message that starts the report of a failure.
#[derive(Clone, Copy, Debug, PartialEq, Eq, Structural)]
pub enum Notice {
    /// "Access denied - "
    AccessDenied,
    /// "OOM - "
    OutOfMemory,
    /// "Key not found - "
    KeyNotFound,
    /// "Access denied when trying remove RegKey - "
    DeleteDenied,
}

impl Notice {
    /// The text the report starts with; the failure's own description follows.
    pub fn prefix(&self) -> (text: &'static str)
        ensures
            *self == Notice::AccessDenied ==> text@ == "Access denied - "@,
            *self == Notice::OutOfMemory ==> text@ == "OOM - "@,
            *self == Notice::KeyNotFound ==> text@ == "Key not found - "@,
            *self == Notice::DeleteDenied ==> text@ == "Access denied when trying remove RegKey - "@,
    {
        match self {
            Notice::AccessDenied => "Access denied - ",
            Notice::OutOfMemory => "OOM - ",
            Notice::KeyNotFound => "Key not found - ",
            Notice::DeleteDenied => "Access denied when trying remove RegKey - ",
        }
    }
}

/// How the program reacts to a failed registry access.
#[derive(Clone, Copy, Debug, PartialEq, Eq, Structural)]
pub enum FailureResponse {
    /// Print the notice and the failure, then end the process with `code`.
    Exit { notice: Notice, code: i32 },
    /// Print the notice and the failure, then carry on as if it succeeded.
    Proceed { notice: Notice },
    /// An unexpected failure: abort with a panic.
    Abort,
}

/// The reaction to a failure of creating (or opening for writing) the
/// program's folder.
pub open spec fn create_failure_response(kind: FailureKind) -> FailureResponse {
    match kind {
        FailureKind::PermissionDenied => FailureResponse::Exit { notice: Notice::AccessDenied, code: 1 },
        FailureKind::OutOfMemory => FailureResponse::Exit { notice: Notice::OutOfMemory, code: 135 },
        _ => FailureResponse::Abort,
    }
}

/// The reaction to a failure of opening the program's folder for reading.
pub open spec fn open_failure_response(kind: FailureKind) -> FailureResponse {
    match kind {
        FailureKind::NotFound => FailureResponse::Exit { notice: Notice::KeyNotFound, code: 1 },
        FailureKind::PermissionDenied => FailureResponse::Exit { notice: Notice::AccessDenied, code: 1 },
        _ => FailureResponse::Abort,
    }
}

/// The reaction to a failure of deleting the program's folder.
pub open spec fn delete_failure_response(kind: FailureKind) -> FailureResponse {
    match kind {
        FailureKind::PermissionDenied => FailureResponse::Proceed { notice: Notice::DeleteDenied },
        _ => FailureResponse::Abort,
    }
}

/// How to react when creating the program's folder failed: a denied access
/// ends the program with code 1, a lack of memory with code 135; anything
/// else is unexpected.
pub fn on_create_failure(kind: FailureKind) -> (response: FailureResponse)
    ensures
        response == create_failure_response(kind),
{
    match kind {
        FailureKind::PermissionDenied => FailureResponse::Exit { notice: Notice::AccessDenied, code: 1 },
        FailureKind::OutOfMemory => FailureResponse::Exit { notice: Notice::OutOfMemory, code: 135 },
        _ => FailureResponse::Abort,
    }
}

/// How to react when opening the program's folder for reading failed: a
/// missing folder or a denied access ends the program with code 1; anything
/// else is unexpected.
pub fn on_open_failure(kind: FailureKind) -> (response: FailureResponse)
    ensures
        response == open_failure_response(kind),
{
    match kind {
        FailureKind::NotFound => FailureResponse::Exit { notice: Notice::KeyNotFound, code: 1 },
        FailureKind::PermissionDenied => FailureResponse::Exit { notice: Notice::AccessDenied, code: 1 },
        _ => FailureResponse::Abort,
    }
}

/// How to react when deleting the program's folder failed: a denied access is
/// reported and otherwise ignored, so that the deletion counts as done;
/// anything else is unexpected.
pub fn on_delete_failure(kind: FailureKind) -> (response: FailureResponse)
    ensures
        response == delete_failure_response(kind),
{
    match kind {
        FailureKind::PermissionDenied => FailureResponse::Proceed { notice: Notice::DeleteDenied },
        _ => FailureResponse::Abort,
    }
}

/// Deleting the stored selection never ends the program: it either carries
/// on or meets an unexpected failure.
pub proof fn lemma_delete_never_exits(kind: FailureKind)
    ensures
        !(delete_failure_response(kind) is Exit),
{
}

} // verus!
