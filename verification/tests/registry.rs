use rstop::registry::{
    on_create_failure, on_delete_failure, on_open_failure, FailureKind, FailureResponse, Notice,
    PROGRAM_FOLDER, PROGRAM_KEY, PROGRAM_PATH,
};

#[test]
fn registry_location() {
    assert_eq!(PROGRAM_PATH, "Software");
    assert_eq!(PROGRAM_FOLDER, "RsTop");
    assert_eq!(PROGRAM_KEY, "LastProgram");
}

#[test]
fn create_failures() {
    assert_eq!(
        on_create_failure(FailureKind::PermissionDenied),
        FailureResponse::Exit { notice: Notice::AccessDenied, code: 1 }
    );
    assert_eq!(
        on_create_failure(FailureKind::OutOfMemory),
        FailureResponse::Exit { notice: Notice::OutOfMemory, code: 135 }
    );
    assert_eq!(on_create_failure(FailureKind::NotFound), FailureResponse::Abort);
    assert_eq!(on_create_failure(FailureKind::Other), FailureResponse::Abort);
}

#[test]
fn open_failures() {
    assert_eq!(
        on_open_failure(FailureKind::NotFound),
        FailureResponse::Exit { notice: Notice::KeyNotFound, code: 1 }
    );
    assert_eq!(
        on_open_failure(FailureKind::PermissionDenied),
        FailureResponse::Exit { notice: Notice::AccessDenied, code: 1 }
    );
    assert_eq!(on_open_failure(FailureKind::OutOfMemory), FailureResponse::Abort);
    assert_eq!(on_open_failure(FailureKind::Other), FailureResponse::Abort);
}

#[test]
fn delete_failures() {
    assert_eq!(
        on_delete_failure(FailureKind::PermissionDenied),
        FailureResponse::Proceed { notice: Notice::DeleteDenied }
    );
    assert_eq!(on_delete_failure(FailureKind::NotFound), FailureResponse::Abort);
    assert_eq!(on_delete_failure(FailureKind::OutOfMemory), FailureResponse::Abort);
}

#[test]
fn notice_texts() {
    assert_eq!(Notice::AccessDenied.prefix(), "Access denied - ");
    assert_eq!(Notice::OutOfMemory.prefix(), "OOM - ");
    assert_eq!(Notice::KeyNotFound.prefix(), "Key not found - ");
    assert_eq!(Notice::DeleteDenied.prefix(), "Access denied when trying remove RegKey - ");
}
