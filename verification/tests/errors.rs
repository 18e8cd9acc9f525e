use wayland_protocols_async::ext_session_lock_v1::errors::{SessionLockhandlerError, SessionLockhandlerErrorCodes};
use wayland_protocols_async::zwlr_foreign_toplevel_management_v1::errors::{ToplevelHandlerError, ToplevelHandlerErrorCodes};
use wayland_protocols_async::zwlr_output_management_v1::errors::{OutputManagementHandlerError, OutputManagementHandlerErrorCodes};
use wayland_protocols_async::zwlr_screencopy_v1::errors::{ScreencopyHandlerError, ScreencopyHandlerErrorCodes};

#[test]
fn session_lock_error_keeps_code_and_message() {
    let e = SessionLockhandlerError::new(SessionLockhandlerErrorCodes::ManagerIsNotSet, String::from("no manager"));
    assert_eq!(e.code, SessionLockhandlerErrorCodes::ManagerIsNotSet);
    assert_eq!(e.message, "no manager");
    assert_eq!(e.display(), "SessionLockhandlerErrorCodes:(code: ManagerIsNotSet, message: no manager)");
}

#[test]
fn session_lock_code_texts() {
    assert_eq!(SessionLockhandlerErrorCodes::default(), SessionLockhandlerErrorCodes::UnknownError);
    assert_eq!(SessionLockhandlerErrorCodes::UnknownError.display(), "SessionLockhandlerErrorCodes: UnknownError");
    assert_eq!(SessionLockhandlerErrorCodes::WLOutputIsNotSet.display(), "SessionLockhandlerErrorCodes: NoWLOutputFound");
    assert_eq!(SessionLockhandlerErrorCodes::WLOutputIsNotSet.name(), "WLOutputIsNotSet");
    assert_eq!(
        SessionLockhandlerErrorCodes::SessionLockSurfaceSerialIsNotSet.display(),
        "SessionLockhandlerErrorCodes: SessionLockSurfaceSerialIsNotSet"
    );
    assert_eq!(format!("{:?}", SessionLockhandlerErrorCodes::SessionLockIsNotSet), SessionLockhandlerErrorCodes::SessionLockIsNotSet.name());
}

#[test]
fn toplevel_error_texts() {
    let e = ToplevelHandlerError::new(ToplevelHandlerErrorCodes::ToplevelNotFound, String::from("toplevel not found"));
    assert_eq!(e.display(), "ToplevelHandlerErrorCodes:(code: ToplevelNotFound, message: toplevel not found)");
    assert_eq!(ToplevelHandlerErrorCodes::default(), ToplevelHandlerErrorCodes::UnknownError);
    assert_eq!(ToplevelHandlerErrorCodes::ToplevelNotFound.display(), "ToplevelHandlerErrorCodes: ToplevelNotFound");
}

#[test]
fn output_management_error_texts() {
    let e = OutputManagementHandlerError::new(OutputManagementHandlerErrorCodes::RemoveModeError, String::new());
    assert_eq!(e.display(), "OutputManagementHandlerErrorCodes:(code: RemoveModeError, message: )");
    assert_eq!(OutputManagementHandlerErrorCodes::default(), OutputManagementHandlerErrorCodes::UnknownError);
    assert_eq!(
        OutputManagementHandlerErrorCodes::NoSerialManagerNotReady.display(),
        "OutputManagementHandlerErrorCodes: NoSerialManagerNotReady"
    );
    assert_eq!(OutputManagementHandlerErrorCodes::ModeNotFoundError.name(), "ModeNotFoundError");
}

#[test]
fn screencopy_error_texts() {
    let e = ScreencopyHandlerError::new(ScreencopyHandlerErrorCodes::WlShmIsNotSet, String::from("x"));
    assert_eq!(e.display(), "ScreencopyHandlerErrorCodes:(code: WlShmIsNotSet, message: x)");
    assert_eq!(ScreencopyHandlerErrorCodes::default(), ScreencopyHandlerErrorCodes::UnknownError);
    assert_eq!(
        ScreencopyHandlerErrorCodes::SharedMemFdCreateFailed.display(),
        "ScreencopyHandlerErrorCodes: SharedMemFdCreateFailed"
    );
}
