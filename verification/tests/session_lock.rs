use wayland_client::protocol::{wl_output::WlOutput, wl_seat::WlSeat, wl_surface::WlSurface};
use wayland_client::{backend::WeakBackend, Connection, Proxy};
use wayland_protocols::ext::session_lock::v1::client::{
    ext_session_lock_manager_v1::ExtSessionLockManagerV1, ext_session_lock_surface_v1::ExtSessionLockSurfaceV1,
    ext_session_lock_v1::ExtSessionLockV1,
};
use wayland_protocols_async::ext_session_lock_v1::errors::SessionLockhandlerErrorCodes;
use wayland_protocols_async::ext_session_lock_v1::handler::{SessionLockEvent, SessionLockNotice, SessionLockState};

fn backend() -> (tokio::runtime::Runtime, Connection, WeakBackend) {
    let rt = tokio::runtime::Runtime::new().unwrap();
    let stream = {
        let _guard = rt.enter();
        let (a, _b) = tokio::net::UnixStream::pair().unwrap();
        a.into_std().unwrap()
    };
    let conn = Connection::from_socket(stream).unwrap();
    let weak = conn.backend().downgrade();
    (rt, conn, weak)
}

fn state(weak: &WeakBackend) -> SessionLockState {
    SessionLockState::new(
        WlSeat::inert(weak.clone()),
        WlOutput::inert(weak.clone()),
        WlSurface::inert(weak.clone()),
        ExtSessionLockManagerV1::inert(weak.clone()),
    )
}

#[test]
fn lock_needs_manager_output_and_surface() {
    let (_rt, _conn, weak) = backend();
    let mut s = state(&weak);
    assert!(s.lock(None).is_ok());
    s.surface = None;
    let given = WlSurface::inert(weak.clone());
    let e = s.lock(Some(&given)).unwrap_err();
    assert_eq!(e.code, SessionLockhandlerErrorCodes::WLSurfaceIsNotSet);
    assert_eq!(e.message, "wl_surface uninitialized or is not set");
    s.output = None;
    assert_eq!(s.lock(None).unwrap_err().code, SessionLockhandlerErrorCodes::WLOutputIsNotSet);
    s.session_lock_manager = None;
    let e = s.lock(None).unwrap_err();
    assert_eq!(e.code, SessionLockhandlerErrorCodes::ManagerIsNotSet);
    assert_eq!(e.message, "session lock manager uninitialized or is not set");
}

#[test]
fn unlock_without_lock_fails() {
    let (_rt, _conn, weak) = backend();
    let mut s = state(&weak);
    let e = s.unlock().unwrap_err();
    assert_eq!(e.code, SessionLockhandlerErrorCodes::SessionLockIsNotSet);
    assert_eq!(e.message, "session_lock uninitialized or is not set, did you lock the session?");
}

#[test]
fn unlock_forgets_lock_surface_and_serial() {
    let (_rt, _conn, weak) = backend();
    let mut s = state(&weak);
    s.set_session_lock(ExtSessionLockV1::inert(weak.clone()));
    let ev = s.on_lock_surface_configure(ExtSessionLockSurfaceV1::inert(weak.clone()), 7, 1920, 1080);
    assert!(matches!(ev, SessionLockEvent::Configure { serial: 7, width: 1920, height: 1080 }));
    assert!(s.unlock().is_ok());
    assert!(s.session_lock.is_none());
    assert!(s.session_lock_surface.is_none());
    assert_eq!(s.session_lock_configure_serial, None);
    assert_eq!(s.unlock().unwrap_err().code, SessionLockhandlerErrorCodes::SessionLockIsNotSet);
    assert_eq!(s.ack_configure().unwrap_err().code, SessionLockhandlerErrorCodes::SessionLockSurfaceIsNotSet);
    assert!(s.lock(None).is_ok());
}

#[test]
fn configure_then_acknowledge_gives_serial() {
    let (_rt, _conn, weak) = backend();
    let mut s = state(&weak);
    let e = s.ack_configure().unwrap_err();
    assert_eq!(e.code, SessionLockhandlerErrorCodes::SessionLockSurfaceIsNotSet);
    assert_eq!(e.message, "session_lock_surface uninitialized or is not set, did you lock the session?");
    s.on_lock_surface_configure(ExtSessionLockSurfaceV1::inert(weak.clone()), 42, 10, 20);
    let (_surface, serial) = s.ack_configure().unwrap();
    assert_eq!(serial, 42);
    s.session_lock_configure_serial = None;
    let e = s.ack_configure().unwrap_err();
    assert_eq!(e.code, SessionLockhandlerErrorCodes::SessionLockSurfaceSerialIsNotSet);
    assert_eq!(e.message, "session_lock_configure_serial uninitialized or is not set");
}

#[test]
fn finished_lock_is_forgotten() {
    let (_rt, _conn, weak) = backend();
    let mut s = state(&weak);
    s.set_session_lock(ExtSessionLockV1::inert(weak.clone()));
    s.on_lock_surface_configure(ExtSessionLockSurfaceV1::inert(weak.clone()), 1, 1, 1);
    assert_eq!(s.on_session_lock_event(SessionLockNotice::Locked), SessionLockEvent::Locked);
    assert!(s.session_lock.is_some());
    assert_eq!(s.on_session_lock_event(SessionLockNotice::Finished), SessionLockEvent::Finished);
    assert!(s.session_lock.is_none());
    assert!(s.session_lock_surface.is_none());
    assert_eq!(s.session_lock_configure_serial, None);
}
