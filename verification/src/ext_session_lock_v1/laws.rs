//! What holds of the session lock handler across requests and events.

use vstd::prelude::*;
use wayland_client::protocol::{wl_output::WlOutput, wl_surface::WlSurface};
use wayland_protocols::ext::session_lock::v1::client::{
    ext_session_lock_manager_v1::ExtSessionLockManagerV1, ext_session_lock_surface_v1::ExtSessionLockSurfaceV1,
    ext_session_lock_v1::ExtSessionLockV1,
};

use super::errors::SessionLockhandlerErrorCodes;
use super::handler::SessionLockState;

verus! {

/// Once a lock surface is configured, acknowledging succeeds and goes to that
/// surface with that configure's serial.
pub proof fn configure_then_acknowledge(s: SessionLockState, surface: ExtSessionLockSurfaceV1, serial: u32)
    ensures
        s.configured(surface, serial).ack_outcome() == Ok::<
            (ExtSessionLockSurfaceV1, u32),
            SessionLockhandlerErrorCodes,
        >((surface, serial)),
{
}

/// After an unlock, or after the compositor finished the lock, another unlock
/// fails with `SessionLockIsNotSet` and changes nothing, and acknowledging
/// fails with `SessionLockSurfaceIsNotSet`.
pub proof fn unlocked_state_holds_no_lock(s: SessionLockState)
    ensures
        s.after_unlock().unlock_outcome() == Err::<ExtSessionLockV1, SessionLockhandlerErrorCodes>(
            SessionLockhandlerErrorCodes::SessionLockIsNotSet,
        ),
        s.after_unlock().after_unlock() == s.after_unlock(),
        s.unlocked().ack_outcome() == Err::<(ExtSessionLockSurfaceV1, u32), SessionLockhandlerErrorCodes>(
            SessionLockhandlerErrorCodes::SessionLockSurfaceIsNotSet,
        ),
{
}

/// What a lock request comes to depends on the bound globals alone: recording
/// a lock, unlocking and configuring do not change it, so the session can be
/// locked again after an unlock.
pub proof fn lock_depends_on_globals_only(
    s: SessionLockState,
    lock: ExtSessionLockV1,
    surface: ExtSessionLockSurfaceV1,
    serial: u32,
    wl_surface: Option<WlSurface>,
)
    ensures
        s.with_lock(lock).lock_outcome(wl_surface) == s.lock_outcome(wl_surface),
        s.after_unlock().lock_outcome(wl_surface) == s.lock_outcome(wl_surface),
        s.configured(surface, serial).lock_outcome(wl_surface) == s.lock_outcome(wl_surface),
{
}

/// An unlock after a lock is recorded hands back that lock, and leaves the
/// state that an unlock of the state before would have left.
pub proof fn unlock_undoes_lock(s: SessionLockState, lock: ExtSessionLockV1)
    ensures
        s.with_lock(lock).unlock_outcome() == Ok::<ExtSessionLockV1, SessionLockhandlerErrorCodes>(lock),
        s.with_lock(lock).after_unlock() == s.unlocked(),
{
}

/// A lock request needs the manager, the output and a surface of the
/// handler's own, checked in that order; with all three it locks with the
/// manager on the output, showing the given surface if there is one and the
/// handler's own otherwise.
pub proof fn lock_needs_manager_output_and_surface(s: SessionLockState, wl_surface: Option<WlSurface>)
    ensures
        s.session_lock_manager is None ==> s.lock_outcome(wl_surface) == Err::<
            (ExtSessionLockManagerV1, WlSurface, WlOutput),
            SessionLockhandlerErrorCodes,
        >(SessionLockhandlerErrorCodes::ManagerIsNotSet),
        s.session_lock_manager is Some && s.output is None ==> s.lock_outcome(wl_surface) == Err::<
            (ExtSessionLockManagerV1, WlSurface, WlOutput),
            SessionLockhandlerErrorCodes,
        >(SessionLockhandlerErrorCodes::WLOutputIsNotSet),
        s.session_lock_manager is Some && s.output is Some && s.surface is None ==> s.lock_outcome(wl_surface)
            == Err::<(ExtSessionLockManagerV1, WlSurface, WlOutput), SessionLockhandlerErrorCodes>(
            SessionLockhandlerErrorCodes::WLSurfaceIsNotSet,
        ),
        s.session_lock_manager is Some && s.output is Some && s.surface is Some ==> s.lock_outcome(wl_surface)
            == Ok::<(ExtSessionLockManagerV1, WlSurface, WlOutput), SessionLockhandlerErrorCodes>(
            (
                s.session_lock_manager->0,
                if wl_surface is Some {
                    wl_surface->0
                } else {
                    s.surface->0
                },
                s.output->0,
            ),
        ),
{
}

/// An acknowledgement needs the lock surface and then its serial; with both
/// it goes to that surface with that serial.
pub proof fn acknowledge_needs_surface_and_serial(s: SessionLockState)
    ensures
        s.session_lock_surface is None ==> s.ack_outcome() == Err::<(ExtSessionLockSurfaceV1, u32), SessionLockhandlerErrorCodes>(
            SessionLockhandlerErrorCodes::SessionLockSurfaceIsNotSet,
        ),
        s.session_lock_surface is Some && s.session_lock_configure_serial is None ==> s.ack_outcome() == Err::<
            (ExtSessionLockSurfaceV1, u32),
            SessionLockhandlerErrorCodes,
        >(SessionLockhandlerErrorCodes::SessionLockSurfaceSerialIsNotSet),
        s.session_lock_surface is Some && s.session_lock_configure_serial is Some ==> s.ack_outcome() == Ok::<
            (ExtSessionLockSurfaceV1, u32),
            SessionLockhandlerErrorCodes,
        >((s.session_lock_surface->0, s.session_lock_configure_serial->0)),
{
}

/// An unlock hands back the recorded lock, or fails with
/// `SessionLockIsNotSet` without one; it forgets the lock, its surface and
/// its serial, and keeps the seat, output, surface and manager.
pub proof fn unlock_hands_back_the_lock(s: SessionLockState)
    ensures
        s.session_lock is Some ==> s.unlock_outcome() == Ok::<ExtSessionLockV1, SessionLockhandlerErrorCodes>(
            s.session_lock->0,
        ),
        s.session_lock is None ==> s.unlock_outcome() == Err::<ExtSessionLockV1, SessionLockhandlerErrorCodes>(
            SessionLockhandlerErrorCodes::SessionLockIsNotSet,
        ),
        s.after_unlock().session_lock is None,
        s.session_lock is Some ==> s.after_unlock().session_lock_surface is None
            && s.after_unlock().session_lock_configure_serial is None,
        s.after_unlock().seat == s.seat,
        s.after_unlock().output == s.output,
        s.after_unlock().surface == s.surface,
        s.after_unlock().session_lock_manager == s.session_lock_manager,
{
}

} // verus!
