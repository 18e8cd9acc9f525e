//! Wayland protocol objects that the handlers keep and hand back to the
//! caller. The library never looks inside them: it only decides which of
//! them a request goes to.

use vstd::prelude::*;

verus! {

/// `wayland_client::protocol::wl_seat::WlSeat`, an input seat.
#[verifier::external_type_specification]
#[verifier::external_body]
pub struct ExWlSeat(wayland_client::protocol::wl_seat::WlSeat);

/// `wayland_client::protocol::wl_output::WlOutput`, a display output.
#[verifier::external_type_specification]
#[verifier::external_body]
pub struct ExWlOutput(wayland_client::protocol::wl_output::WlOutput);

/// `wayland_client::protocol::wl_surface::WlSurface`, a drawing surface.
#[verifier::external_type_specification]
#[verifier::external_body]
pub struct ExWlSurface(wayland_client::protocol::wl_surface::WlSurface);

/// `wayland_client::protocol::wl_shm::WlShm`, the shared memory factory.
#[verifier::external_type_specification]
#[verifier::external_body]
pub struct ExWlShm(wayland_client::protocol::wl_shm::WlShm);

/// The session lock manager global of `ext-session-lock-v1`.
#[verifier::external_type_specification]
#[verifier::external_body]
pub struct ExExtSessionLockManagerV1(
    wayland_protocols::ext::session_lock::v1::client::ext_session_lock_manager_v1::ExtSessionLockManagerV1,
);

/// A session lock of `ext-session-lock-v1`.
#[verifier::external_type_specification]
#[verifier::external_body]
pub struct ExExtSessionLockV1(
    wayland_protocols::ext::session_lock::v1::client::ext_session_lock_v1::ExtSessionLockV1,
);

/// A lock surface of `ext-session-lock-v1`.
#[verifier::external_type_specification]
#[verifier::external_body]
pub struct ExExtSessionLockSurfaceV1(
    wayland_protocols::ext::session_lock::v1::client::ext_session_lock_surface_v1::ExtSessionLockSurfaceV1,
);

/// A toplevel handle of `wlr-foreign-toplevel-management-unstable-v1`.
#[verifier::external_type_specification]
#[verifier::external_body]
pub struct ExZwlrForeignToplevelHandleV1(
    wayland_protocols_wlr::foreign_toplevel::v1::client::zwlr_foreign_toplevel_handle_v1::ZwlrForeignToplevelHandleV1,
);

/// An output head of `wlr-output-management-unstable-v1`.
#[verifier::external_type_specification]
#[verifier::external_body]
pub struct ExZwlrOutputHeadV1(
    wayland_protocols_wlr::output_management::v1::client::zwlr_output_head_v1::ZwlrOutputHeadV1,
);

/// An output mode of `wlr-output-management-unstable-v1`.
#[verifier::external_type_specification]
#[verifier::external_body]
pub struct ExZwlrOutputModeV1(
    wayland_protocols_wlr::output_management::v1::client::zwlr_output_mode_v1::ZwlrOutputModeV1,
);

/// A capture frame of `wlr-screencopy-unstable-v1`.
#[verifier::external_type_specification]
#[verifier::external_body]
pub struct ExZwlrScreencopyFrameV1(
    wayland_protocols_wlr::screencopy::v1::client::zwlr_screencopy_frame_v1::ZwlrScreencopyFrameV1,
);

} // verus!
