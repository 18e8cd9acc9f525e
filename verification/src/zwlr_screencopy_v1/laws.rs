//! What holds of the screencopy handler across events and requests.

use vstd::prelude::*;

use super::errors::ScreencopyHandlerErrorCodes;
use super::handler::ScreencopyState;

verus! {

/// No copy can be made before a capture has made a frame (given the shared
/// memory factory is bound), nor before the frame has asked for a buffer.
pub proof fn copy_needs_capture_and_buffer(s: ScreencopyState)
    requires
        s.shm is Some,
    ensures
        s.screencopy_frame is None ==> s.copy_failure() == Some(ScreencopyHandlerErrorCodes::ScreencopyFrameIsNotSet),
        s.screencopy_frame is Some && s.screencopy_frame_buffer is None ==> s.copy_failure() == Some(
            ScreencopyHandlerErrorCodes::ScreencopyBufferIsNotSet,
        ),
{
}

/// A copy succeeds exactly when the factory and the frame are there and the
/// frame asked for a buffer in a known format that the factory announced.
pub proof fn copy_succeeds_with_announced_format(s: ScreencopyState)
    ensures
        s.copy_failure() is None <==> {
            &&& s.shm is Some
            &&& s.screencopy_frame is Some
            &&& s.screencopy_frame_buffer matches Some(b) && b.format matches Ok(f)
                && s.supported_buffer_formats@.contains(f)
        },
{
}

/// A format once announced stays supported: later announcements only add.
pub proof fn announced_formats_accumulate(formats: Set<u32>, format: Result<u32, u32>, f: u32)
    requires
        formats.contains(f),
    ensures
        (match format {
            Ok(g) => formats.insert(g),
            Err(_) => formats,
        }).contains(f),
{
}

} // verus!
