use std::collections::HashSet;
use vstd::prelude::*;
use vstd::string::StringExecFns;
use wayland_client::protocol::{wl_output::WlOutput, wl_shm::WlShm};
use wayland_protocols_wlr::screencopy::v1::client::zwlr_screencopy_frame_v1::ZwlrScreencopyFrameV1;

use super::errors::{ScreencopyHandlerError, ScreencopyHandlerErrorCodes};

verus! {

/// What the screencopy handler tells its subscribers. Buffer formats and
/// frame flags come as the known protocol code, or as the unknown code the
/// compositor sent.
#[derive(Debug, Clone, Copy)]
#[allow(inconsistent_fields)]
pub enum ScreencopyEvent {
    Buffer { format: Result<u32, u32>, width: u32, height: u32, stride: u32 },
    Flags { y_invert: Result<u32, u32> },
    Ready { tv_sec_hi: u32, tv_sec_lo: u32, tv_nsec: u32 },
    Failed,
    Damage { x: u32, y: u32, width: u32, height: u32 },
    LinuxDmabuf { format: u32, width: u32, height: u32 },
    BufferDone,
}

/// The shared memory buffer that the compositor asks for a frame.
#[derive(Debug, Clone, Copy)]
pub struct ScreencopyFrameBuffer {
    pub format: Result<u32, u32>,
    pub width: u32,
    pub height: u32,
    pub stride: u32,
}

/// The output to capture, the shared memory factory and the formats it
/// supports, the frame being captured and the buffer it asks for.
pub struct ScreencopyState {
    pub output: Option<WlOutput>,
    pub shm: Option<WlShm>,
    pub screencopy_frame: Option<ZwlrScreencopyFrameV1>,
    pub screencopy_frame_buffer: Option<ScreencopyFrameBuffer>,
    pub supported_buffer_formats: HashSet<u32>,
}

/// The sentence that comes with each failure of a screencopy request.
pub open spec fn failure_message(code: ScreencopyHandlerErrorCodes) -> Seq<char> {
    match code {
        ScreencopyHandlerErrorCodes::WLOutputIsNotSet => "wl_output uninitialized or is not set"@,
        ScreencopyHandlerErrorCodes::WlShmIsNotSet => "wl_shm uninitialized or is not set"@,
        ScreencopyHandlerErrorCodes::ScreencopyFrameIsNotSet => "screencopy_frame uninitialized or is not set, did you capture output?"@,
        ScreencopyHandlerErrorCodes::ScreencopyBufferIsNotSet => "screencopy_frame_buffer uninitialized or is not set, did you wait for BufferDone?"@,
        ScreencopyHandlerErrorCodes::ScreencopyFrameBufferFormatError => "screencopy_frame_buffer format is unavailable, invalid format from wayland server"@,
        ScreencopyHandlerErrorCodes::ScreencopyFrameBufferFormatUnsupported => "screencopy_frame_buffer format is not supported by the wl_shm formats"@,
        ScreencopyHandlerErrorCodes::SharedMemFdCreateFailed => "failed creating a shared mem fd"@,
        ScreencopyHandlerErrorCodes::UnknownError => Seq::empty(),
    }
}

/// The error of the given code, with its sentence.
pub fn failure(code: ScreencopyHandlerErrorCodes) -> (e: ScreencopyHandlerError)
    ensures
        e.code == code,
        e.message@ == failure_message(code),
{
    let message = match code {
        ScreencopyHandlerErrorCodes::WLOutputIsNotSet => String::from_str("wl_output uninitialized or is not set"),
        ScreencopyHandlerErrorCodes::WlShmIsNotSet => String::from_str("wl_shm uninitialized or is not set"),
        ScreencopyHandlerErrorCodes::ScreencopyFrameIsNotSet => String::from_str("screencopy_frame uninitialized or is not set, did you capture output?"),
        ScreencopyHandlerErrorCodes::ScreencopyBufferIsNotSet => String::from_str("screencopy_frame_buffer uninitialized or is not set, did you wait for BufferDone?"),
        ScreencopyHandlerErrorCodes::ScreencopyFrameBufferFormatError => String::from_str("screencopy_frame_buffer format is unavailable, invalid format from wayland server"),
        ScreencopyHandlerErrorCodes::ScreencopyFrameBufferFormatUnsupported => String::from_str("screencopy_frame_buffer format is not supported by the wl_shm formats"),
        ScreencopyHandlerErrorCodes::SharedMemFdCreateFailed => String::from_str("failed creating a shared mem fd"),
        ScreencopyHandlerErrorCodes::UnknownError => String::new(),
    };
    ScreencopyHandlerError::new(code, message)
}

/// A failure with the given code and its sentence.
pub open spec fn is_failure(e: ScreencopyHandlerError, code: ScreencopyHandlerErrorCodes) -> bool {
    e.code == code && e.message@ == failure_message(code)
}

/// A frame copy to make: a shared memory pool of `size_bytes` bytes (the
/// stride times the height) made with the factory, a buffer of the frame's
/// size in it with the frame's format, copied into by the frame.
#[derive(Debug)]
pub struct CopyRequest<'a> {
    pub shm: &'a WlShm,
    pub frame: &'a ZwlrScreencopyFrameV1,
    pub format: u32,
    pub size_bytes: u32,
    pub pool_size: i32,
    pub width: u32,
    pub height: u32,
    pub stride: u32,
    pub buffer_width: i32,
    pub buffer_height: i32,
    pub buffer_stride: i32,
}

/// A region of an output, in the output's logical coordinates.
#[derive(Debug, Clone, Copy, PartialEq, Eq, Structural)]
pub struct CaptureRegion {
    pub x: i32,
    pub y: i32,
    pub width: i32,
    pub height: i32,
}

impl ScreencopyState {
    /// A state with the given output and factory, no frame and no format.
    pub fn new(output: Option<WlOutput>, shm: Option<WlShm>) -> (res: Self)
        ensures
            res.output == output,
            res.shm == shm,
            res.screencopy_frame is None,
            res.screencopy_frame_buffer is None,
            res.supported_buffer_formats@ == Set::<u32>::empty(),
    {
        ScreencopyState {
            output,
            shm,
            screencopy_frame: None,
            screencopy_frame_buffer: None,
            supported_buffer_formats: HashSet::new(),
        }
    }

    /// The shared memory factory announced a format: a known one is supported.
    pub fn on_shm_format(&mut self, format: Result<u32, u32>)
        ensures
            final(self).supported_buffer_formats@ == match format {
                Ok(f) => old(self).supported_buffer_formats@.insert(f),
                Err(_) => old(self).supported_buffer_formats@,
            },
            final(self).output == old(self).output,
            final(self).shm == old(self).shm,
            final(self).screencopy_frame == old(self).screencopy_frame,
            final(self).screencopy_frame_buffer == old(self).screencopy_frame_buffer,
    {
        broadcast use vstd::std_specs::hash::group_hash_axioms;

        if let Ok(f) = format {
            self.supported_buffer_formats.insert(f);
        }
    }

    /// An event on the frame being captured. The buffer it asks for is
    /// remembered; every event is passed on unchanged.
    pub fn on_frame_event(&mut self, event: ScreencopyEvent) -> (res: ScreencopyEvent)
        ensures
            res == event,
            final(self).screencopy_frame_buffer == match event {
                ScreencopyEvent::Buffer { format, width, height, stride } => Some(
                    ScreencopyFrameBuffer { format, width, height, stride },
                ),
                _ => old(self).screencopy_frame_buffer,
            },
            final(self).output == old(self).output,
            final(self).shm == old(self).shm,
            final(self).screencopy_frame == old(self).screencopy_frame,
            final(self).supported_buffer_formats@ == old(self).supported_buffer_formats@,
    {
        if let ScreencopyEvent::Buffer { format, width, height, stride } = event {
            self.screencopy_frame_buffer = Some(ScreencopyFrameBuffer { format, width, height, stride });
        }
        event
    }

    /// Decides a capture of the whole output: whether to draw the cursor (no
    /// choice means no) and the output to capture. The caller makes the frame
    /// and hands it to `set_screencopy_frame`.
    pub fn capture_output<'a>(&'a self, overlay_cursor: Option<i32>) -> (res: Result<(i32, &'a WlOutput), ScreencopyHandlerError>)
        ensures
            res is Err <==> self.output is None,
            res matches Err(e) ==> is_failure(e, ScreencopyHandlerErrorCodes::WLOutputIsNotSet),
            res matches Ok((cursor, output)) ==> *output == self.output->0 && cursor == match overlay_cursor {
                Some(c) => c,
                None => 0,
            },
    {
        let output = match &self.output {
            Some(o) => o,
            None => {
                return Err(failure(ScreencopyHandlerErrorCodes::WLOutputIsNotSet));
            },
        };
        let cursor = match overlay_cursor {
            Some(c) => c,
            None => 0,
        };
        Ok((cursor, output))
    }

    /// Decides a capture of a region of the output: the cursor flag and
    /// the output, as for a whole capture, and the region, which goes to the
    /// compositor as given.
    pub fn capture_output_region<'a>(
        &'a self,
        x: i32,
        y: i32,
        width: i32,
        height: i32,
        overlay_cursor: Option<i32>,
    ) -> (res: Result<(i32, &'a WlOutput, CaptureRegion), ScreencopyHandlerError>)
        ensures
            res is Err <==> self.output is None,
            res matches Err(e) ==> is_failure(e, ScreencopyHandlerErrorCodes::WLOutputIsNotSet),
            res matches Ok((cursor, output, region)) ==> {
                &&& *output == self.output->0
                &&& cursor == match overlay_cursor {
                    Some(c) => c,
                    None => 0,
                }
                &&& region == (CaptureRegion { x, y, width, height })
            },
    {
        let (cursor, output) = self.capture_output(overlay_cursor)?;
        Ok((cursor, output, CaptureRegion { x, y, width, height }))
    }

    /// Records the frame that a capture made; it replaces the previous one.
    pub fn set_screencopy_frame(&mut self, frame: ZwlrScreencopyFrameV1)
        ensures
            final(self).screencopy_frame == Some(frame),
            final(self).output == old(self).output,
            final(self).shm == old(self).shm,
            final(self).screencopy_frame_buffer == old(self).screencopy_frame_buffer,
            final(self).supported_buffer_formats@ == old(self).supported_buffer_formats@,
    {
        self.screencopy_frame = Some(frame);
    }

    /// The first thing that a copy needs and that is missing or wrong.
    pub open spec fn copy_failure(&self) -> Option<ScreencopyHandlerErrorCodes> {
        if self.shm is None {
            Some(ScreencopyHandlerErrorCodes::WlShmIsNotSet)
        } else if self.screencopy_frame is None {
            Some(ScreencopyHandlerErrorCodes::ScreencopyFrameIsNotSet)
        } else if self.screencopy_frame_buffer is None {
            Some(ScreencopyHandlerErrorCodes::ScreencopyBufferIsNotSet)
        } else if self.screencopy_frame_buffer->0.format is Err {
            Some(ScreencopyHandlerErrorCodes::ScreencopyFrameBufferFormatError)
        } else if !self.supported_buffer_formats@.contains(self.screencopy_frame_buffer->0.format->Ok_0) {
            Some(ScreencopyHandlerErrorCodes::ScreencopyFrameBufferFormatUnsupported)
        } else {
            None
        }
    }

    /// Whether a copy would get past every check and then find a buffer too
    /// large to count in 32 bits, which `copy` does not accept.
    pub fn copy_would_overflow(&self) -> (res: bool)
        ensures
            res == (self.copy_failure() is None && self.screencopy_frame_buffer->0.stride
                * self.screencopy_frame_buffer->0.height > u32::MAX),
    {
        broadcast use vstd::std_specs::hash::group_hash_axioms;

        if self.shm.is_none() || self.screencopy_frame.is_none() {
            return false;
        }
        match &self.screencopy_frame_buffer {
            None => false,
            Some(b) => match b.format {
                Err(_) => false,
                Ok(f) => {
                    if !self.supported_buffer_formats.contains(&f) {
                        false
                    } else {
                        let stride = b.stride as u64;
                        let height = b.height as u64;
                        assert(stride * height <= u64::MAX) by (nonlinear_arith)
                            requires
                                stride <= u32::MAX,
                                height <= u32::MAX,
                        ;
                        stride * height > u32::MAX as u64
                    }
                },
            },
        }
    }

    /// Decides a copy of the captured frame: the factory, the frame, the
    /// buffer's format and size, and the sizes that the protocol requests
    /// take as signed numbers.
    pub fn copy<'a>(&'a self) -> (res: Result<CopyRequest<'a>, ScreencopyHandlerError>)
        requires
            self.copy_failure() is None ==> self.screencopy_frame_buffer->0.stride
                * self.screencopy_frame_buffer->0.height <= u32::MAX,
        ensures
            res is Err <==> self.copy_failure() is Some,
            res matches Err(e) ==> is_failure(e, self.copy_failure()->0),
            res matches Ok(r) ==> {
                let b = self.screencopy_frame_buffer->0;
                &&& *r.shm == self.shm->0
                &&& *r.frame == self.screencopy_frame->0
                &&& r.format == b.format->Ok_0
                &&& r.size_bytes == b.stride * b.height
                &&& r.pool_size == r.size_bytes as i32
                &&& r.width == b.width
                &&& r.height == b.height
                &&& r.stride == b.stride
                &&& r.buffer_width == b.width as i32
                &&& r.buffer_height == b.height as i32
                &&& r.buffer_stride == b.stride as i32
            },
    {
        broadcast use vstd::std_specs::hash::group_hash_axioms;

        let shm = match &self.shm {
            Some(f) => f,
            None => {
                return Err(failure(ScreencopyHandlerErrorCodes::WlShmIsNotSet));
            },
        };
        let frame = match &self.screencopy_frame {
            Some(f) => f,
            None => {
                return Err(failure(ScreencopyHandlerErrorCodes::ScreencopyFrameIsNotSet));
            },
        };
        let buffer = match &self.screencopy_frame_buffer {
            Some(b) => b,
            None => {
                return Err(failure(ScreencopyHandlerErrorCodes::ScreencopyBufferIsNotSet));
            },
        };
        let format = match buffer.format {
            Ok(f) => f,
            Err(_) => {
                return Err(failure(ScreencopyHandlerErrorCodes::ScreencopyFrameBufferFormatError));
            },
        };
        if !self.supported_buffer_formats.contains(&format) {
            return Err(failure(ScreencopyHandlerErrorCodes::ScreencopyFrameBufferFormatUnsupported));
        }
        let size_bytes = buffer.stride * buffer.height;
        Ok(
            CopyRequest {
                shm,
                frame,
                format,
                size_bytes,
                pool_size: size_bytes as i32,
                width: buffer.width,
                height: buffer.height,
                stride: buffer.stride,
                buffer_width: buffer.width as i32,
                buffer_height: buffer.height as i32,
                buffer_stride: buffer.stride as i32,
            },
        )
    }
}

} // verus!
