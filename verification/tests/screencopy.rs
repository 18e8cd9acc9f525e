use wayland_client::protocol::{wl_output::WlOutput, wl_shm::WlShm};
use wayland_client::{backend::WeakBackend, Connection, Proxy};
use wayland_protocols_wlr::screencopy::v1::client::zwlr_screencopy_frame_v1::ZwlrScreencopyFrameV1;
use wayland_protocols_async::zwlr_screencopy_v1::errors::ScreencopyHandlerErrorCodes;
use wayland_protocols_async::zwlr_screencopy_v1::handler::{CaptureRegion, ScreencopyEvent, ScreencopyState};

fn backend() -> (tokio::runtime::Runtime, Connection, WeakBackend) {
    let rt = tokio::runtime::Runtime::new().unwrap();
    let stream = {
        let _guard = rt.enter();
        let (a, _b) = tokio::net::UnixStream::pair().unwrap();
        a.into_std().unwrap()
    };
    let conn = Connection::from_socket(stream).unwrap();
    let weak = conn.backend().downgrade();
    (rt, conn, weak)
}

#[test]
fn capture_needs_output_and_defaults_cursor() {
    let (_rt, _conn, weak) = backend();
    let s = ScreencopyState::new(None, None);
    let e = s.capture_output(Some(1)).unwrap_err();
    assert_eq!(e.code, ScreencopyHandlerErrorCodes::WLOutputIsNotSet);
    assert_eq!(e.message, "wl_output uninitialized or is not set");
    let s = ScreencopyState::new(Some(WlOutput::inert(weak.clone())), None);
    assert_eq!(s.capture_output(None).unwrap().0, 0);
    assert_eq!(s.capture_output(Some(1)).unwrap().0, 1);
    let (cursor, _, region) = s.capture_output_region(1, 2, 3, 4, Some(1)).unwrap();
    assert_eq!(cursor, 1);
    assert_eq!(region, CaptureRegion { x: 1, y: 2, width: 3, height: 4 });
}

#[test]
fn copy_checks_in_order() {
    let (_rt, _conn, weak) = backend();
    let mut s = ScreencopyState::new(Some(WlOutput::inert(weak.clone())), None);
    assert_eq!(s.copy().unwrap_err().code, ScreencopyHandlerErrorCodes::WlShmIsNotSet);
    s.shm = Some(WlShm::inert(weak.clone()));
    let e = s.copy().unwrap_err();
    assert_eq!(e.code, ScreencopyHandlerErrorCodes::ScreencopyFrameIsNotSet);
    assert_eq!(e.message, "screencopy_frame uninitialized or is not set, did you capture output?");
    s.set_screencopy_frame(ZwlrScreencopyFrameV1::inert(weak.clone()));
    assert_eq!(s.copy().unwrap_err().code, ScreencopyHandlerErrorCodes::ScreencopyBufferIsNotSet);
    s.on_frame_event(ScreencopyEvent::Buffer { format: Err(12345), width: 4, height: 2, stride: 16 });
    assert_eq!(s.copy().unwrap_err().code, ScreencopyHandlerErrorCodes::ScreencopyFrameBufferFormatError);
    s.on_frame_event(ScreencopyEvent::Buffer { format: Ok(1), width: 4, height: 2, stride: 16 });
    let e = s.copy().unwrap_err();
    assert_eq!(e.code, ScreencopyHandlerErrorCodes::ScreencopyFrameBufferFormatUnsupported);
    assert_eq!(e.message, "screencopy_frame_buffer format is not supported by the wl_shm formats");
    s.on_shm_format(Err(7));
    s.on_shm_format(Ok(1));
    let r = s.copy().unwrap();
    assert_eq!(r.format, 1);
    assert_eq!(r.size_bytes, 32);
    assert_eq!(r.pool_size, 32);
    assert_eq!((r.width, r.height, r.stride), (4, 2, 16));
    assert_eq!((r.buffer_width, r.buffer_height, r.buffer_stride), (4, 2, 16));
}

#[test]
fn sizes_beyond_i32_wrap_in_requests() {
    let (_rt, _conn, weak) = backend();
    let mut s = ScreencopyState::new(None, Some(WlShm::inert(weak.clone())));
    s.set_screencopy_frame(ZwlrScreencopyFrameV1::inert(weak.clone()));
    s.on_shm_format(Ok(0));
    s.on_frame_event(ScreencopyEvent::Buffer { format: Ok(0), width: 0x8000_0000, height: 1, stride: 0x8000_0000 });
    let r = s.copy().unwrap();
    assert_eq!(r.size_bytes, 0x8000_0000);
    assert_eq!(r.pool_size, i32::MIN);
    assert_eq!(r.buffer_width, i32::MIN);
}

#[test]
fn frame_events_pass_through() {
    let mut s = ScreencopyState::new(None, None);
    assert!(matches!(s.on_frame_event(ScreencopyEvent::Ready { tv_sec_hi: 1, tv_sec_lo: 2, tv_nsec: 3 }), ScreencopyEvent::Ready { tv_sec_hi: 1, tv_sec_lo: 2, tv_nsec: 3 }));
    assert!(s.screencopy_frame_buffer.is_none());
    assert!(matches!(s.on_frame_event(ScreencopyEvent::BufferDone), ScreencopyEvent::BufferDone));
}
