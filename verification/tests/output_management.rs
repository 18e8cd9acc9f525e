use wayland_client::{backend::WeakBackend, Connection, Proxy};
use wayland_protocols_wlr::output_management::v1::client::{
    zwlr_output_head_v1::ZwlrOutputHeadV1, zwlr_output_mode_v1::ZwlrOutputModeV1,
};
use wayland_protocols_async::zwlr_output_management_v1::errors::OutputManagementHandlerErrorCodes;
use wayland_protocols_async::zwlr_output_management_v1::handler::{
    AdaptiveSyncState, HeadChange, OutputManagementEvent, OutputManagementState,
};
use wayland_protocols_async::zwlr_output_management_v1::output::output_configuration::{
    configuration_event, ConfigurationNotice,
};
use wayland_protocols_async::zwlr_output_management_v1::output::output_head::{HeadNotice, WlOutputHead, SCALE_ONE_BITS};
use wayland_protocols_async::zwlr_output_management_v1::output::output_mode::{ModeNotice, WlOutputMode};

fn backend() -> (tokio::runtime::Runtime, Connection, WeakBackend) {
    let rt = tokio::runtime::Runtime::new().unwrap();
    let stream = {
        let _guard = rt.enter();
        let (a, _b) = tokio::net::UnixStream::pair().unwrap();
        a.into_std().unwrap()
    };
    let conn = Connection::from_socket(stream).unwrap();
    let weak = conn.backend().downgrade();
    (rt, conn, weak)
}

fn head(weak: &WeakBackend) -> ZwlrOutputHeadV1 {
    ZwlrOutputHeadV1::inert(weak.clone())
}

fn mode(weak: &WeakBackend) -> ZwlrOutputModeV1 {
    ZwlrOutputModeV1::inert(weak.clone())
}

#[test]
fn new_records_are_blank() {
    let (_rt, _conn, weak) = backend();
    let h = WlOutputHead::new(head(&weak));
    assert_eq!(h.scale_bits, SCALE_ONE_BITS);
    assert_eq!(f64::from_bits(h.scale_bits), 1.0);
    assert!(h.modes.is_empty() && h.name.is_empty() && !h.enabled && h.current_mode.is_none());
    let m = WlOutputMode::new(mode(&weak));
    assert_eq!((m.width, m.height, m.refresh, m.preferred), (0, 0, 0, false));
}

#[test]
fn announced_head_is_described_by_events() {
    let (_rt, _conn, weak) = backend();
    let mut s = OutputManagementState::new();
    assert!(matches!(s.on_head(10, head(&weak)), OutputManagementEvent::Head { id: 10 }));
    let ev = s.on_head_event(10, head(&weak), HeadNotice::Name { name: String::from("DP-1") });
    assert!(matches!(ev, OutputManagementEvent::HeadName { id: 10, ref name } if name == "DP-1"));
    s.on_head_event(10, head(&weak), HeadNotice::PhysicalSize { width: 600, height: 340 });
    let ev = s.on_head_event(10, head(&weak), HeadNotice::Enabled { enabled: 5 });
    assert!(matches!(ev, OutputManagementEvent::HeadEnabled { id: 10, enabled: true }));
    s.on_head_event(10, head(&weak), HeadNotice::Position { x: -5, y: 7 });
    s.on_head_event(10, head(&weak), HeadNotice::Transform { transform: Ok(1) });
    s.on_head_event(10, head(&weak), HeadNotice::Scale { scale_bits: 2.0f64.to_bits() });
    s.on_head_event(10, head(&weak), HeadNotice::AdaptiveSync { state: Ok(AdaptiveSyncState::Enabled) });
    s.on_head_event(10, head(&weak), HeadNotice::Make { make: String::from("Acme") });
    let m = s.get_head(10).unwrap();
    assert_eq!(m.id, 10);
    assert_eq!(m.name, "DP-1");
    assert_eq!(m.make, "Acme");
    assert_eq!((m.width, m.height), (600, 340));
    assert!(m.enabled);
    assert_eq!((m.pos_x, m.pos_y), (-5, 7));
    assert_eq!(m.transform, Some(1));
    assert_eq!(f64::from_bits(m.scale_bits), 2.0);
    assert_eq!(m.adaptive_sync, Some(AdaptiveSyncState::Enabled));
    s.on_head_event(10, head(&weak), HeadNotice::Transform { transform: Err(99) });
    assert_eq!(s.get_head(10).unwrap().transform, None);
    s.on_head_event(10, head(&weak), HeadNotice::Enabled { enabled: 0 });
    assert!(!s.get_head(10).unwrap().enabled);
}

#[test]
fn event_on_unknown_head_records_it() {
    let (_rt, _conn, weak) = backend();
    let mut s = OutputManagementState::new();
    s.on_head_event(3, head(&weak), HeadNotice::Model { model: String::from("X") });
    let m = s.get_head(3).unwrap();
    assert_eq!(m.model, "X");
    assert_eq!(m.scale_bits, SCALE_ONE_BITS);
}

#[test]
fn modes_belong_to_heads_until_finished() {
    let (_rt, _conn, weak) = backend();
    let mut s = OutputManagementState::new();
    s.on_head(1, head(&weak));
    s.on_head_event(1, head(&weak), HeadNotice::Mode { mode_id: 20, mode: mode(&weak) });
    s.on_head_event(1, head(&weak), HeadNotice::Mode { mode_id: 21, mode: mode(&weak) });
    s.on_head_event(1, head(&weak), HeadNotice::CurrentMode { mode_id: 20 });
    assert!(matches!(s.on_mode_event(20, mode(&weak), ModeNotice::Size { width: 1920, height: 1080 }), OutputManagementEvent::ModeSize { height: 1080, width: 1920 }));
    s.on_mode_event(20, mode(&weak), ModeNotice::Refresh { refresh: 60000 });
    s.on_mode_event(20, mode(&weak), ModeNotice::Preferred);
    let m = s.get_mode(20).unwrap();
    assert_eq!((m.id, m.width, m.height, m.refresh, m.preferred), (20, 1920, 1080, 60000, true));
    assert_eq!(s.get_head(1).unwrap().modes, vec![20, 21]);
    assert!(matches!(s.on_mode_event(20, mode(&weak), ModeNotice::Finished), OutputManagementEvent::ModeFinished));
    let h = s.get_head(1).unwrap();
    assert_eq!(h.modes, vec![21]);
    assert_eq!(h.current_mode, None);
    assert!(s.get_mode(20).is_ok());
    let e = s.remove_mode(20).unwrap_err();
    assert_eq!(e.code, OutputManagementHandlerErrorCodes::RemoveModeError);
    assert_eq!(e.message, "remove mode failed, maybe mode not found");
}

#[test]
fn mode_of_finished_head_cannot_be_removed() {
    let (_rt, _conn, weak) = backend();
    let mut s = OutputManagementState::new();
    s.on_head_event(1, head(&weak), HeadNotice::Mode { mode_id: 20, mode: mode(&weak) });
    assert!(matches!(s.on_head_event(1, head(&weak), HeadNotice::Finished), OutputManagementEvent::HeadFinished { id: 1 }));
    assert_eq!(s.get_head(1).unwrap_err().code, OutputManagementHandlerErrorCodes::HeadNotFoundError);
    let e = s.remove_mode(20).unwrap_err();
    assert_eq!(e.code, OutputManagementHandlerErrorCodes::HeadNotFoundError);
    assert_eq!(e.message, "head not found");
    assert_eq!(s.remove_mode(20).unwrap_err().code, OutputManagementHandlerErrorCodes::RemoveModeError);
}

#[test]
fn get_heads_lists_each_head_once() {
    let (_rt, _conn, weak) = backend();
    let mut s = OutputManagementState::new();
    assert!(s.get_heads().is_empty());
    s.on_head(1, head(&weak));
    s.on_head(2, head(&weak));
    s.on_head(1, head(&weak));
    let mut ids: Vec<u64> = s.get_heads().iter().map(|m| m.id).collect();
    ids.sort();
    assert_eq!(ids, vec![1, 2]);
}

#[test]
fn configuration_needs_serial_and_known_head() {
    let (_rt, _conn, weak) = backend();
    let mut s = OutputManagementState::new();
    s.on_head(1, head(&weak));
    let e = s.enable_head(1).unwrap_err();
    assert_eq!(e.code, OutputManagementHandlerErrorCodes::NoSerialManagerNotReady);
    assert_eq!(e.message, "output serial not found, manager not ready for configuration");
    assert!(matches!(s.on_done(77), OutputManagementEvent::Done { serial: 77 }));
    let r = s.enable_head(1).unwrap();
    assert_eq!(r.serial, 77);
    assert!(matches!(r.change, HeadChange::Enable));
    assert!(matches!(s.disable_head(1).unwrap().change, HeadChange::Disable));
    let e = s.disable_head(2).unwrap_err();
    assert_eq!(e.code, OutputManagementHandlerErrorCodes::HeadNotFoundError);
    assert_eq!(e.message, "output head not found");
    assert!(matches!(s.set_custom_mode(1, 800, 600, 60).unwrap().change, HeadChange::CustomMode { width: 800, height: 600, refresh: 60 }));
    assert!(matches!(s.set_position(1, 3, 4).unwrap().change, HeadChange::Position { x: 3, y: 4 }));
    assert!(matches!(s.set_transform(1, 2).unwrap().change, HeadChange::Transform { transform: 2 }));
    assert!(matches!(s.set_scale(1, 7).unwrap().change, HeadChange::Scale { scale_bits: 7 }));
    assert!(matches!(s.set_adaptive_sync(1, true).unwrap().change, HeadChange::AdaptiveSync { state: AdaptiveSyncState::Enabled }));
    assert!(matches!(s.set_adaptive_sync(1, false).unwrap().change, HeadChange::AdaptiveSync { state: AdaptiveSyncState::Disabled }));
    let f = s.set_mode(1, 5).unwrap_err();
    assert_eq!(f.error.code, OutputManagementHandlerErrorCodes::ModeNotFoundError);
    assert_eq!(f.error.message, "output mode not found");
    let (serial, begun_head) = f.begun.unwrap();
    assert_eq!(serial, s.output_manager_serial.unwrap());
    assert_eq!(begun_head.id().protocol_id(), head(&weak).id().protocol_id());
    s.on_head_event(1, head(&weak), HeadNotice::Mode { mode_id: 5, mode: mode(&weak) });
    assert!(matches!(s.set_mode(1, 5).unwrap().change, HeadChange::Mode { .. }));
    let f = s.set_mode(9, 5).unwrap_err();
    assert_eq!(f.error.code, OutputManagementHandlerErrorCodes::HeadNotFoundError);
    assert!(f.begun.is_none());
    assert!(matches!(s.on_finished(), OutputManagementEvent::Finished));
    assert_eq!(s.set_position(1, 0, 0).unwrap_err().code, OutputManagementHandlerErrorCodes::NoSerialManagerNotReady);
    assert_eq!(s.generate_config(1).unwrap_err().code, OutputManagementHandlerErrorCodes::NoSerialManagerNotReady);
}

#[test]
fn configuration_outcomes_are_announced() {
    assert!(matches!(configuration_event(ConfigurationNotice::Succeeded), OutputManagementEvent::ConfigurationSucceeded));
    assert!(matches!(configuration_event(ConfigurationNotice::Failed), OutputManagementEvent::ConfigurationFailed));
    assert!(matches!(configuration_event(ConfigurationNotice::Cancelled), OutputManagementEvent::ConfigurationCancelled));
}

#[test]
fn finished_head_key_does_not_find_a_later_head() {
    let (_rt, _conn, weak) = backend();
    let mut s = OutputManagementState::new();
    s.on_done(3);
    s.on_head(1, head(&weak));
    s.on_head_event(1, head(&weak), HeadNotice::Finished);
    s.on_head(2, head(&weak));
    let e = s.get_head(1).unwrap_err();
    assert_eq!(e.code, OutputManagementHandlerErrorCodes::HeadNotFoundError);
    assert_eq!(s.enable_head(1).unwrap_err().code, OutputManagementHandlerErrorCodes::HeadNotFoundError);
    assert_eq!(s.get_head(2).unwrap().id, 2);
}
