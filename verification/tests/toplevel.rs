use wayland_client::protocol::{wl_output::WlOutput, wl_seat::WlSeat};
use wayland_client::{backend::WeakBackend, Connection, Proxy};
use wayland_protocols_wlr::foreign_toplevel::v1::client::zwlr_foreign_toplevel_handle_v1::ZwlrForeignToplevelHandleV1;
use wayland_protocols_async::zwlr_foreign_toplevel_management_v1::errors::ToplevelHandlerErrorCodes;
use wayland_protocols_async::zwlr_foreign_toplevel_management_v1::handler::{
    map_state_to_wstate, state_words, wstates_from_words, wstates_in_order, ToplevelAction, ToplevelEvent, ToplevelRequest, ToplevelState,
    ToplevelWState,
};

fn backend() -> (tokio::runtime::Runtime, Connection, WeakBackend) {
    let rt = tokio::runtime::Runtime::new().unwrap();
    let stream = {
        let _guard = rt.enter();
        let (a, _b) = tokio::net::UnixStream::pair().unwrap();
        a.into_std().unwrap()
    };
    let conn = Connection::from_socket(stream).unwrap();
    let weak = conn.backend().downgrade();
    (rt, conn, weak)
}

fn words(codes: &[u32]) -> Vec<u8> {
    let mut bytes = Vec::new();
    for c in codes {
        bytes.extend_from_slice(&c.to_ne_bytes());
    }
    bytes
}

#[test]
fn state_array_maps_in_fixed_order() {
    let states = map_state_to_wstate(words(&[3, 2, 0]));
    assert_eq!(states, vec![ToplevelWState::Maximized, ToplevelWState::Activated, ToplevelWState::Fullscreen]);
}

#[test]
fn state_array_ignores_repeats_unknown_codes_and_trailing_bytes() {
    let mut bytes = words(&[1, 1, 9, 1]);
    bytes.push(2);
    bytes.push(0);
    assert_eq!(map_state_to_wstate(bytes), vec![ToplevelWState::Minimized]);
    assert_eq!(map_state_to_wstate(Vec::new()), Vec::<ToplevelWState>::new());
    assert_eq!(map_state_to_wstate(vec![2, 0, 0]), Vec::<ToplevelWState>::new());
}

#[test]
fn state_words_read_in_the_given_order() {
    let bytes = vec![4, 3, 2, 1, 7, 0, 0, 0, 9];
    assert_eq!(state_words(&bytes, true), vec![0x0102_0304, 7]);
    assert_eq!(state_words(&bytes, false), vec![0x0403_0201, 0x0700_0000]);
    assert_eq!(wstates_in_order(&vec![0, 0, 0, 0, 2, 0, 0, 0], true), vec![
        ToplevelWState::Maximized,
        ToplevelWState::Activated
    ]);
    assert_eq!(wstates_in_order(&vec![0, 0, 0, 0, 0, 0, 0, 2], false), vec![
        ToplevelWState::Maximized,
        ToplevelWState::Activated
    ]);
    assert_eq!(map_state_to_wstate(words(&[0, 2])), vec![ToplevelWState::Maximized, ToplevelWState::Activated]);
    assert_eq!(wstates_from_words(&vec![2, 3, 0, 1]), vec![
        ToplevelWState::Maximized,
        ToplevelWState::Minimized,
        ToplevelWState::Activated,
        ToplevelWState::Fullscreen
    ]);
    assert_eq!(ToplevelWState::Fullscreen.code(), 3);
    assert_eq!(ToplevelWState::Maximized.code(), 0);
}

#[test]
fn created_toplevel_is_listed_and_fresh() {
    let (_rt, _conn, weak) = backend();
    let mut s = ToplevelState::new(None, None);
    assert!(s.get_toplevels().is_empty());
    let (k1, ev) = s.on_toplevel(ZwlrForeignToplevelHandleV1::inert(weak.clone()));
    assert!(matches!(ev, ToplevelEvent::Created { key } if key == k1));
    let (k2, _) = s.on_toplevel(ZwlrForeignToplevelHandleV1::inert(weak.clone()));
    assert_ne!(k1, k2);
    let keys = s.get_toplevels();
    assert_eq!(keys, vec![k1, k2]);
    let meta = s.get_toplevel_meta(k1).unwrap();
    assert_eq!(meta.title, "");
    assert_eq!(meta.app_id, "");
    assert!(meta.state.is_none());
}

#[test]
fn events_are_read_back_by_meta_and_done() {
    let (_rt, _conn, weak) = backend();
    let mut s = ToplevelState::new(None, None);
    let (k, _) = s.on_toplevel(ZwlrForeignToplevelHandleV1::inert(weak.clone()));
    let ev = s.on_title(k, String::from("Terminal"));
    assert!(matches!(ev, ToplevelEvent::Title { key, ref title } if key == k && title == "Terminal"));
    let ev = s.on_app_id(k, String::from("foot"));
    assert!(matches!(ev, ToplevelEvent::AppId { key, ref app_id } if key == k && app_id == "foot"));
    let ev = s.on_state(k, words(&[2]));
    assert!(matches!(ev, ToplevelEvent::State { key, ref state } if key == k && *state == vec![ToplevelWState::Activated]));
    let meta = s.get_toplevel_meta(k).unwrap();
    assert_eq!(meta.title, "Terminal");
    assert_eq!(meta.app_id, "foot");
    assert_eq!(meta.state, Some(vec![ToplevelWState::Activated]));
    match s.on_done(k) {
        ToplevelEvent::Done { key, title, app_id, state } => {
            assert_eq!(key, k);
            assert_eq!(title, "Terminal");
            assert_eq!(app_id, "foot");
            assert_eq!(state, Some(vec![ToplevelWState::Activated]));
        },
        other => panic!("unexpected event {:?}", other),
    }
}

#[test]
fn closed_toplevel_is_not_found() {
    let (_rt, _conn, weak) = backend();
    let mut s = ToplevelState::new(None, None);
    let (k1, _) = s.on_toplevel(ZwlrForeignToplevelHandleV1::inert(weak.clone()));
    let (k2, _) = s.on_toplevel(ZwlrForeignToplevelHandleV1::inert(weak.clone()));
    assert!(matches!(s.on_closed(k1), ToplevelEvent::Closed { key } if key == k1));
    assert_eq!(s.get_toplevels(), vec![k2]);
    assert!(s.get_toplevel_meta(k1).is_none());
    let e = s.request(k1, ToplevelAction::Close).unwrap_err();
    assert_eq!(e.code, ToplevelHandlerErrorCodes::ToplevelNotFound);
    assert_eq!(e.message, "toplevel not found");
    assert!(s.request(k2, ToplevelAction::Close).is_ok());
    let (k3, _) = s.on_toplevel(ZwlrForeignToplevelHandleV1::inert(weak.clone()));
    assert_ne!(k3, k1);
    assert!(s.get_toplevel_meta(k1).is_none());
}

#[test]
fn reused_slot_gets_a_later_version() {
    let (_rt, _conn, weak) = backend();
    let mut s = ToplevelState::new(None, None);
    let (k1, _) = s.on_toplevel(ZwlrForeignToplevelHandleV1::inert(weak.clone()));
    s.on_closed(k1);
    let (k2, _) = s.on_toplevel(ZwlrForeignToplevelHandleV1::inert(weak.clone()));
    assert_eq!(k2 & 0xffff_ffff, k1 & 0xffff_ffff);
    assert_eq!(k2 >> 32, (k1 >> 32) + 2);
    s.on_closed(k2);
    let (k3, _) = s.on_toplevel(ZwlrForeignToplevelHandleV1::inert(weak.clone()));
    assert!(k3 != k1 && k3 != k2);
    assert!(s.get_toplevel_meta(k1).is_none());
    assert!(s.get_toplevel_meta(k2).is_none());
    assert!(s.get_toplevel_meta(k3).is_some());
}

#[test]
fn key_with_even_version_finds_same_toplevel() {
    let (_rt, _conn, weak) = backend();
    let mut s = ToplevelState::new(None, None);
    let (k, _) = s.on_toplevel(ZwlrForeignToplevelHandleV1::inert(weak.clone()));
    s.on_title(k, String::from("t"));
    let even = k - (1u64 << 32);
    assert_eq!(s.get_toplevel_meta(even).unwrap().title, "t");
}

#[test]
fn requests_name_seat_and_output_when_known() {
    let (_rt, _conn, weak) = backend();
    let mut s = ToplevelState::new(None, None);
    let (k, _) = s.on_toplevel(ZwlrForeignToplevelHandleV1::inert(weak.clone()));
    assert!(matches!(s.request(k, ToplevelAction::Activate).unwrap().1, ToplevelRequest::Activate { seat: None }));
    assert!(matches!(s.request(k, ToplevelAction::SetFullscreen).unwrap().1, ToplevelRequest::SetFullscreen { output: None }));
    s.set_seat(WlSeat::inert(weak.clone()));
    s.set_output(WlOutput::inert(weak.clone()));
    assert!(matches!(s.request(k, ToplevelAction::Activate).unwrap().1, ToplevelRequest::Activate { seat: Some(_) }));
    assert!(matches!(s.request(k, ToplevelAction::SetFullscreen).unwrap().1, ToplevelRequest::SetFullscreen { output: Some(_) }));
    assert!(matches!(s.request(k, ToplevelAction::SetMaximize).unwrap().1, ToplevelRequest::SetMaximized));
    assert!(matches!(s.request(k, ToplevelAction::UnsetMinimize).unwrap().1, ToplevelRequest::UnsetMinimized));
}

#[test]
fn reordered_and_repeated_words_give_the_same_states() {
    let a = vec![2, 0, 0, 0, 0, 0, 0, 0, 7];
    let b = vec![0, 0, 0, 0, 2, 0, 0, 0, 0, 0, 0, 0, 2, 0, 0, 0];
    assert_eq!(wstates_in_order(&a, true), wstates_in_order(&b, true));
    assert_eq!(wstates_in_order(&a, false), wstates_in_order(&b, false));
    assert_eq!(wstates_in_order(&a, true), vec![ToplevelWState::Maximized, ToplevelWState::Activated]);
}
