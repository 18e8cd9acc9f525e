use wayland_protocols_async::ext_idle_notify_v1::handler::{idle_event, notification_timeout, IdleNotification, IdleNotifyEvent};

#[test]
fn notification_events_carry_the_key() {
    let key = String::from("screen-off");
    assert!(matches!(idle_event(IdleNotification::Idled, &key), IdleNotifyEvent::Idled { key } if key == "screen-off"));
    assert!(matches!(idle_event(IdleNotification::Resumed, &key), IdleNotifyEvent::Resumed { key } if key == "screen-off"));
}

#[test]
fn timeout_is_cut_to_32_bits() {
    assert_eq!(notification_timeout(30_000), 30_000);
    assert_eq!(notification_timeout((1u128 << 32) + 5), 5);
    assert_eq!(notification_timeout(u32::MAX as u128), u32::MAX);
}
