use vstd::prelude::*;

verus! {

/// What the idle notify handler tells its subscribers: the subscription,
/// by its key, whose timeout has passed or whose user is back.
#[derive(Debug)]
pub enum IdleNotifyEvent {
    Idled { key: String },
    Resumed { key: String },
}

/// The events that the compositor sends on an idle notification.
#[derive(Debug, Clone, Copy, PartialEq, Eq, Structural)]
pub enum IdleNotification {
    Idled,
    Resumed,
}

/// The event announced for an event on the notification of a subscription.
pub fn idle_event(notification: IdleNotification, key: &String) -> (res: IdleNotifyEvent)
    ensures
        notification == IdleNotification::Idled ==> res == (IdleNotifyEvent::Idled { key: *key }),
        notification == IdleNotification::Resumed ==> res == (IdleNotifyEvent::Resumed { key: *key }),
{
    match notification {
        IdleNotification::Idled => IdleNotifyEvent::Idled { key: key.clone() },
        IdleNotification::Resumed => IdleNotifyEvent::Resumed { key: key.clone() },
    }
}

/// The timeout that a subscription's notification is made with: its
/// milliseconds cut to the protocol's 32 bits.
pub fn notification_timeout(millis: u128) -> (res: u32)
    ensures
        res == millis % 0x1_0000_0000,
{
    (millis % 0x1_0000_0000) as u32
}

} // verus!
