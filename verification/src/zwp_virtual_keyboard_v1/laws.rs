//! What holds of the virtual keyboard handler across requests.

use vstd::prelude::*;

use super::handler::{time_stamp, KeyMotion, VirtualKeyboardRequest, VirtualKeyboardState};

verus! {

/// A key is sent with the modifier state last set: after the modifiers are
/// updated, sending a key first sets exactly those modifiers, in group 0, then
/// sends the key; sending keys leaves the state as it is, so this holds for
/// every key until the modifiers are updated again.
pub proof fn keys_carry_last_modifiers(
    s: VirtualKeyboardState,
    depressed: u32,
    latched: u32,
    locked: u32,
    time: u32,
    keycode: u32,
    keymotion: KeyMotion,
)
    ensures
        s.with_modifiers(depressed, latched, locked).key_requests(time, keycode, keymotion)[0]
            == (VirtualKeyboardRequest::Modifiers { depressed, latched, locked, group: 0 }),
        s.with_modifiers(depressed, latched, locked).key_requests(time, keycode, keymotion)[1]
            == (VirtualKeyboardRequest::Key { time, key: keycode, state: keymotion.spec_code() }),
        s.with_modifiers(depressed, latched, locked).key_requests(time, keycode, keymotion).len() == 2,
{
}

/// Time stamps follow the clock: of two readings within 32 bits of
/// milliseconds, the later one gives a time stamp no smaller than the earlier
/// one, and the two stamps lie as far apart as the readings.
pub proof fn time_stamps_follow_elapsed_time(earlier: u128, later: u128)
    requires
        earlier <= later <= u32::MAX,
    ensures
        time_stamp(earlier) <= time_stamp(later),
        time_stamp(later) - time_stamp(earlier) == later - earlier,
{
}

/// A key press is sent as the protocol's pressed state, 1, and a release as
/// its released state, 0; the two never share a code.
pub proof fn key_motions_use_the_protocol_codes(motion: KeyMotion)
    ensures
        KeyMotion::Press.spec_code() == 1,
        KeyMotion::Release.spec_code() == 0,
        motion.spec_code() == 1 <==> motion == KeyMotion::Press,
{
}

} // verus!
