//! What holds of the input method handler across events and requests.

use vstd::prelude::*;

use super::handler::next_serial;

verus! {

/// The serial after `n` more `done` events.
pub open spec fn serial_after(serial: u32, n: nat) -> u32
    decreases n,
{
    if n == 0 {
        serial
    } else {
        next_serial(serial_after(serial, (n - 1) as nat))
    }
}

/// A commit carries the number of `done` events so far, counted modulo 2^32
/// from the serial the handler started with.
pub proof fn serial_counts_done_events(serial: u32, n: nat)
    ensures
        serial_after(serial, n) == (serial + n) % 0x1_0000_0000,
    decreases n,
{
    if n > 0 {
        serial_counts_done_events(serial, (n - 1) as nat);
        assert(((serial + (n - 1)) % 0x1_0000_0000 + 1) % 0x1_0000_0000 == (serial + n) % 0x1_0000_0000) by (nonlinear_arith);
    }
}

} // verus!
