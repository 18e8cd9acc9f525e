//! What holds of the toplevel handler across events and requests.

use vstd::prelude::*;
use wayland_protocols_wlr::foreign_toplevel::v1::client::zwlr_foreign_toplevel_handle_v1::ZwlrForeignToplevelHandleV1;

use super::handler::{same_wstates, ToplevelAction, ToplevelRequest, le_word, be_word, words_in_order, spec_wstates, Toplevel, ToplevelKey, ToplevelState, ToplevelWState, STATE_ACTIVATED, STATE_FULLSCREEN, STATE_MAXIMIZED, STATE_MINIMIZED};
use super::slots::{canonical_key, key_version};

verus! {

/// The states read from a state array name each state at most once, in the
/// order maximized, minimized, activated, fullscreen, and only states whose
/// code the array holds.
pub proof fn wstates_distinct_and_ordered(words: Seq<u32>)
    ensures
        forall|i: int, j: int|
            0 <= i < j < spec_wstates(words).len() ==> (#[trigger] spec_wstates(words)[i]).spec_code()
                < (#[trigger] spec_wstates(words)[j]).spec_code(),
        spec_wstates(words).no_duplicates(),
        forall|i: int|
            0 <= i < spec_wstates(words).len() ==> words.contains(
                (#[trigger] spec_wstates(words)[i]).spec_code(),
            ),
        spec_wstates(words).len() <= 4,
{
    let a = if words.contains(STATE_MAXIMIZED) { seq![ToplevelWState::Maximized] } else { seq![] };
    let b = if words.contains(STATE_MINIMIZED) { seq![ToplevelWState::Minimized] } else { seq![] };
    let c = if words.contains(STATE_ACTIVATED) { seq![ToplevelWState::Activated] } else { seq![] };
    let d = if words.contains(STATE_FULLSCREEN) { seq![ToplevelWState::Fullscreen] } else { seq![] };
    let r = spec_wstates(words);
    assert(r == a + b + c + d);
    assert forall|i: int| 0 <= i < r.len() implies (#[trigger] r[i]).spec_code() == if i < a.len() {
        STATE_MAXIMIZED
    } else if i < a.len() + b.len() {
        STATE_MINIMIZED
    } else if i < a.len() + b.len() + c.len() {
        STATE_ACTIVATED
    } else {
        STATE_FULLSCREEN
    } by {
        if i < a.len() {
        } else if i < a.len() + b.len() {
            assert(r[i] == b[i - a.len()]);
        } else if i < a.len() + b.len() + c.len() {
            assert(r[i] == c[i - a.len() - b.len()]);
        } else {
            assert(r[i] == d[i - a.len() - b.len() - c.len()]);
        }
    }
    assert forall|i: int, j: int| 0 <= i < r.len() && 0 <= j < r.len() && i != j implies r[i] != r[j] by {
        if i < j {
            assert(r[i].spec_code() < r[j].spec_code());
        } else {
            assert(r[j].spec_code() < r[i].spec_code());
        }
    }
}

/// A toplevel's key, as handed out, finds the toplevel; after it is closed
/// the key finds nothing, so requests on it fail and its meta is gone.
pub proof fn key_finds_toplevel_until_closed(s: ToplevelState, key: ToplevelKey)
    requires
        s.wf(),
        s.live().contains_key(key),
    ensures
        canonical_key(key) == key,
        s.live().contains_key(canonical_key(key)),
        !s.live().remove(key).contains_key(canonical_key(key)),
{
}

/// A new toplevel gets a key that no open toplevel has, and that key finds it
/// with an empty title and app id and no state.
pub proof fn created_toplevel_is_found_fresh(
    before: ToplevelState,
    after: ToplevelState,
    key: ToplevelKey,
    handle: ZwlrForeignToplevelHandleV1,
)
    requires
        before.wf(),
        after.wf(),
        !before.live().contains_key(key),
        after.live() == before.live().insert(key, after.live()[key]),
        after.live()[key].is_new(handle),
    ensures
        forall|k: ToplevelKey| #[trigger] before.live().contains_key(k) ==> k != key,
        after.live().contains_key(canonical_key(key)),
        after.live()[canonical_key(key)].title@ == Seq::<char>::empty(),
        after.live()[canonical_key(key)].app_id@ == Seq::<char>::empty(),
        after.live()[canonical_key(key)].state is None,
        after.live()[canonical_key(key)].handle == handle,
{
    assert(after.live().contains_key(key));
    assert(key_version(key) % 2 == 1);
}

/// What a title or app id event stores is what the meta of the toplevel
/// gives back, and the other toplevels are left as they were.
pub proof fn title_and_app_id_read_back(s: ToplevelState, key: ToplevelKey, title: String, app_id: String)
    requires
        s.wf(),
        s.live().contains_key(key),
    ensures
        ({
            let m = s.live().insert(key, Toplevel { title: title, ..s.live()[key] });
            &&& m[canonical_key(key)].title == title
            &&& forall|k: ToplevelKey| #[trigger] s.live().contains_key(k) && k != key ==> m[k] == s.live()[k]
        }),
        ({
            let m = s.live().insert(key, Toplevel { app_id: app_id, ..s.live()[key] });
            &&& m[canonical_key(key)].app_id == app_id
            &&& forall|k: ToplevelKey| #[trigger] s.live().contains_key(k) && k != key ==> m[k] == s.live()[k]
        }),
{
}

/// The `i`-th group of four bytes.
pub open spec fn chunk(bytes: Seq<u8>, i: int) -> Seq<u8> {
    bytes.subrange(4 * i, 4 * i + 4)
}

/// Every whole group of four bytes of `a` is also one of `b`.
pub open spec fn chunks_within(a: Seq<u8>, b: Seq<u8>) -> bool {
    forall|i: int|
        0 <= i < a.len() / 4 ==> exists|j: int| 0 <= j < b.len() / 4 && #[trigger] chunk(a, i) == #[trigger] chunk(b, j)
}

/// A word read from an array depends on its four bytes alone.
proof fn word_of_chunk(s: Seq<u8>, i: int, t: Seq<u8>, j: int, little_endian: bool)
    requires
        0 <= i < s.len() / 4,
        0 <= j < t.len() / 4,
        chunk(s, i) == chunk(t, j),
    ensures
        words_in_order(s, little_endian)[i] == words_in_order(t, little_endian)[j],
{
    assert(4 * i + 4 <= s.len()) by (nonlinear_arith)
        requires
            0 <= i < s.len() / 4,
    ;
    assert(4 * j + 4 <= t.len()) by (nonlinear_arith)
        requires
            0 <= j < t.len() / 4,
    ;
    assert(chunk(s, i)[0] == s[4 * i] && chunk(t, j)[0] == t[4 * j]);
    assert(chunk(s, i)[1] == s[4 * i + 1] && chunk(t, j)[1] == t[4 * j + 1]);
    assert(chunk(s, i)[2] == s[4 * i + 2] && chunk(t, j)[2] == t[4 * j + 2]);
    assert(chunk(s, i)[3] == s[4 * i + 3] && chunk(t, j)[3] == t[4 * j + 3]);
    assert(le_word(s, i) == le_word(t, j));
    assert(be_word(s, i) == be_word(t, j));
}

/// Bytes after the last whole group of four change no word.
proof fn trailing_bytes_dropped(a: Seq<u8>, t: Seq<u8>, little_endian: bool)
    requires
        a.len() % 4 == 0,
        t.len() < 4,
    ensures
        (a + t).len() / 4 == a.len() / 4,
        forall|i: int| 0 <= i < a.len() / 4 ==> #[trigger] chunk(a + t, i) == chunk(a, i),
{
    assert forall|i: int| 0 <= i < a.len() / 4 implies #[trigger] chunk(a + t, i) == chunk(a, i) by {
        assert(4 * i + 4 <= a.len()) by (nonlinear_arith)
            requires
                0 <= i < a.len() / 4,
        ;
        assert(chunk(a + t, i) =~= chunk(a, i));
    }
}

/// Every word that one array gives, the other gives too, when each whole group
/// of four bytes of the first is one of the second.
proof fn words_within(a: Seq<u8>, t1: Seq<u8>, b: Seq<u8>, t2: Seq<u8>, little_endian: bool, x: u32)
    requires
        a.len() % 4 == 0,
        b.len() % 4 == 0,
        t1.len() < 4,
        t2.len() < 4,
        chunks_within(a, b),
        words_in_order(a + t1, little_endian).contains(x),
    ensures
        words_in_order(b + t2, little_endian).contains(x),
{
    trailing_bytes_dropped(a, t1, little_endian);
    trailing_bytes_dropped(b, t2, little_endian);
    let wa = words_in_order(a + t1, little_endian);
    let i = choose|i: int| 0 <= i < wa.len() && wa[i] == x;
    let j = choose|j: int| 0 <= j < b.len() / 4 && #[trigger] chunk(a, i) == #[trigger] chunk(b, j);
    assert(chunk(a + t1, i) == chunk(a, i));
    assert(chunk(b + t2, j) == chunk(b, j));
    word_of_chunk(a + t1, i, b + t2, j, little_endian);
    let wb = words_in_order(b + t2, little_endian);
    assert(wb[j] == x);
}

/// The states that a state array lists, read in a given byte order, do not
/// depend on the order in which the compositor lists them, on repetitions,
/// or on bytes after the last whole word: two arrays with the same words
/// give the same states.
pub proof fn state_order_and_repeats_do_not_matter(
    a: Seq<u8>,
    t1: Seq<u8>,
    b: Seq<u8>,
    t2: Seq<u8>,
    little_endian: bool,
)
    requires
        a.len() % 4 == 0,
        b.len() % 4 == 0,
        t1.len() < 4,
        t2.len() < 4,
        chunks_within(a, b),
        chunks_within(b, a),
    ensures
        spec_wstates(words_in_order(a + t1, little_endian)) == spec_wstates(words_in_order(b + t2, little_endian)),
{
    let wa = words_in_order(a + t1, little_endian);
    let wb = words_in_order(b + t2, little_endian);
    assert forall|x: u32| wa.contains(x) <==> wb.contains(x) by {
        if wa.contains(x) {
            words_within(a, t1, b, t2, little_endian, x);
        }
        if wb.contains(x) {
            words_within(b, t2, a, t1, little_endian, x);
        }
    }
    assert(wa.contains(STATE_MAXIMIZED) == wb.contains(STATE_MAXIMIZED));
    assert(wa.contains(STATE_MINIMIZED) == wb.contains(STATE_MINIMIZED));
    assert(wa.contains(STATE_ACTIVATED) == wb.contains(STATE_ACTIVATED));
    assert(wa.contains(STATE_FULLSCREEN) == wb.contains(STATE_FULLSCREEN));
}

/// Each action sends its own request of the protocol, and no other action
/// sends it: maximize sends set-maximized, minimize set-minimized, close
/// close, and so on, one to one.
pub proof fn each_action_sends_its_own_request(s: ToplevelState, action: ToplevelAction, request: ToplevelRequest)
    requires
        s.is_request_for(action, request),
    ensures
        (request is Activate) <==> action == ToplevelAction::Activate,
        (request is SetFullscreen) <==> action == ToplevelAction::SetFullscreen,
        (request is SetMaximized) <==> action == ToplevelAction::SetMaximize,
        (request is SetMinimized) <==> action == ToplevelAction::SetMinimize,
        (request is UnsetFullscreen) <==> action == ToplevelAction::UnsetFullscreen,
        (request is UnsetMaximized) <==> action == ToplevelAction::UnsetMaximize,
        (request is UnsetMinimized) <==> action == ToplevelAction::UnsetMinimize,
        (request is Close) <==> action == ToplevelAction::Close,
        request matches ToplevelRequest::Activate { seat } ==> (seat is Some <==> s.seat is Some),
        request matches ToplevelRequest::SetFullscreen { output } ==> (output is Some <==> s.output is Some),
{
}

/// Two different actions never send the same request.
pub proof fn different_actions_send_different_requests(
    s: ToplevelState,
    a1: ToplevelAction,
    r1: ToplevelRequest,
    a2: ToplevelAction,
    r2: ToplevelRequest,
)
    requires
        s.is_request_for(a1, r1),
        s.is_request_for(a2, r2),
        a1 != a2,
    ensures
        r1 != r2,
{
    each_action_sends_its_own_request(s, a1, r1);
    each_action_sends_its_own_request(s, a2, r2);
}

/// Each state is named by its code of the protocol, and a state array names a
/// state exactly when it holds that state's code.
pub proof fn states_are_named_by_their_codes(words: Seq<u32>, w: ToplevelWState)
    ensures
        ToplevelWState::Maximized.spec_code() == STATE_MAXIMIZED,
        ToplevelWState::Minimized.spec_code() == STATE_MINIMIZED,
        ToplevelWState::Activated.spec_code() == STATE_ACTIVATED,
        ToplevelWState::Fullscreen.spec_code() == STATE_FULLSCREEN,
        spec_wstates(words).contains(w) <==> words.contains(w.spec_code()),
{
    let r = spec_wstates(words);
    if words.contains(w.spec_code()) {
        wstates_distinct_and_ordered(words);
        let a = if words.contains(STATE_MAXIMIZED) { seq![ToplevelWState::Maximized] } else { seq![] };
        let b = if words.contains(STATE_MINIMIZED) { seq![ToplevelWState::Minimized] } else { seq![] };
        let c = if words.contains(STATE_ACTIVATED) { seq![ToplevelWState::Activated] } else { seq![] };
        let d = if words.contains(STATE_FULLSCREEN) { seq![ToplevelWState::Fullscreen] } else { seq![] };
        assert(r == a + b + c + d);
        match w {
            ToplevelWState::Maximized => assert(r[0] == w),
            ToplevelWState::Minimized => assert(r[a.len() as int] == w),
            ToplevelWState::Activated => assert(r[(a.len() + b.len()) as int] == w),
            ToplevelWState::Fullscreen => assert(r[(a.len() + b.len() + c.len()) as int] == w),
        }
    }
    if r.contains(w) {
        wstates_distinct_and_ordered(words);
        let i = choose|i: int| 0 <= i < r.len() && r[i] == w;
        assert(words.contains(r[i].spec_code()));
    }
}

/// Two optional state lists with the same contents are both absent, or both
/// present with the same states.
pub proof fn same_wstates_means_same_states(a: Option<Vec<ToplevelWState>>, b: Option<Vec<ToplevelWState>>)
    requires
        same_wstates(a, b),
    ensures
        a is None <==> b is None,
        a is Some ==> a->0@ == b->0@,
{
}

/// Read least significant byte first, a word's low byte is the first of its
/// four bytes and its high byte the last; read most significant byte first,
/// the other way round.
pub proof fn byte_orders_place_the_bytes(bytes: Seq<u8>, i: int)
    requires
        0 <= i < bytes.len() / 4,
    ensures
        words_in_order(bytes, true)[i] % 0x100 == bytes[4 * i],
        words_in_order(bytes, true)[i] / 0x100_0000 == bytes[4 * i + 3],
        words_in_order(bytes, false)[i] % 0x100 == bytes[4 * i + 3],
        words_in_order(bytes, false)[i] / 0x100_0000 == bytes[4 * i],
{
    assert(4 * i + 4 <= bytes.len()) by (nonlinear_arith)
        requires
            0 <= i < bytes.len() / 4,
    ;
    let b0 = bytes[4 * i];
    let b1 = bytes[4 * i + 1];
    let b2 = bytes[4 * i + 2];
    let b3 = bytes[4 * i + 3];
    assert((b0 + 0x100 * b1 + 0x1_0000 * b2 + 0x100_0000 * b3) as u32 % 0x100 == b0
        && (b0 + 0x100 * b1 + 0x1_0000 * b2 + 0x100_0000 * b3) as u32 / 0x100_0000 == b3) by (bit_vector)
        requires
            b0 < 256 && b1 < 256 && b2 < 256 && b3 < 256,
    ;
    assert((b3 + 0x100 * b2 + 0x1_0000 * b1 + 0x100_0000 * b0) as u32 % 0x100 == b3
        && (b3 + 0x100 * b2 + 0x1_0000 * b1 + 0x100_0000 * b0) as u32 / 0x100_0000 == b0) by (bit_vector)
        requires
            b0 < 256 && b1 < 256 && b2 < 256 && b3 < 256,
    ;
}

} // verus!
