use vstd::prelude::*;
use vstd::string::StringExecFns;
use wayland_client::protocol::{wl_output::WlOutput, wl_seat::WlSeat};
use wayland_protocols_wlr::foreign_toplevel::v1::client::zwlr_foreign_toplevel_handle_v1::ZwlrForeignToplevelHandleV1;

use crate::copies::copy_vec;
use super::errors::{ToplevelHandlerError, ToplevelHandlerErrorCodes};
use super::slots::{canonical_key, key_index, key_version, toplevel_slot_versions, toplevel_slots, ToplevelSlots};

verus! {

/// A toplevel's key: the number of its slot map key.
pub type ToplevelKey = u64;

/// The protocol's code of the maximized state.
pub const STATE_MAXIMIZED: u32 = 0;

/// The protocol's code of the minimized state.
pub const STATE_MINIMIZED: u32 = 1;

/// The protocol's code of the activated state.
pub const STATE_ACTIVATED: u32 = 2;

/// The protocol's code of the fullscreen state.
pub const STATE_FULLSCREEN: u32 = 3;

/// A state that a toplevel can be in.
#[derive(Debug, Clone, Copy, PartialEq, Eq, Structural)]
pub enum ToplevelWState {
    Maximized,
    Minimized,
    Activated,
    Fullscreen,
}

impl ToplevelWState {
    pub open spec fn spec_code(self) -> u32 {
        match self {
            ToplevelWState::Maximized => STATE_MAXIMIZED,
            ToplevelWState::Minimized => STATE_MINIMIZED,
            ToplevelWState::Activated => STATE_ACTIVATED,
            ToplevelWState::Fullscreen => STATE_FULLSCREEN,
        }
    }

    /// The protocol's code of the state.
    pub fn code(&self) -> (res: u32)
        ensures
            res == self.spec_code(),
    {
        match self {
            ToplevelWState::Maximized => STATE_MAXIMIZED,
            ToplevelWState::Minimized => STATE_MINIMIZED,
            ToplevelWState::Activated => STATE_ACTIVATED,
            ToplevelWState::Fullscreen => STATE_FULLSCREEN,
        }
    }
}

/// The states named by a list of state codes: each known state once, in the
/// order maximized, minimized, activated, fullscreen; unknown codes and
/// repetitions are ignored.
pub open spec fn spec_wstates(words: Seq<u32>) -> Seq<ToplevelWState> {
    (if words.contains(STATE_MAXIMIZED) { seq![ToplevelWState::Maximized] } else { seq![] })
    + (if words.contains(STATE_MINIMIZED) { seq![ToplevelWState::Minimized] } else { seq![] })
    + (if words.contains(STATE_ACTIVATED) { seq![ToplevelWState::Activated] } else { seq![] })
    + (if words.contains(STATE_FULLSCREEN) { seq![ToplevelWState::Fullscreen] } else { seq![] })
}

fn contains_word(words: &Vec<u32>, word: u32) -> (res: bool)
    ensures
        res == words@.contains(word),
{
    let mut i: usize = 0;
    while i < words.len()
        invariant
            i <= words.len(),
            forall|j: int| 0 <= j < i ==> words@[j] != word,
        decreases words.len() - i,
    {
        if words[i] == word {
            assert(words@[i as int] == word);
            return true;
        }
        i = i + 1;
    }
    false
}

/// The states named by a list of state codes.
pub fn wstates_from_words(words: &Vec<u32>) -> (res: Vec<ToplevelWState>)
    ensures
        res@ == spec_wstates(words@),
{
    let mut wstate: Vec<ToplevelWState> = Vec::new();
    if contains_word(words, STATE_MAXIMIZED) {
        wstate.push(ToplevelWState::Maximized);
    }
    if contains_word(words, STATE_MINIMIZED) {
        wstate.push(ToplevelWState::Minimized);
    }
    if contains_word(words, STATE_ACTIVATED) {
        wstate.push(ToplevelWState::Activated);
    }
    if contains_word(words, STATE_FULLSCREEN) {
        wstate.push(ToplevelWState::Fullscreen);
    }
    assert(wstate@ =~= spec_wstates(words@));
    wstate
}

/// The word that the `i`-th four bytes make, least significant byte first.
pub open spec fn le_word(bytes: Seq<u8>, i: int) -> int {
    bytes[4 * i] + 0x100 * bytes[4 * i + 1] + 0x1_0000 * bytes[4 * i + 2] + 0x100_0000
        * bytes[4 * i + 3]
}

/// The word that the `i`-th four bytes make, most significant byte first.
pub open spec fn be_word(bytes: Seq<u8>, i: int) -> int {
    bytes[4 * i + 3] + 0x100 * bytes[4 * i + 2] + 0x1_0000 * bytes[4 * i + 1] + 0x100_0000
        * bytes[4 * i]
}

/// The words of a byte array, each whole group of four bytes read in the
/// given byte order; trailing bytes are dropped.
pub open spec fn words_in_order(bytes: Seq<u8>, little_endian: bool) -> Seq<u32> {
    Seq::new(
        bytes.len() / 4,
        |i: int|
            if little_endian {
                le_word(bytes, i) as u32
            } else {
                be_word(bytes, i) as u32
            },
    )
}

/// `u32::from_ne_bytes`: the four bytes read in the machine's byte order.
/// Which order that is depends on the machine, so only the two possible
/// readings are stated.
#[verifier::external_body]
fn u32_from_ne_bytes(bytes: [u8; 4]) -> (res: u32)
    ensures
        res == le_word(bytes@, 0) || res == be_word(bytes@, 0),
{
    u32::from_ne_bytes(bytes)
}

/// Whether the machine reads words least significant byte first: the bytes
/// 1, 0, 0, 0 read in its order make 1 on such a machine, and `0x100_0000`
/// on one that reads most significant byte first.
fn machine_is_little_endian() -> bool {
    let probe: [u8; 4] = [1, 0, 0, 0];
    let w = u32_from_ne_bytes(probe);
    w == 1
}

/// The word that four bytes make, least significant byte first.
fn le_bytes_word(b0: u8, b1: u8, b2: u8, b3: u8) -> (res: u32)
    ensures
        res == b0 + 0x100 * b1 + 0x1_0000 * b2 + 0x100_0000 * b3,
{
    b0 as u32 + 0x100 * (b1 as u32) + 0x1_0000 * (b2 as u32) + 0x100_0000 * (b3 as u32)
}

/// The words of a state array as the compositor sends it, read in the given
/// byte order.
pub fn state_words(state: &Vec<u8>, little_endian: bool) -> (res: Vec<u32>)
    ensures
        res@ == words_in_order(state@, little_endian),
{
    let len = state.len();
    let n = len / 4;
    let mut words: Vec<u32> = Vec::new();
    let mut i: usize = 0;
    while i < n
        invariant
            len == state@.len(),
            n == len / 4,
            i <= n,
            words@ == words_in_order(state@, little_endian).subrange(0, i as int),
        decreases n - i,
    {
        assert(4 * i + 3 < len) by (nonlinear_arith)
            requires
                i < n,
                n == len / 4,
        ;
        let w = if little_endian {
            le_bytes_word(state[4 * i], state[4 * i + 1], state[4 * i + 2], state[4 * i + 3])
        } else {
            le_bytes_word(state[4 * i + 3], state[4 * i + 2], state[4 * i + 1], state[4 * i])
        };
        words.push(w);
        assert(words@ =~= words_in_order(state@, little_endian).subrange(0, i + 1));
        i = i + 1;
    }
    assert(words@ =~= words_in_order(state@, little_endian));
    words
}

/// The states that a state array lists, read in the given byte order.
pub fn wstates_in_order(state: &Vec<u8>, little_endian: bool) -> (res: Vec<ToplevelWState>)
    ensures
        res@ == spec_wstates(words_in_order(state@, little_endian)),
{
    let words = state_words(state, little_endian);
    wstates_from_words(&words)
}

/// The states of a toplevel as the compositor's state array lists them, read
/// in the machine's byte order: the same order for every word.
pub fn map_state_to_wstate(state: Vec<u8>) -> (res: Vec<ToplevelWState>)
    ensures
        exists|little_endian: bool| res@ == spec_wstates(words_in_order(state@, little_endian)),
{
    let little_endian = machine_is_little_endian();
    wstates_in_order(&state, little_endian)
}

/// Two optional state lists with the same contents.
pub open spec fn same_wstates(a: Option<Vec<ToplevelWState>>, b: Option<Vec<ToplevelWState>>) -> bool {
    match (a, b) {
        (None, None) => true,
        (Some(x), Some(y)) => x@ == y@,
        _ => false,
    }
}

fn copy_optional_wstates(states: &Option<Vec<ToplevelWState>>) -> (res: Option<Vec<ToplevelWState>>)
    ensures
        same_wstates(res, *states),
{
    match states {
        Some(s) => Some(copy_vec(s)),
        None => None,
    }
}

/// What the toplevel handler tells its subscribers.
#[derive(Debug)]
#[allow(inconsistent_fields)]
pub enum ToplevelEvent {
    Created { key: ToplevelKey },
    Title { key: ToplevelKey, title: String },
    AppId { key: ToplevelKey, app_id: String },
    Done { key: ToplevelKey, title: String, app_id: String, state: Option<Vec<ToplevelWState>> },
    State { key: ToplevelKey, state: Vec<ToplevelWState> },
    Closed { key: ToplevelKey },
    OutputEnter { key: ToplevelKey, output: WlOutput },
    OutputLeave { key: ToplevelKey, output: WlOutput },
    Parent { key: ToplevelKey, parent: Option<ZwlrForeignToplevelHandleV1> },
}

/// An open toplevel: what the compositor said of it, and its handle.
#[derive(Debug)]
pub struct Toplevel {
    pub title: String,
    pub app_id: String,
    pub state: Option<Vec<ToplevelWState>>,
    pub handle: ZwlrForeignToplevelHandleV1,
}

/// What a client can ask of a toplevel.
#[derive(Debug)]
pub struct ToplevelMeta {
    pub app_id: String,
    pub title: String,
    pub state: Option<Vec<ToplevelWState>>,
}

impl Toplevel {
    /// A toplevel the compositor has said nothing of yet.
    pub open spec fn is_new(self, handle: ZwlrForeignToplevelHandleV1) -> bool {
        &&& self.title@ == Seq::<char>::empty()
        &&& self.app_id@ == Seq::<char>::empty()
        &&& self.state is None
        &&& self.handle == handle
    }

    pub fn new(handle: ZwlrForeignToplevelHandleV1) -> (res: Self)
        ensures
            res.is_new(handle),
    {
        Toplevel { title: String::new(), app_id: String::new(), state: None, handle }
    }
}

/// The requests that can be sent to a toplevel.
#[derive(Debug, Clone, Copy, PartialEq, Eq, Structural)]
pub enum ToplevelAction {
    Activate,
    SetFullscreen,
    SetMaximize,
    SetMinimize,
    UnsetFullscreen,
    UnsetMaximize,
    UnsetMinimize,
    Close,
}

/// A request to send on a toplevel's handle, with the objects it names.
#[derive(Debug)]
pub enum ToplevelRequest<'a> {
    /// Activate on the seat, if there is one; without a seat nothing is sent.
    Activate { seat: Option<&'a WlSeat> },
    SetFullscreen { output: Option<&'a WlOutput> },
    SetMaximized,
    SetMinimized,
    UnsetFullscreen,
    UnsetMaximized,
    UnsetMinimized,
    Close,
}

/// The open toplevels, and the seat and output that requests go to. Beside
/// them, as ghost state, every key ever handed out, and the slots whose
/// version has wrapped around.
pub struct ToplevelState {
    pub seat: Option<WlSeat>,
    pub output: Option<WlOutput>,
    pub toplevels: ToplevelSlots,
    pub issued: Ghost<Set<ToplevelKey>>,
    pub wrapped: Ghost<Set<int>>,
}

/// The error of a request on a toplevel that is not open.
pub open spec fn is_not_found(e: ToplevelHandlerError) -> bool {
    e.code == ToplevelHandlerErrorCodes::ToplevelNotFound && e.message@ == "toplevel not found"@
}

fn not_found() -> (e: ToplevelHandlerError)
    ensures
        is_not_found(e),
{
    ToplevelHandlerError::new(ToplevelHandlerErrorCodes::ToplevelNotFound, String::from_str("toplevel not found"))
}

impl ToplevelState {
    /// The open toplevels by key.
    pub open spec fn live(&self) -> Map<ToplevelKey, Toplevel> {
        toplevel_slots(self.toplevels)
    }

    /// The version of each slot of the slot map, by slot index.
    pub open spec fn versions(&self) -> Map<int, int> {
        toplevel_slot_versions(self.toplevels)
    }

    /// Finitely many toplevels are open, each under a key that was handed out
    /// and that carries its slot's current, odd, version. Every key handed out
    /// names an allocated slot, with a version no higher than the slot's
    /// unless the slot's version has wrapped around.
    pub open spec fn wf(&self) -> bool {
        &&& self.live().dom().finite()
        &&& forall|k: ToplevelKey| #[trigger] self.live().contains_key(k) ==> {
            &&& key_version(k) % 2 == 1
            &&& self.versions().contains_key(key_index(k))
            &&& self.versions()[key_index(k)] == key_version(k)
            &&& self.issued@.contains(k)
        }
        &&& forall|i: int| #[trigger] self.versions().contains_key(i) ==> 0 <= self.versions()[i] <= u32::MAX
        &&& forall|k: ToplevelKey| #[trigger] self.issued@.contains(k) ==> {
            &&& self.versions().contains_key(key_index(k))
            &&& (key_version(k) <= self.versions()[key_index(k)] || self.wrapped@.contains(key_index(k)))
        }
    }

    /// The seat and output are those of `other`.
    pub open spec fn same_objects(&self, other: &Self) -> bool {
        self.seat == other.seat && self.output == other.output
    }

    /// The keys handed out and the wrapped slots are those of `other`.
    pub open spec fn same_history(&self, other: &Self) -> bool {
        self.issued@ == other.issued@ && self.wrapped@ == other.wrapped@
    }

    /// A state with no toplevel.
    pub fn new(seat: Option<WlSeat>, output: Option<WlOutput>) -> (res: Self)
        ensures
            res.wf(),
            res.live() == Map::<ToplevelKey, Toplevel>::empty(),
            res.seat == seat,
            res.output == output,
            res.issued@ == Set::<ToplevelKey>::empty(),
    {
        ToplevelState {
            seat,
            output,
            toplevels: ToplevelSlots::with_key(),
            issued: Ghost(Set::empty()),
            wrapped: Ghost(Set::empty()),
        }
    }

    /// A new toplevel: it is stored under a fresh key, with no title, app id or
    /// state yet, and its key is announced. The key differs from every key
    /// handed out before, closed toplevels' included, unless its slot's
    /// version has wrapped around (after 2^31 toplevels in that one slot).
    pub fn on_toplevel(&mut self, handle: ZwlrForeignToplevelHandleV1) -> (res: (ToplevelKey, ToplevelEvent))
        requires
            old(self).wf(),
            old(self).live().len() < u32::MAX - 1,
        ensures
            final(self).wf(),
            final(self).same_objects(old(self)),
            !old(self).live().contains_key(res.0),
            !old(self).wrapped@.contains(key_index(res.0)) ==> !old(self).issued@.contains(res.0),
            final(self).issued@ == old(self).issued@.insert(res.0),
            final(self).wrapped@ == old(self).wrapped@,
            final(self).live() == old(self).live().insert(res.0, final(self).live()[res.0]),
            final(self).live()[res.0].is_new(handle),
            res.1 == (ToplevelEvent::Created { key: res.0 }),
    {
        let key = self.toplevels.insert(Toplevel::new(handle));
        proof {
            let old_versions = old(self).versions();
            self.issued@ = self.issued@.insert(key);
            assert forall|k: ToplevelKey| #[trigger] self.live().contains_key(k) implies {
                &&& key_version(k) % 2 == 1
                &&& self.versions().contains_key(key_index(k))
                &&& self.versions()[key_index(k)] == key_version(k)
                &&& self.issued@.contains(k)
            } by {
                if k != key {
                    assert(old(self).live().contains_key(k));
                    if key_index(k) == key_index(key) {
                        assert(old_versions[key_index(k)] % 2 == 1);
                    }
                }
            }
            assert forall|k: ToplevelKey| #[trigger] self.issued@.contains(k) implies {
                &&& self.versions().contains_key(key_index(k))
                &&& (key_version(k) <= self.versions()[key_index(k)] || self.wrapped@.contains(key_index(k)))
            } by {
                if k != key {
                    assert(old(self).issued@.contains(k));
                }
            }
            assert forall|i: int| #[trigger] self.versions().contains_key(i) implies 0 <= self.versions()[i] <= u32::MAX by {
                if i != key_index(key) {
                    assert(old_versions.contains_key(i));
                }
            }
            if !old(self).wrapped@.contains(key_index(key)) && old(self).issued@.contains(key) {
                assert(old_versions.contains_key(key_index(key)));
            }
        }
        (key, ToplevelEvent::Created { key })
    }

    /// A new title for an open toplevel: it is stored and announced.
    pub fn on_title(&mut self, key: ToplevelKey, title: String) -> (res: ToplevelEvent)
        requires
            old(self).wf(),
            old(self).live().contains_key(key),
        ensures
            final(self).wf(),
            final(self).same_objects(old(self)),
            final(self).same_history(old(self)),
            final(self).live() == old(self).live().insert(
                key,
                Toplevel { title: title, ..old(self).live()[key] },
            ),
            res == (ToplevelEvent::Title { key, title }),
    {
        assert(canonical_key(key) == key);
        if let Some(t) = self.toplevels.get_mut(key) {
            t.title = title.clone();
        }
        ToplevelEvent::Title { key, title }
    }

    /// A new app id for an open toplevel: it is stored and announced.
    pub fn on_app_id(&mut self, key: ToplevelKey, app_id: String) -> (res: ToplevelEvent)
        requires
            old(self).wf(),
            old(self).live().contains_key(key),
        ensures
            final(self).wf(),
            final(self).same_objects(old(self)),
            final(self).same_history(old(self)),
            final(self).live() == old(self).live().insert(
                key,
                Toplevel { app_id: app_id, ..old(self).live()[key] },
            ),
            res == (ToplevelEvent::AppId { key, app_id }),
    {
        assert(canonical_key(key) == key);
        if let Some(t) = self.toplevels.get_mut(key) {
            t.app_id = app_id.clone();
        }
        ToplevelEvent::AppId { key, app_id }
    }

    /// A new state array for an open toplevel: the states it names are
    /// stored and announced.
    pub fn on_state(&mut self, key: ToplevelKey, state: Vec<u8>) -> (res: ToplevelEvent)
        requires
            old(self).wf(),
            old(self).live().contains_key(key),
        ensures
            final(self).wf(),
            final(self).same_objects(old(self)),
            final(self).same_history(old(self)),
            final(self).live().dom() == old(self).live().dom(),
            forall|k: ToplevelKey|
                #[trigger] old(self).live().contains_key(k) && k != key ==> final(self).live()[k]
                    == old(self).live()[k],
            final(self).live()[key].title == old(self).live()[key].title,
            final(self).live()[key].app_id == old(self).live()[key].app_id,
            final(self).live()[key].handle == old(self).live()[key].handle,
            final(self).live()[key].state is Some,
            exists|little_endian: bool|
                final(self).live()[key].state->0@ == spec_wstates(words_in_order(state@, little_endian)),
            res matches ToplevelEvent::State { key: k, state: s } && k == key && s@
                == final(self).live()[key].state->0@,
    {
        assert(canonical_key(key) == key);
        let wstates = map_state_to_wstate(state);
        let announced = copy_vec(&wstates);
        if let Some(t) = self.toplevels.get_mut(key) {
            t.state = Some(wstates);
        }
        ToplevelEvent::State { key, state: announced }
    }

    /// The compositor has sent all changes of an open toplevel: its title,
    /// app id and state are announced together.
    pub fn on_done(&self, key: ToplevelKey) -> (res: ToplevelEvent)
        requires
            self.wf(),
            self.live().contains_key(key),
        ensures
            res matches ToplevelEvent::Done { key: k, title, app_id, state } && k == key && title
                == self.live()[key].title && app_id == self.live()[key].app_id && same_wstates(
                state,
                self.live()[key].state,
            ),
    {
        assert(canonical_key(key) == key);
        match self.toplevels.get(key) {
            Some(t) => ToplevelEvent::Done {
                key,
                title: t.title.clone(),
                app_id: t.app_id.clone(),
                state: copy_optional_wstates(&t.state),
            },
            None => {
                assert(false);
                ToplevelEvent::Closed { key }
            },
        }
    }

    /// An open toplevel was closed: it is forgotten, and its key announced. Its
    /// slot's version moves on, so the key will not be handed out again; when
    /// the version was the last one, it wraps around and the slot is marked.
    pub fn on_closed(&mut self, key: ToplevelKey) -> (res: ToplevelEvent)
        requires
            old(self).wf(),
            old(self).live().contains_key(key),
        ensures
            final(self).wf(),
            final(self).same_objects(old(self)),
            final(self).issued@ == old(self).issued@,
            final(self).wrapped@ == if key_version(key) == u32::MAX {
                old(self).wrapped@.insert(key_index(key))
            } else {
                old(self).wrapped@
            },
            final(self).live() == old(self).live().remove(key),
            res == (ToplevelEvent::Closed { key }),
    {
        assert(canonical_key(key) == key);
        let _ = self.toplevels.remove(key);
        proof {
            let old_versions = old(self).versions();
            if key_version(key) == u32::MAX {
                self.wrapped@ = self.wrapped@.insert(key_index(key));
            }
            assert forall|k: ToplevelKey| #[trigger] self.live().contains_key(k) implies {
                &&& key_version(k) % 2 == 1
                &&& self.versions().contains_key(key_index(k))
                &&& self.versions()[key_index(k)] == key_version(k)
                &&& self.issued@.contains(k)
            } by {
                assert(old(self).live().contains_key(k));
                if key_index(k) == key_index(key) {
                    assert(key_version(k) == key_version(key));
                    assert(k == key_version(k) * 0x1_0000_0000 + key_index(k));
                    assert(key == key_version(key) * 0x1_0000_0000 + key_index(key));
                }
            }
            assert forall|k: ToplevelKey| #[trigger] self.issued@.contains(k) implies {
                &&& self.versions().contains_key(key_index(k))
                &&& (key_version(k) <= self.versions()[key_index(k)] || self.wrapped@.contains(key_index(k)))
            } by {
                assert(old(self).issued@.contains(k));
            }
            assert forall|i: int| #[trigger] self.versions().contains_key(i) implies 0 <= self.versions()[i] <= u32::MAX by {
                assert(old_versions.contains_key(i));
            }
        }
        ToplevelEvent::Closed { key }
    }

    /// A toplevel became visible on an output.
    pub fn on_output_enter(&self, key: ToplevelKey, output: WlOutput) -> (res: ToplevelEvent)
        ensures
            res == (ToplevelEvent::OutputEnter { key, output }),
    {
        ToplevelEvent::OutputEnter { key, output }
    }

    /// A toplevel stopped being visible on an output.
    pub fn on_output_leave(&self, key: ToplevelKey, output: WlOutput) -> (res: ToplevelEvent)
        ensures
            res == (ToplevelEvent::OutputLeave { key, output }),
    {
        ToplevelEvent::OutputLeave { key, output }
    }

    /// A toplevel's parent changed.
    pub fn on_parent(&self, key: ToplevelKey, parent: Option<ZwlrForeignToplevelHandleV1>) -> (res: ToplevelEvent)
        ensures
            res == (ToplevelEvent::Parent { key, parent }),
    {
        ToplevelEvent::Parent { key, parent }
    }

    /// The keys of all open toplevels, each once, in the order of their slots.
    pub fn get_toplevels(&self) -> (res: Vec<ToplevelKey>)
        ensures
            res@.to_set() == self.live().dom(),
            res@.no_duplicates(),
            forall|i: int, j: int|
                0 <= i < j < res@.len() ==> key_index(#[trigger] res@[i]) < key_index(#[trigger] res@[j]),
    {
        let keys = self.toplevels.keys();
        assert forall|i: int, j: int| 0 <= i < keys@.len() && 0 <= j < keys@.len() && i != j implies keys@[i] != keys@[j] by {
            if i < j {
                assert(key_index(keys@[i]) < key_index(keys@[j]));
            } else {
                assert(key_index(keys@[j]) < key_index(keys@[i]));
            }
        }
        keys
    }

    /// What is known of the toplevel with the given key, if it is open.
    pub fn get_toplevel_meta(&self, key: ToplevelKey) -> (res: Option<ToplevelMeta>)
        ensures
            res is Some <==> self.live().contains_key(canonical_key(key)),
            res matches Some(m) ==> {
                let t = self.live()[canonical_key(key)];
                &&& m.title == t.title
                &&& m.app_id == t.app_id
                &&& same_wstates(m.state, t.state)
            },
    {
        match self.toplevels.get(key) {
            Some(t) => Some(
                ToplevelMeta {
                    app_id: t.app_id.clone(),
                    title: t.title.clone(),
                    state: copy_optional_wstates(&t.state),
                },
            ),
            None => None,
        }
    }

    /// The request that an action sends, naming the seat or output it needs.
    pub open spec fn is_request_for(&self, action: ToplevelAction, request: ToplevelRequest) -> bool {
        match action {
            ToplevelAction::Activate => request matches ToplevelRequest::Activate { seat } && (
            seat is Some <==> self.seat is Some) && (seat is Some ==> *seat->0 == self.seat->0),
            ToplevelAction::SetFullscreen => request matches ToplevelRequest::SetFullscreen {
                output,
            } && (output is Some <==> self.output is Some) && (output is Some ==> *output->0
                == self.output->0),
            ToplevelAction::SetMaximize => request matches ToplevelRequest::SetMaximized,
            ToplevelAction::SetMinimize => request matches ToplevelRequest::SetMinimized,
            ToplevelAction::UnsetFullscreen => request matches ToplevelRequest::UnsetFullscreen,
            ToplevelAction::UnsetMaximize => request matches ToplevelRequest::UnsetMaximized,
            ToplevelAction::UnsetMinimize => request matches ToplevelRequest::UnsetMinimized,
            ToplevelAction::Close => request matches ToplevelRequest::Close,
        }
    }

    /// Decides a request on a toplevel: the handle to send it on and what to
    /// send, or `ToplevelNotFound` when no open toplevel has the key.
    pub fn request<'a>(&'a self, key: ToplevelKey, action: ToplevelAction) -> (res: Result<
        (&'a ZwlrForeignToplevelHandleV1, ToplevelRequest<'a>),
        ToplevelHandlerError,
    >)
        ensures
            res is Err <==> !self.live().contains_key(canonical_key(key)),
            res matches Err(e) ==> is_not_found(e),
            res matches Ok((h, r)) ==> *h == self.live()[canonical_key(key)].handle
                && self.is_request_for(action, r),
    {
        let toplevel = match self.toplevels.get(key) {
            Some(t) => t,
            None => {
                return Err(not_found());
            },
        };
        let request = match action {
            ToplevelAction::Activate => ToplevelRequest::Activate { seat: self.seat.as_ref() },
            ToplevelAction::SetFullscreen => ToplevelRequest::SetFullscreen { output: self.output.as_ref() },
            ToplevelAction::SetMaximize => ToplevelRequest::SetMaximized,
            ToplevelAction::SetMinimize => ToplevelRequest::SetMinimized,
            ToplevelAction::UnsetFullscreen => ToplevelRequest::UnsetFullscreen,
            ToplevelAction::UnsetMaximize => ToplevelRequest::UnsetMaximized,
            ToplevelAction::UnsetMinimize => ToplevelRequest::UnsetMinimized,
            ToplevelAction::Close => ToplevelRequest::Close,
        };
        Ok((&toplevel.handle, request))
    }

    /// A seat announced its name: it becomes the seat that activation uses.
    pub fn set_seat(&mut self, seat: WlSeat)
        ensures
            final(self).seat == Some(seat),
            final(self).output == old(self).output,
            final(self).toplevels == old(self).toplevels,
            final(self).same_history(old(self)),
    {
        self.seat = Some(seat);
    }

    /// An output announced its name: it becomes the output that fullscreen uses.
    pub fn set_output(&mut self, output: WlOutput)
        ensures
            final(self).output == Some(output),
            final(self).seat == old(self).seat,
            final(self).toplevels == old(self).toplevels,
            final(self).same_history(old(self)),
    {
        self.output = Some(output);
    }
}

} // verus!
