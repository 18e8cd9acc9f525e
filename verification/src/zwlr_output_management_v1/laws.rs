//! What holds of the output management handler across events and requests.

use vstd::prelude::*;
use wayland_protocols_wlr::output_management::v1::client::zwlr_output_head_v1::ZwlrOutputHeadV1;

use super::errors::OutputManagementHandlerErrorCodes;
use super::handler::{
    describes_head, ConfigurationRequest, serial_after, serial_after_all, without_mode, ObjectKey, OutputHeadMeta, OutputManagementEvent,
    OutputManagementState, SerialEffect,
};
use super::output::output_head::{known, HeadNotice, WlOutputHeadView, SCALE_ONE_BITS};

verus! {

/// Before the manager's first `done`, and after it is finished, no head can be
/// configured: every configuration fails with `NoSerialManagerNotReady`.
pub proof fn no_configuration_without_serial(s: OutputManagementState, head_id: ObjectKey)
    requires
        s.output_manager_serial is None,
    ensures
        s.config_failure(head_id) == Some(OutputManagementHandlerErrorCodes::NoSerialManagerNotReady),
{
}

/// Events other than `done` leave a missing serial missing.
proof fn no_serial_without_done(effects: Seq<SerialEffect>)
    requires
        forall|i: int| 0 <= i < effects.len() ==> !(#[trigger] effects[i] is Done),
    ensures
        serial_after_all(None, effects) is None,
    decreases effects.len(),
{
    if effects.len() > 0 {
        assert(!(effects[effects.len() - 1] is Done));
        no_serial_without_done(effects.drop_last());
    }
}

/// After the manager is finished, no head can be configured until the next
/// `done`, whatever other events come in between: every configuration fails
/// with `NoSerialManagerNotReady`.
pub proof fn no_configuration_after_finish_until_done(
    serial: Option<u32>,
    effects: Seq<SerialEffect>,
    s: OutputManagementState,
    head_id: ObjectKey,
)
    requires
        forall|i: int| 0 <= i < effects.len() ==> !(#[trigger] effects[i] is Done),
        s.output_manager_serial == serial_after_all(serial_after(serial, SerialEffect::Cleared), effects),
    ensures
        s.config_failure(head_id) == Some(OutputManagementHandlerErrorCodes::NoSerialManagerNotReady),
{
    no_serial_without_done(effects);
}

/// Once the manager has sent a serial, every known head can be configured,
/// and an unknown one fails with `HeadNotFoundError`.
pub proof fn serial_makes_known_heads_configurable(s: OutputManagementState, head_id: ObjectKey)
    requires
        s.output_manager_serial is Some,
    ensures
        s.config_failure(head_id) is None <==> s.heads_view().contains_key(head_id),
        !s.heads_view().contains_key(head_id) ==> s.config_failure(head_id) == Some(
            OutputManagementHandlerErrorCodes::HeadNotFoundError,
        ),
{
}

/// A head the manager announces can be read back at once: enabled no,
/// scale one, no modes, empty texts.
pub proof fn announced_head_reads_fresh(heads: Map<ObjectKey, WlOutputHeadView>, id: ObjectKey, head: ZwlrOutputHeadV1)
    ensures
        heads.insert(id, WlOutputHeadView::fresh(head)).contains_key(id),
        heads.insert(id, WlOutputHeadView::fresh(head))[id].scale_bits == SCALE_ONE_BITS,
        heads.insert(id, WlOutputHeadView::fresh(head))[id].modes == Seq::<ObjectKey>::empty(),
        !heads.insert(id, WlOutputHeadView::fresh(head))[id].enabled,
        heads.insert(id, WlOutputHeadView::fresh(head))[id].output_head == head,
{
}

/// What an event on a head says of it is what the head holds afterwards,
/// and so what `get_head` and `get_heads` report of it; a new mode is added
/// at the end of the head's mode list.
pub proof fn head_events_read_back(prior: WlOutputHeadView, notice: HeadNotice)
    ensures
        ({
            let after = OutputManagementState::head_after(prior, notice);
            match notice {
                HeadNotice::Name { name } => after.name == name@,
                HeadNotice::Description { description } => after.description == description@,
                HeadNotice::PhysicalSize { width, height } => after.width == width && after.height == height,
                HeadNotice::Mode { mode_id, mode } => after.modes == prior.modes.push(mode_id),
                HeadNotice::Enabled { enabled } => after.enabled == (enabled != 0),
                HeadNotice::CurrentMode { mode_id } => after.current_mode == Some(mode_id),
                HeadNotice::Position { x, y } => after.pos_x == x && after.pos_y == y,
                HeadNotice::Transform { transform } => after.transform == known(transform),
                HeadNotice::Scale { scale_bits } => after.scale_bits == scale_bits,
                HeadNotice::Finished => after == prior,
                HeadNotice::Make { make } => after.make == make@,
                HeadNotice::Model { model } => after.model == model@,
                HeadNotice::SerialNumber { serial_number } => after.serial_number == serial_number@,
                HeadNotice::AdaptiveSync { state } => after.adaptive_sync == known(state),
            }
        }),
        OutputManagementState::head_after(prior, notice).output_head == prior.output_head,
{
}

/// A finished head cannot be read any more, and configuring it fails with
/// `HeadNotFoundError` (or `NoSerialManagerNotReady` without a serial).
pub proof fn finished_head_is_gone(before: OutputManagementState, after: OutputManagementState, id: ObjectKey)
    requires
        after.heads_view() == before.heads_view().remove(id),
    ensures
        !after.heads_view().contains_key(id),
        after.output_manager_serial is Some ==> after.config_failure(id) == Some(
            OutputManagementHandlerErrorCodes::HeadNotFoundError,
        ),
        after.output_manager_serial is None ==> after.config_failure(id) == Some(
            OutputManagementHandlerErrorCodes::NoSerialManagerNotReady,
        ),
{
}

proof fn push_contains(s: Seq<ObjectKey>, x: ObjectKey, m: ObjectKey)
    ensures
        s.push(x).contains(m) <==> s.contains(m) || x == m,
{
    if s.contains(m) {
        let i = choose|i: int| 0 <= i < s.len() && s[i] == m;
        assert(s.push(x)[i] == m);
    }
    if x == m {
        assert(s.push(x)[s.len() as int] == m);
    }
    if s.push(x).contains(m) {
        let i = choose|i: int| 0 <= i < s.push(x).len() && s.push(x)[i] == m;
        if i < s.len() {
            assert(s[i] == m);
        }
    }
}

/// A mode list without a mode no longer holds it, and keeps every other
/// mode.
pub proof fn without_mode_removes_only_that_mode(modes: Seq<ObjectKey>, id: ObjectKey)
    ensures
        !without_mode(modes, id).contains(id),
        forall|m: ObjectKey| m != id ==> (#[trigger] without_mode(modes, id).contains(m) <==> modes.contains(m)),
        without_mode(modes, id).len() <= modes.len(),
    decreases modes.len(),
{
    if modes.len() > 0 {
        let init = modes.drop_last();
        let last = modes.last();
        without_mode_removes_only_that_mode(init, id);
        let rest = without_mode(init, id);
        assert(modes == init.push(last));
        assert forall|m: ObjectKey| m != id implies (#[trigger] without_mode(modes, id).contains(m)
            <==> modes.contains(m)) by {
            push_contains(init, last, m);
            push_contains(rest, last, m);
        }
        push_contains(rest, last, id);
    }
}

/// Adding a mode to a head and then finishing it leaves the head's mode list
/// as it was without that mode: finishing undoes the announcement.
pub proof fn finishing_a_mode_undoes_its_announcement(modes: Seq<ObjectKey>, id: ObjectKey)
    ensures
        without_mode(modes.push(id), id) == without_mode(modes, id),
{
    assert(modes.push(id).drop_last() == modes);
}

/// After a mode is taken off its head, the head neither lists it nor uses it,
/// and the mode belongs to no head: taking it off again fails with
/// `RemoveModeError`.
pub proof fn removed_mode_is_gone(
    heads: Map<ObjectKey, WlOutputHeadView>,
    mode_to_head_ids: Map<ObjectKey, ObjectKey>,
    id: ObjectKey,
)
    requires
        mode_to_head_ids.contains_key(id),
        heads.contains_key(mode_to_head_ids[id]),
    ensures
        ({
            let after = OutputManagementState::heads_without_mode(heads, mode_to_head_ids, id);
            let head = after[mode_to_head_ids[id]];
            &&& !head.modes.contains(id)
            &&& head.current_mode != Some(id)
        }),
        !mode_to_head_ids.remove(id).contains_key(id),
{
    without_mode_removes_only_that_mode(heads[mode_to_head_ids[id]].modes, id);
}

/// What `get_head` and `get_heads` report of a head is what the head holds:
/// every field of the meta is the head's own, under the head's key.
pub proof fn head_meta_reads_back(meta: OutputHeadMeta, id: ObjectKey, head: WlOutputHeadView)
    requires
        describes_head(meta, id, head),
    ensures
        meta.id == id,
        meta.adaptive_sync == head.adaptive_sync,
        meta.current_mode == head.current_mode,
        meta.description@ == head.description,
        meta.enabled == head.enabled,
        meta.height == head.height,
        meta.width == head.width,
        meta.make@ == head.make,
        meta.model@ == head.model,
        meta.modes@ == head.modes,
        meta.name@ == head.name,
        meta.pos_x == head.pos_x,
        meta.pos_y == head.pos_y,
        meta.scale_bits == head.scale_bits,
        meta.transform == head.transform,
{
}

/// After a `current_mode` event on a head, reading the head back reports that
/// mode as its current one, whatever the head held before.
pub proof fn current_mode_reads_back(
    before: OutputManagementState,
    after: OutputManagementState,
    id: ObjectKey,
    head: ZwlrOutputHeadV1,
    mode_id: ObjectKey,
    meta: OutputHeadMeta,
)
    requires
        after.heads_view() == before.heads_view().insert(
            id,
            OutputManagementState::head_after(before.head_before(id, head), HeadNotice::CurrentMode { mode_id }),
        ),
        describes_head(meta, id, after.heads_view()[id]),
    ensures
        meta.id == id,
        meta.current_mode == Some(mode_id),
{
}

/// Taking a mode off its head changes only that head, and of it only the
/// mode list and, when the mode was the current one, the current mode: a
/// head whose current mode is another mode keeps it, and one whose current
/// mode was the removed one has none.
pub proof fn removing_a_mode_touches_only_its_own_traces(
    heads: Map<ObjectKey, WlOutputHeadView>,
    mode_to_head_ids: Map<ObjectKey, ObjectKey>,
    id: ObjectKey,
)
    requires
        mode_to_head_ids.contains_key(id),
        heads.contains_key(mode_to_head_ids[id]),
    ensures
        ({
            let after = OutputManagementState::heads_without_mode(heads, mode_to_head_ids, id);
            let h = mode_to_head_ids[id];
            &&& after.dom() == heads.dom()
            &&& forall|k: ObjectKey| #[trigger] heads.contains_key(k) && k != h ==> after[k] == heads[k]
            &&& heads[h].current_mode != Some(id) ==> after[h].current_mode == heads[h].current_mode
            &&& heads[h].current_mode == Some(id) ==> after[h].current_mode is None
            &&& forall|m: ObjectKey| m != id ==> (#[trigger] after[h].modes.contains(m) <==> heads[h].modes.contains(m))
            &&& !after[h].modes.contains(id)
            &&& after[h].name == heads[h].name
            &&& after[h].enabled == heads[h].enabled
            &&& after[h].width == heads[h].width
            &&& after[h].height == heads[h].height
            &&& after[h].output_head == heads[h].output_head
        }),
        ({
            let after = OutputManagementState::heads_without_mode(heads, mode_to_head_ids, id);
            !mode_to_head_ids.contains_key(id) ==> after == heads
        }),
{
    without_mode_removes_only_that_mode(heads[mode_to_head_ids[id]].modes, id);
    let after = OutputManagementState::heads_without_mode(heads, mode_to_head_ids, id);
    assert(after.dom() =~= heads.dom());
}

/// The event announced for an event on a head names that head and carries
/// the values the compositor sent, which are also what the head holds
/// afterwards.
pub proof fn announced_head_event_carries_the_notice(id: ObjectKey, prior: WlOutputHeadView, notice: HeadNotice)
    ensures
        ({
            let ev = OutputManagementState::head_event(id, notice);
            let after = OutputManagementState::head_after(prior, notice);
            match notice {
                HeadNotice::Name { name } => ev matches OutputManagementEvent::HeadName { id: i, name: n }
                    && i == id && n == name && n@ == after.name,
                HeadNotice::Description { description } => ev matches OutputManagementEvent::HeadDescription {
                    id: i,
                    description: d,
                } && i == id && d == description && d@ == after.description,
                HeadNotice::PhysicalSize { width, height } => ev matches OutputManagementEvent::HeadPhysicalSize {
                    id: i,
                    height: h,
                    width: w,
                } && i == id && w == width && h == height && w == after.width && h == after.height,
                HeadNotice::Mode { mode_id, mode } => ev matches OutputManagementEvent::HeadMode { id: i, mode_id: m }
                    && i == id && m == mode_id && after.modes == prior.modes.push(m),
                HeadNotice::Enabled { enabled } => ev matches OutputManagementEvent::HeadEnabled { id: i, enabled: e }
                    && i == id && e == (enabled != 0) && e == after.enabled,
                HeadNotice::CurrentMode { mode_id } => ev matches OutputManagementEvent::HeadCurrentMode {
                    id: i,
                    mode_id: m,
                } && i == id && m == mode_id && after.current_mode == Some(m),
                HeadNotice::Position { x, y } => ev matches OutputManagementEvent::HeadPosition { id: i, x: ex, y: ey }
                    && i == id && ex == x && ey == y && ex == after.pos_x && ey == after.pos_y,
                HeadNotice::Transform { transform } => ev matches OutputManagementEvent::HeadTransform {
                    id: i,
                    transform: t,
                } && i == id && t == transform && known(t) == after.transform,
                HeadNotice::Scale { scale_bits } => ev matches OutputManagementEvent::HeadScale {
                    id: i,
                    scale_bits: b,
                } && i == id && b == scale_bits && b == after.scale_bits,
                HeadNotice::Finished => ev matches OutputManagementEvent::HeadFinished { id: i } && i == id,
                HeadNotice::Make { make } => ev matches OutputManagementEvent::HeadMake { id: i, make: m } && i == id
                    && m == make && m@ == after.make,
                HeadNotice::Model { model } => ev matches OutputManagementEvent::HeadModel { id: i, model: m }
                    && i == id && m == model && m@ == after.model,
                HeadNotice::SerialNumber { serial_number } => ev matches OutputManagementEvent::HeadSerialNumber {
                    id: i,
                    serial_number: n,
                } && i == id && n == serial_number && n@ == after.serial_number,
                HeadNotice::AdaptiveSync { state } => ev matches OutputManagementEvent::HeadAdaptiveSync {
                    id: i,
                    state: st,
                } && i == id && st == state && known(st) == after.adaptive_sync,
            }
        }),
{
}

/// A configuration request is made under the serial the manager last sent,
/// on the object of the head it names.
pub proof fn configurations_use_the_serial_and_the_head(s: OutputManagementState, head_id: ObjectKey, r: ConfigurationRequest)
    requires
        s.configures(head_id, r),
    ensures
        s.output_manager_serial is Some ==> r.serial == s.output_manager_serial->0,
        *r.head == s.heads_view()[head_id].output_head,
{
}

} // verus!
