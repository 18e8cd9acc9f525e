use vstd::prelude::*;
use wayland_protocols_wlr::output_management::v1::client::{
    zwlr_output_head_v1::ZwlrOutputHeadV1, zwlr_output_mode_v1::ZwlrOutputModeV1,
};

use crate::zwlr_output_management_v1::handler::{serial_after, ObjectKey, AdaptiveSyncState, OutputManagementEvent, OutputManagementState, SerialEffect};
use crate::zwlr_output_management_v1::output::output_mode::WlOutputMode;

verus! {

/// The bit pattern of the `f64` value 1.0, the scale of a head the
/// compositor has said nothing of.
pub const SCALE_ONE_BITS: u64 = 0x3FF0_0000_0000_0000;

/// An output head, as far as the compositor has described it. Modes are
/// named by their object keys; the scale is kept as the bit
/// pattern of its `f64` value; the transform as its protocol code.
#[derive(Debug)]
pub struct WlOutputHead {
    pub adaptive_sync: Option<AdaptiveSyncState>,
    pub current_mode: Option<ObjectKey>,
    pub description: String,
    pub enabled: bool,
    pub height: i32,
    pub make: String,
    pub model: String,
    pub modes: Vec<ObjectKey>,
    pub name: String,
    pub output_head: ZwlrOutputHeadV1,
    pub pos_x: i32,
    pub pos_y: i32,
    pub scale_bits: u64,
    pub serial_number: String,
    pub transform: Option<u32>,
    pub width: i32,
}

/// The contents of an output head, with its texts and mode list as sequences.
pub struct WlOutputHeadView {
    pub adaptive_sync: Option<AdaptiveSyncState>,
    pub current_mode: Option<ObjectKey>,
    pub description: Seq<char>,
    pub enabled: bool,
    pub height: i32,
    pub make: Seq<char>,
    pub model: Seq<char>,
    pub modes: Seq<ObjectKey>,
    pub name: Seq<char>,
    pub output_head: ZwlrOutputHeadV1,
    pub pos_x: i32,
    pub pos_y: i32,
    pub scale_bits: u64,
    pub serial_number: Seq<char>,
    pub transform: Option<u32>,
    pub width: i32,
}

impl View for WlOutputHead {
    type V = WlOutputHeadView;

    open spec fn view(&self) -> WlOutputHeadView {
        WlOutputHeadView {
            adaptive_sync: self.adaptive_sync,
            current_mode: self.current_mode,
            description: self.description@,
            enabled: self.enabled,
            height: self.height,
            make: self.make@,
            model: self.model@,
            modes: self.modes@,
            name: self.name@,
            output_head: self.output_head,
            pos_x: self.pos_x,
            pos_y: self.pos_y,
            scale_bits: self.scale_bits,
            serial_number: self.serial_number@,
            transform: self.transform,
            width: self.width,
        }
    }
}

impl WlOutputHeadView {
    /// A head the compositor has said nothing of yet.
    pub open spec fn fresh(output_head: ZwlrOutputHeadV1) -> WlOutputHeadView {
        WlOutputHeadView {
            adaptive_sync: None,
            current_mode: None,
            description: Seq::empty(),
            enabled: false,
            height: 0,
            make: Seq::empty(),
            model: Seq::empty(),
            modes: Seq::empty(),
            name: Seq::empty(),
            output_head,
            pos_x: 0,
            pos_y: 0,
            scale_bits: SCALE_ONE_BITS,
            serial_number: Seq::empty(),
            transform: None,
            width: 0,
        }
    }
}

impl WlOutputHead {
    pub fn new(output_head: ZwlrOutputHeadV1) -> (res: Self)
        ensures
            res@ == WlOutputHeadView::fresh(output_head),
    {
        Self {
            adaptive_sync: None,
            current_mode: None,
            description: String::new(),
            enabled: false,
            height: 0,
            make: String::new(),
            model: String::new(),
            modes: Vec::new(),
            name: String::new(),
            pos_x: 0,
            pos_y: 0,
            scale_bits: SCALE_ONE_BITS,
            serial_number: String::new(),
            transform: None,
            output_head,
            width: 0,
        }
    }
}

/// The events that the compositor sends on an output head. Mode objects come
/// with their object keys; a transform and an adaptive sync state come as
/// the known value, or as the unknown code the compositor sent.
#[derive(Debug)]
pub enum HeadNotice {
    Name { name: String },
    Description { description: String },
    PhysicalSize { width: i32, height: i32 },
    Mode { mode_id: ObjectKey, mode: ZwlrOutputModeV1 },
    Enabled { enabled: i32 },
    CurrentMode { mode_id: ObjectKey },
    Position { x: i32, y: i32 },
    Transform { transform: Result<u32, u32> },
    Scale { scale_bits: u64 },
    Finished,
    Make { make: String },
    Model { model: String },
    SerialNumber { serial_number: String },
    AdaptiveSync { state: Result<AdaptiveSyncState, u32> },
}

/// The known value of a protocol enum, if the compositor sent a known one.
pub open spec fn known<T, E>(r: Result<T, E>) -> Option<T> {
    match r {
        Ok(v) => Some(v),
        Err(_) => None,
    }
}

impl OutputManagementState {
    /// The head with the given id before an event on it: the known one, else
    /// a fresh one for the object the event came on.
    pub open spec fn head_before(&self, id: ObjectKey, head: ZwlrOutputHeadV1) -> WlOutputHeadView {
        if self.heads_view().contains_key(id) {
            self.heads_view()[id]
        } else {
            WlOutputHeadView::fresh(head)
        }
    }

    /// The head after an event on it that changes one description of it;
    /// `None` for the events that change more than the head.
    pub open spec fn head_after(prior: WlOutputHeadView, notice: HeadNotice) -> WlOutputHeadView {
        match notice {
            HeadNotice::Name { name } => WlOutputHeadView { name: name@, ..prior },
            HeadNotice::Description { description } => WlOutputHeadView {
                description: description@,
                ..prior
            },
            HeadNotice::PhysicalSize { width, height } => WlOutputHeadView { width, height, ..prior },
            HeadNotice::Mode { mode_id, mode } => WlOutputHeadView {
                modes: prior.modes.push(mode_id),
                ..prior
            },
            HeadNotice::Enabled { enabled } => WlOutputHeadView { enabled: enabled != 0, ..prior },
            HeadNotice::CurrentMode { mode_id } => WlOutputHeadView {
                current_mode: Some(mode_id),
                ..prior
            },
            HeadNotice::Position { x, y } => WlOutputHeadView { pos_x: x, pos_y: y, ..prior },
            HeadNotice::Transform { transform } => WlOutputHeadView {
                transform: known(transform),
                ..prior
            },
            HeadNotice::Scale { scale_bits } => WlOutputHeadView { scale_bits, ..prior },
            HeadNotice::Finished => prior,
            HeadNotice::Make { make } => WlOutputHeadView { make: make@, ..prior },
            HeadNotice::Model { model } => WlOutputHeadView { model: model@, ..prior },
            HeadNotice::SerialNumber { serial_number } => WlOutputHeadView {
                serial_number: serial_number@,
                ..prior
            },
            HeadNotice::AdaptiveSync { state } => WlOutputHeadView {
                adaptive_sync: known(state),
                ..prior
            },
        }
    }

    /// The event announced for an event on the head with the given id.
    pub open spec fn head_event(id: ObjectKey, notice: HeadNotice) -> OutputManagementEvent {
        match notice {
            HeadNotice::Name { name } => OutputManagementEvent::HeadName { id, name },
            HeadNotice::Description { description } => OutputManagementEvent::HeadDescription {
                id,
                description,
            },
            HeadNotice::PhysicalSize { width, height } => OutputManagementEvent::HeadPhysicalSize {
                id,
                height,
                width,
            },
            HeadNotice::Mode { mode_id, mode } => OutputManagementEvent::HeadMode { id, mode_id },
            HeadNotice::Enabled { enabled } => OutputManagementEvent::HeadEnabled {
                id,
                enabled: enabled != 0,
            },
            HeadNotice::CurrentMode { mode_id } => OutputManagementEvent::HeadCurrentMode {
                id,
                mode_id,
            },
            HeadNotice::Position { x, y } => OutputManagementEvent::HeadPosition { id, x, y },
            HeadNotice::Transform { transform } => OutputManagementEvent::HeadTransform {
                id,
                transform,
            },
            HeadNotice::Scale { scale_bits } => OutputManagementEvent::HeadScale { id, scale_bits },
            HeadNotice::Finished => OutputManagementEvent::HeadFinished { id },
            HeadNotice::Make { make } => OutputManagementEvent::HeadMake { id, make },
            HeadNotice::Model { model } => OutputManagementEvent::HeadModel { id, model },
            HeadNotice::SerialNumber { serial_number } => OutputManagementEvent::HeadSerialNumber {
                id,
                serial_number,
            },
            HeadNotice::AdaptiveSync { state } => OutputManagementEvent::HeadAdaptiveSync {
                id,
                state,
            },
        }
    }

    /// An event on the head with the given id. The head is recorded if it
    /// was unknown and the description is stored; a new mode is also recorded
    /// with the head it belongs to; a finished head is forgotten. The matching
    /// event is announced.
    pub fn on_head_event(&mut self, id: ObjectKey, head: ZwlrOutputHeadV1, notice: HeadNotice) -> (res: OutputManagementEvent)
        ensures
            final(self).output_manager_serial == serial_after(old(self).output_manager_serial, SerialEffect::Kept),
            res == OutputManagementState::head_event(id, notice),
            notice is Finished ==> final(self).heads_view() == old(self).heads_view().remove(id),
            !(notice is Finished) ==> final(self).heads_view() == old(self).heads_view().insert(
                id,
                OutputManagementState::head_after(old(self).head_before(id, head), notice),
            ),
            match notice {
                HeadNotice::Mode { mode_id, mode } => {
                    &&& final(self).output_modes@ == old(self).output_modes@.insert(
                        mode_id,
                        WlOutputMode::fresh(mode),
                    )
                    &&& final(self).mode_to_head_ids@ == old(self).mode_to_head_ids@.insert(mode_id, id)
                },
                _ => {
                    &&& final(self).output_modes@ == old(self).output_modes@
                    &&& final(self).mode_to_head_ids@ == old(self).mode_to_head_ids@
                },
            },
    {
        broadcast use vstd::std_specs::hash::group_hash_axioms;

        let finished = matches!(notice, HeadNotice::Finished);
        let ghost prior = old(self).head_before(id, head);
        let mut record = match self.output_heads.remove(&id) {
            Some(h) => h,
            None => WlOutputHead::new(head),
        };
        assert(record@ == prior);
        assert(self.heads_view() =~= old(self).heads_view().remove(id));
        let res = match notice {
            HeadNotice::Name { name } => {
                record.name = name.clone();
                OutputManagementEvent::HeadName { id, name }
            },
            HeadNotice::Description { description } => {
                record.description = description.clone();
                OutputManagementEvent::HeadDescription { id, description }
            },
            HeadNotice::PhysicalSize { width, height } => {
                record.width = width;
                record.height = height;
                OutputManagementEvent::HeadPhysicalSize { id, height, width }
            },
            HeadNotice::Mode { mode_id, mode } => {
                self.mode_to_head_ids.insert(mode_id, id);
                record.modes.push(mode_id);
                self.output_modes.insert(mode_id, WlOutputMode::new(mode));
                OutputManagementEvent::HeadMode { id, mode_id }
            },
            HeadNotice::Enabled { enabled } => {
                let enabled = enabled != 0;
                record.enabled = enabled;
                OutputManagementEvent::HeadEnabled { id, enabled }
            },
            HeadNotice::CurrentMode { mode_id } => {
                record.current_mode = Some(mode_id);
                OutputManagementEvent::HeadCurrentMode { id, mode_id }
            },
            HeadNotice::Position { x, y } => {
                record.pos_x = x;
                record.pos_y = y;
                OutputManagementEvent::HeadPosition { id, x, y }
            },
            HeadNotice::Transform { transform } => {
                record.transform = match transform {
                    Ok(t) => Some(t),
                    Err(_) => None,
                };
                OutputManagementEvent::HeadTransform { id, transform }
            },
            HeadNotice::Scale { scale_bits } => {
                record.scale_bits = scale_bits;
                OutputManagementEvent::HeadScale { id, scale_bits }
            },
            HeadNotice::Finished => OutputManagementEvent::HeadFinished { id },
            HeadNotice::Make { make } => {
                record.make = make.clone();
                OutputManagementEvent::HeadMake { id, make }
            },
            HeadNotice::Model { model } => {
                record.model = model.clone();
                OutputManagementEvent::HeadModel { id, model }
            },
            HeadNotice::SerialNumber { serial_number } => {
                record.serial_number = serial_number.clone();
                OutputManagementEvent::HeadSerialNumber { id, serial_number }
            },
            HeadNotice::AdaptiveSync { state } => {
                record.adaptive_sync = match state {
                    Ok(s) => Some(s),
                    Err(_) => None,
                };
                OutputManagementEvent::HeadAdaptiveSync { id, state }
            },
        };
        if !finished {
            let ghost before = self.heads_view();
            self.output_heads.insert(id, record);
            assert(self.heads_view() =~= before.insert(id, record@));
        }
        res
    }
}

} // verus!
