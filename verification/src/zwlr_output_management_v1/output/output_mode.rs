use vstd::prelude::*;
use wayland_protocols_wlr::output_management::v1::client::zwlr_output_mode_v1::ZwlrOutputModeV1;

use crate::zwlr_output_management_v1::handler::{serial_after, ObjectKey, OutputManagementEvent, OutputManagementState, SerialEffect};

verus! {

/// An output mode, as far as the compositor has described it.
#[derive(Debug)]
pub struct WlOutputMode {
    pub width: i32,
    pub height: i32,
    pub refresh: i32,
    pub preferred: bool,
    pub wlr_mode: ZwlrOutputModeV1,
}

/// The events that the compositor sends on an output mode.
#[derive(Debug, Clone, Copy, PartialEq, Eq, Structural)]
pub enum ModeNotice {
    Size { width: i32, height: i32 },
    Refresh { refresh: i32 },
    Preferred,
    Finished,
}

impl WlOutputMode {
    /// A mode the compositor has said nothing of yet.
    pub open spec fn fresh(wlr_mode: ZwlrOutputModeV1) -> WlOutputMode {
        WlOutputMode { width: 0, height: 0, refresh: 0, preferred: false, wlr_mode }
    }

    pub fn new(wlr_mode: ZwlrOutputModeV1) -> (res: Self)
        ensures
            res == WlOutputMode::fresh(wlr_mode),
    {
        Self { width: 0, height: 0, refresh: 0, preferred: false, wlr_mode }
    }
}

impl OutputManagementState {
    /// The mode with the given id before an event on it: the known one, else
    /// a fresh one for the object the event came on.
    pub open spec fn mode_before(&self, id: ObjectKey, mode: ZwlrOutputModeV1) -> WlOutputMode {
        if self.output_modes@.contains_key(id) {
            self.output_modes@[id]
        } else {
            WlOutputMode::fresh(mode)
        }
    }

    /// An event on the mode with the given id. The mode is recorded if it was
    /// unknown; size, refresh rate and preference are stored; when the mode
    /// is finished it is taken off its head (see `remove_mode`), and the
    /// matching event is announced.
    pub fn on_mode_event(&mut self, id: ObjectKey, mode: ZwlrOutputModeV1, notice: ModeNotice) -> (res: OutputManagementEvent)
        ensures
            final(self).output_manager_serial == serial_after(old(self).output_manager_serial, SerialEffect::Kept),
            ({
                let prior = old(self).mode_before(id, mode);
                match notice {
                    ModeNotice::Size { width, height } => {
                        &&& final(self).output_modes@ == old(self).output_modes@.insert(
                            id,
                            WlOutputMode { width, height, ..prior },
                        )
                        &&& final(self).heads_view() == old(self).heads_view()
                        &&& final(self).mode_to_head_ids@ == old(self).mode_to_head_ids@
                        &&& res == (OutputManagementEvent::ModeSize { height, width })
                    },
                    ModeNotice::Refresh { refresh } => {
                        &&& final(self).output_modes@ == old(self).output_modes@.insert(
                            id,
                            WlOutputMode { refresh, ..prior },
                        )
                        &&& final(self).heads_view() == old(self).heads_view()
                        &&& final(self).mode_to_head_ids@ == old(self).mode_to_head_ids@
                        &&& res == (OutputManagementEvent::ModeRefresh { refresh })
                    },
                    ModeNotice::Preferred => {
                        &&& final(self).output_modes@ == old(self).output_modes@.insert(
                            id,
                            WlOutputMode { preferred: true, ..prior },
                        )
                        &&& final(self).heads_view() == old(self).heads_view()
                        &&& final(self).mode_to_head_ids@ == old(self).mode_to_head_ids@
                        &&& res == OutputManagementEvent::ModePreferred
                    },
                    ModeNotice::Finished => {
                        &&& final(self).output_modes@ == old(self).output_modes@.insert(id, prior)
                        &&& final(self).heads_view() == OutputManagementState::heads_without_mode(
                            old(self).heads_view(),
                            old(self).mode_to_head_ids@,
                            id,
                        )
                        &&& final(self).mode_to_head_ids@ == old(self).mode_to_head_ids@.remove(id)
                        &&& res == OutputManagementEvent::ModeFinished
                    },
                }
            }),
    {
        broadcast use vstd::std_specs::hash::group_hash_axioms;

        let mut record = match self.output_modes.remove(&id) {
            Some(m) => m,
            None => WlOutputMode::new(mode),
        };
        match notice {
            ModeNotice::Size { width, height } => {
                record.width = width;
                record.height = height;
                self.output_modes.insert(id, record);
                OutputManagementEvent::ModeSize { height, width }
            },
            ModeNotice::Refresh { refresh } => {
                record.refresh = refresh;
                self.output_modes.insert(id, record);
                OutputManagementEvent::ModeRefresh { refresh }
            },
            ModeNotice::Preferred => {
                record.preferred = true;
                self.output_modes.insert(id, record);
                OutputManagementEvent::ModePreferred
            },
            ModeNotice::Finished => {
                self.output_modes.insert(id, record);
                let _ = self.remove_mode(id);
                OutputManagementEvent::ModeFinished
            },
        }
    }
}

} // verus!
