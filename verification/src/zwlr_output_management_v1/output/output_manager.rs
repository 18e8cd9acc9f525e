use vstd::prelude::*;
use wayland_protocols_wlr::output_management::v1::client::zwlr_output_head_v1::ZwlrOutputHeadV1;

use crate::zwlr_output_management_v1::handler::{serial_after, ObjectKey, OutputManagementEvent, OutputManagementState, SerialEffect};
use crate::zwlr_output_management_v1::output::output_head::{WlOutputHead, WlOutputHeadView};

verus! {

impl OutputManagementState {
    /// The manager announced a head: it is recorded afresh under its id,
    /// replacing what was known under that id, and announced.
    pub fn on_head(&mut self, id: ObjectKey, head: ZwlrOutputHeadV1) -> (res: OutputManagementEvent)
        ensures
            final(self).heads_view() == old(self).heads_view().insert(id, WlOutputHeadView::fresh(head)),
            final(self).output_modes@ == old(self).output_modes@,
            final(self).mode_to_head_ids@ == old(self).mode_to_head_ids@,
            final(self).output_manager_serial == serial_after(old(self).output_manager_serial, SerialEffect::Kept),
            res == (OutputManagementEvent::Head { id }),
    {
        broadcast use vstd::std_specs::hash::group_hash_axioms;

        let ghost before = self.heads_view();
        self.output_heads.insert(id, WlOutputHead::new(head));
        assert(self.heads_view() =~= before.insert(id, WlOutputHeadView::fresh(head)));
        OutputManagementEvent::Head { id }
    }

    /// The manager has sent all current heads and modes: its serial is kept
    /// for configurations, and announced.
    pub fn on_done(&mut self, serial: u32) -> (res: OutputManagementEvent)
        ensures
            final(self).output_manager_serial == serial_after(old(self).output_manager_serial, SerialEffect::Done(serial)),
            final(self).output_heads == old(self).output_heads,
            final(self).output_modes == old(self).output_modes,
            final(self).mode_to_head_ids == old(self).mode_to_head_ids,
            res == (OutputManagementEvent::Done { serial }),
    {
        self.output_manager_serial = Some(serial);
        OutputManagementEvent::Done { serial }
    }

    /// The manager is finished: no configuration can be made any more.
    pub fn on_finished(&mut self) -> (res: OutputManagementEvent)
        ensures
            final(self).output_manager_serial == serial_after(old(self).output_manager_serial, SerialEffect::Cleared),
            final(self).output_heads == old(self).output_heads,
            final(self).output_modes == old(self).output_modes,
            final(self).mode_to_head_ids == old(self).mode_to_head_ids,
            res == OutputManagementEvent::Finished,
    {
        self.output_manager_serial = None;
        OutputManagementEvent::Finished
    }
}

} // verus!
