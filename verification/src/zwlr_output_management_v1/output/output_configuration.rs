use vstd::prelude::*;

use crate::zwlr_output_management_v1::handler::OutputManagementEvent;

verus! {

/// The outcomes that the compositor reports for an applied configuration.
#[derive(Debug, Clone, Copy, PartialEq, Eq, Structural)]
pub enum ConfigurationNotice {
    Succeeded,
    Failed,
    Cancelled,
}

/// The event announced for the outcome of a configuration.
pub fn configuration_event(notice: ConfigurationNotice) -> (res: OutputManagementEvent)
    ensures
        notice == ConfigurationNotice::Succeeded ==> res == OutputManagementEvent::ConfigurationSucceeded,
        notice == ConfigurationNotice::Failed ==> res == OutputManagementEvent::ConfigurationFailed,
        notice == ConfigurationNotice::Cancelled ==> res == OutputManagementEvent::ConfigurationCancelled,
{
    match notice {
        ConfigurationNotice::Succeeded => OutputManagementEvent::ConfigurationSucceeded,
        ConfigurationNotice::Failed => OutputManagementEvent::ConfigurationFailed,
        ConfigurationNotice::Cancelled => OutputManagementEvent::ConfigurationCancelled,
    }
}

} // verus!
