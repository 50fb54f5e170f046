//! Checks on writes to the collection of impact events.

use vstd::prelude::*;
use crate::impact_event_types::{
    event_verdict_is, impact_event_error, ImpactEvent, ImpactEventError, ImpactEventView,
};

verus! {

/// Whether an event moved funds without helping anyone: worth a remark,
/// though no rule forbids it.
pub open spec fn funds_without_beneficiaries(e: ImpactEventView) -> bool {
    e.beneficiary_count == 0 && e.amount > 0
}

/// Whether an event moved funds without helping anyone.
pub fn has_funds_without_beneficiaries(event: &ImpactEvent) -> (r: bool)
    ensures
        r == funds_without_beneficiaries(event@),
{
    event.beneficiary_count == 0 && event.amount > 0
}

/// Validates an impact event.
pub fn validate_impact_event_data(event: &ImpactEvent) -> (r: Result<(), ImpactEventError>)
    ensures
        event_verdict_is(r, impact_event_error(event@)),
{
    event.validate()
}

/// Checks a proposed write to the collection of impact events.
pub fn assert_impact_event_operations(event: &ImpactEvent) -> (r: Result<(), ImpactEventError>)
    ensures
        event_verdict_is(r, impact_event_error(event@)),
{
    validate_impact_event_data(event)
}

/// Checks the deletion of an impact event, which is always allowed.
pub fn assert_impact_event_deletion() -> (r: Result<(), ImpactEventError>)
    ensures
        r is Ok,
{
    Ok(())
}

} // verus!
