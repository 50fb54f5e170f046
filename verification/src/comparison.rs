//! Comparison of records by what they hold.

use vstd::prelude::*;
use crate::waqf_types::{
    ContributionTranche, ConsumableWaqfDetails, ConversionDetails, DeedDocument, DonorProfile,
    HybridCauseAllocation, InstallmentPayment, InstallmentSchedule, InvestmentStrategy, Milestone,
    ReportingPreferences, RevolvingWaqfDetails, TrancheExpirationPreference, view_of, views_of,
    views_of_opt,
};

verus! {

/// Values that can be compared by their mathematical models.
pub trait SameAs: View + Sized {
    /// Whether two values have the same model.
    fn same_as(&self, other: &Self) -> (r: bool)
        ensures
            r == (self@ == other@),
    ;
}

impl SameAs for String {
    fn same_as(&self, other: &String) -> (r: bool) {
        *self == *other
    }
}

/// Whether two optional values have the same model.
pub fn same_option<T: SameAs>(a: &Option<T>, b: &Option<T>) -> (r: bool)
    ensures
        r == (view_of(*a) == view_of(*b)),
{
    match (a, b) {
        (Some(x), Some(y)) => x.same_as(y),
        (None, None) => true,
        _ => false,
    }
}

/// Whether two lists hold values of the same models in the same order.
pub fn same_list<T: SameAs>(a: &Vec<T>, b: &Vec<T>) -> (r: bool)
    ensures
        r == (views_of(a@) == views_of(b@)),
{
    if a.len() != b.len() {
        assert(views_of(a@).len() != views_of(b@).len());
        return false;
    }
    let mut i: usize = 0;
    while i < a.len()
        invariant
            i <= a@.len(),
            a@.len() == b@.len(),
            forall|j: int| 0 <= j < i ==> (#[trigger] a@[j])@ == b@[j]@,
        decreases a@.len() - i,
    {
        if !a[i].same_as(&b[i]) {
            assert(views_of(a@)[i as int] != views_of(b@)[i as int]);
            return false;
        }
        i = i + 1;
    }
    assert(views_of(a@) =~= views_of(b@));
    true
}

/// Whether two optional lists hold values of the same models in the same
/// order.
pub fn same_optional_list<T: SameAs>(a: &Option<Vec<T>>, b: &Option<Vec<T>>) -> (r: bool)
    ensures
        r == (views_of_opt(*a) == views_of_opt(*b)),
{
    match (a, b) {
        (Some(x), Some(y)) => same_list(x, y),
        (None, None) => true,
        _ => false,
    }
}

impl SameAs for DonorProfile {
    fn same_as(&self, other: &DonorProfile) -> (r: bool) {
        self.name == other.name
            && self.email == other.email
            && self.phone == other.phone
            && self.address == other.address
    }
}

impl SameAs for ReportingPreferences {
    fn same_as(&self, other: &ReportingPreferences) -> (r: bool) {
        self.frequency == other.frequency
            && same_list(&self.report_types, &other.report_types)
            && self.delivery_method == other.delivery_method
    }
}

impl SameAs for Milestone {
    fn same_as(&self, other: &Milestone) -> (r: bool) {
        self.description == other.description
            && self.target_date == other.target_date
            && self.target_amount == other.target_amount
    }
}

impl SameAs for ConsumableWaqfDetails {
    fn same_as(&self, other: &ConsumableWaqfDetails) -> (r: bool) {
        self.spending_schedule == other.spending_schedule
            && same_option(&self.start_date, &other.start_date)
            && same_option(&self.end_date, &other.end_date)
            && self.target_amount == other.target_amount
            && self.target_beneficiaries == other.target_beneficiaries
            && same_optional_list(&self.milestones, &other.milestones)
            && self.minimum_monthly_distribution == other.minimum_monthly_distribution
    }
}

impl SameAs for InstallmentSchedule {
    fn same_as(&self, other: &InstallmentSchedule) -> (r: bool) {
        self.frequency == other.frequency
            && self.number_of_installments == other.number_of_installments
    }
}

impl SameAs for InstallmentPayment {
    fn same_as(&self, other: &InstallmentPayment) -> (r: bool) {
        self.id == other.id
            && self.amount == other.amount
            && self.due_date == other.due_date
            && self.status == other.status
            && same_option(&self.paid_date, &other.paid_date)
    }
}

impl SameAs for TrancheExpirationPreference {
    fn same_as(&self, other: &TrancheExpirationPreference) -> (r: bool) {
        self.action == other.action
            && self.rollover_months == other.rollover_months
            && same_option(&self.rollover_cause_id, &other.rollover_cause_id)
            && same_option(&self.consumable_schedule, &other.consumable_schedule)
            && self.consumable_duration == other.consumable_duration
    }
}

impl SameAs for ConversionDetails {
    fn same_as(&self, other: &ConversionDetails) -> (r: bool) {
        self.converted_at == other.converted_at
            && self.new_waqf_id == other.new_waqf_id
            && self.target_waqf_type == other.target_waqf_type
            && same_option(&self.notes, &other.notes)
    }
}

impl SameAs for ContributionTranche {
    fn same_as(&self, other: &ContributionTranche) -> (r: bool) {
        self.id == other.id
            && self.amount == other.amount
            && self.contribution_date == other.contribution_date
            && self.maturity_date == other.maturity_date
            && self.is_returned == other.is_returned
            && same_option(&self.returned_date, &other.returned_date)
            && same_option(&self.status, &other.status)
            && self.penalty_applied == other.penalty_applied
            && same_option(&self.rollover_origin_id, &other.rollover_origin_id)
            && same_option(&self.rollover_target_id, &other.rollover_target_id)
            && same_optional_list(&self.installment_payments, &other.installment_payments)
            && same_option(&self.expiration_preference, &other.expiration_preference)
            && same_option(&self.conversion_details, &other.conversion_details)
    }
}

impl SameAs for RevolvingWaqfDetails {
    fn same_as(&self, other: &RevolvingWaqfDetails) -> (r: bool) {
        self.lock_period_months == other.lock_period_months
            && self.maturity_date == other.maturity_date
            && self.principal_return_method == other.principal_return_method
            && same_option(&self.installment_schedule, &other.installment_schedule)
            && self.early_withdrawal_penalty == other.early_withdrawal_penalty
            && self.early_withdrawal_allowed == other.early_withdrawal_allowed
            && same_optional_list(&self.contribution_tranches, &other.contribution_tranches)
            && same_option(&self.auto_rollover_preference, &other.auto_rollover_preference)
            && same_option(&self.auto_rollover_target_cause, &other.auto_rollover_target_cause)
            && same_optional_list(&self.pending_notifications, &other.pending_notifications)
            && same_option(&self.default_expiration_preference, &other.default_expiration_preference)
    }
}

impl SameAs for InvestmentStrategy {
    fn same_as(&self, other: &InvestmentStrategy) -> (r: bool) {
        self.asset_allocation == other.asset_allocation
            && self.expected_annual_return == other.expected_annual_return
            && self.distribution_frequency == other.distribution_frequency
    }
}

impl SameAs for HybridCauseAllocation {
    fn same_as(&self, other: &HybridCauseAllocation) -> (r: bool) {
        self.cause_id == other.cause_id
            && self.allocations == other.allocations
    }
}

impl SameAs for DeedDocument {
    fn same_as(&self, other: &DeedDocument) -> (r: bool) {
        self.signed_at == other.signed_at
            && self.donor_signature == other.donor_signature
            && self.document_version == other.document_version
    }
}

} // verus!
