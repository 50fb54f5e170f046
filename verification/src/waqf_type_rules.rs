//! The details that each kind of waqf requires and forbids.

use vstd::prelude::*;
use crate::fixed::{SCALE, TOLERANCE};
use crate::text::{amount_text, format_amount, format_fixed, is_text};
use crate::vocabulary::SpendingSchedule;
use crate::waqf_types::{
    ConsumableWaqfDetails, ConsumableWaqfDetailsView, HybridCauseAllocation,
    HybridCauseAllocationView, RevolvingWaqfDetails, RevolvingWaqfDetailsView, WaqfData,
    WaqfDataView, WaqfType, views_of,
};

verus! {

/// Choices on validation that are left to whoever operates the platform.
#[derive(Clone, Copy, Debug, PartialEq, Eq, Structural)]
pub struct WaqfPolicy {
    /// Whether the three percentages of every cause's hybrid split must add
    /// up to one hundred. Where this is off, the split is taken as the
    /// writer gives it.
    pub enforce_hybrid_sums: bool,
}

/// A violated rule on the details that a waqf carries for its type.
#[derive(Debug, Clone, PartialEq)]
pub enum TypeViolation {
    /// A permanent waqf has consumable details.
    PermanentWithConsumableDetails,
    /// A permanent waqf has revolving details.
    PermanentWithRevolvingDetails,
    /// A permanent waqf is flagged as hybrid.
    PermanentMarkedHybrid,
    /// A consumable waqf has no consumable details.
    ConsumableDetailsMissing,
    /// The spending schedule is not one of the four schedules.
    InvalidSpendingSchedule(String),
    /// Milestone-based spending has no milestone.
    MilestonesMissing,
    /// Phased spending has neither a start, an end nor a minimum monthly distribution.
    PhasedWithoutBounds,
    /// Ongoing spending has neither a minimum monthly distribution nor a target.
    OngoingWithoutCriteria,
    /// Start or end date is empty though both are given.
    EmptyDates,
    /// The target amount is zero or negative.
    TargetAmountNotPositive,
    /// The target number of beneficiaries is zero.
    TargetBeneficiariesZero,
    /// The minimum monthly distribution is zero or negative.
    MinimumDistributionNotPositive,
    /// A revolving waqf has no revolving details.
    RevolvingDetailsMissing,
    /// The lock period is shorter than one month.
    LockPeriodTooShort,
    /// The lock period exceeds 240 months.
    LockPeriodTooLong,
    /// The principal return method is neither `lump_sum` nor `installments`.
    InvalidReturnMethod(String),
    /// Installment returns have no schedule.
    InstallmentScheduleMissing,
    /// The early-withdrawal penalty rate lies outside zero to one; holds the rate.
    PenaltyRateOutOfRange(i64),
    /// A hybrid waqf is not flagged as hybrid.
    HybridFlagMissing,
    /// A hybrid waqf has no hybrid allocations.
    HybridAllocationsMissing,
    /// A hybrid waqf has an empty list of hybrid allocations.
    HybridAllocationsEmpty,
    /// A cause's three percentages do not add up to one hundred; holds the cause and the sum.
    HybridSumMismatch { cause_id: String, total: i128 },
    /// A waqf not flagged as hybrid has hybrid allocations.
    UnexpectedHybridAllocations,
}

/// Mathematical model of [`TypeViolation`].
pub ghost enum TypeViolationView {
    PermanentWithConsumableDetails,
    PermanentWithRevolvingDetails,
    PermanentMarkedHybrid,
    ConsumableDetailsMissing,
    InvalidSpendingSchedule(Seq<char>),
    MilestonesMissing,
    PhasedWithoutBounds,
    OngoingWithoutCriteria,
    EmptyDates,
    TargetAmountNotPositive,
    TargetBeneficiariesZero,
    MinimumDistributionNotPositive,
    RevolvingDetailsMissing,
    LockPeriodTooShort,
    LockPeriodTooLong,
    InvalidReturnMethod(Seq<char>),
    InstallmentScheduleMissing,
    PenaltyRateOutOfRange(i64),
    HybridFlagMissing,
    HybridAllocationsMissing,
    HybridAllocationsEmpty,
    HybridSumMismatch { cause_id: Seq<char>, total: i128 },
    UnexpectedHybridAllocations,
}

impl View for TypeViolation {
    type V = TypeViolationView;

    open spec fn view(&self) -> TypeViolationView {
        match self {
            TypeViolation::PermanentWithConsumableDetails => TypeViolationView::PermanentWithConsumableDetails,
            TypeViolation::PermanentWithRevolvingDetails => TypeViolationView::PermanentWithRevolvingDetails,
            TypeViolation::PermanentMarkedHybrid => TypeViolationView::PermanentMarkedHybrid,
            TypeViolation::ConsumableDetailsMissing => TypeViolationView::ConsumableDetailsMissing,
            TypeViolation::InvalidSpendingSchedule(x) => TypeViolationView::InvalidSpendingSchedule(x@),
            TypeViolation::MilestonesMissing => TypeViolationView::MilestonesMissing,
            TypeViolation::PhasedWithoutBounds => TypeViolationView::PhasedWithoutBounds,
            TypeViolation::OngoingWithoutCriteria => TypeViolationView::OngoingWithoutCriteria,
            TypeViolation::EmptyDates => TypeViolationView::EmptyDates,
            TypeViolation::TargetAmountNotPositive => TypeViolationView::TargetAmountNotPositive,
            TypeViolation::TargetBeneficiariesZero => TypeViolationView::TargetBeneficiariesZero,
            TypeViolation::MinimumDistributionNotPositive => TypeViolationView::MinimumDistributionNotPositive,
            TypeViolation::RevolvingDetailsMissing => TypeViolationView::RevolvingDetailsMissing,
            TypeViolation::LockPeriodTooShort => TypeViolationView::LockPeriodTooShort,
            TypeViolation::LockPeriodTooLong => TypeViolationView::LockPeriodTooLong,
            TypeViolation::InvalidReturnMethod(x) => TypeViolationView::InvalidReturnMethod(x@),
            TypeViolation::InstallmentScheduleMissing => TypeViolationView::InstallmentScheduleMissing,
            TypeViolation::PenaltyRateOutOfRange(x) => TypeViolationView::PenaltyRateOutOfRange(*x),
            TypeViolation::HybridFlagMissing => TypeViolationView::HybridFlagMissing,
            TypeViolation::HybridAllocationsMissing => TypeViolationView::HybridAllocationsMissing,
            TypeViolation::HybridAllocationsEmpty => TypeViolationView::HybridAllocationsEmpty,
            TypeViolation::HybridSumMismatch { cause_id, total } => TypeViolationView::HybridSumMismatch {
                cause_id: cause_id@, total: *total,
            },
            TypeViolation::UnexpectedHybridAllocations => TypeViolationView::UnexpectedHybridAllocations,
        }
    }
}
/// One violation where a rule is violated, none where it is not.
pub open spec fn rule(violated: bool, v: TypeViolationView) -> Seq<TypeViolationView> {
    if violated {
        seq![v]
    } else {
        Seq::empty()
    }
}

/// The first of a list of violations, if there is any.
pub open spec fn first_violation(violations: Seq<TypeViolationView>) -> Option<TypeViolationView> {
    if violations.len() == 0 {
        None
    } else {
        Some(violations[0])
    }
}

/// Whether the outcome of a check that stops at the first violated rule is
/// the one that a list of violations prescribes.
pub open spec fn stops_at_first(r: Result<(), TypeViolation>, violations: Seq<TypeViolationView>) -> bool {
    match first_violation(violations) {
        None => r is Ok,
        Some(v) => r is Err && r->Err_0@ == v,
    }
}

/// The rules that a permanent waqf violates: it has no consumable or
/// revolving details and is not hybrid.
pub open spec fn permanent_violations(w: WaqfDataView) -> Seq<TypeViolationView> {
    rule(w.consumable_details is Some, TypeViolationView::PermanentWithConsumableDetails) + rule(
        w.revolving_details is Some,
        TypeViolationView::PermanentWithRevolvingDetails,
    ) + rule(w.is_hybrid, TypeViolationView::PermanentMarkedHybrid)
}

/// The requirement of its own that a spending schedule fails: milestones for
/// milestone-based spending, a start, an end or a minimum distribution for
/// phased spending, a minimum distribution or a target for ongoing spending.
pub open spec fn schedule_violations(c: ConsumableWaqfDetailsView, schedule: SpendingSchedule) -> Seq<
    TypeViolationView,
> {
    match schedule {
        SpendingSchedule::Immediate => Seq::empty(),
        SpendingSchedule::MilestoneBased => rule(
            c.milestones is None || c.milestones->0.len() == 0,
            TypeViolationView::MilestonesMissing,
        ),
        SpendingSchedule::Phased => rule(
            c.start_date is None && c.end_date is None && c.minimum_monthly_distribution is None,
            TypeViolationView::PhasedWithoutBounds,
        ),
        SpendingSchedule::Ongoing => rule(
            c.minimum_monthly_distribution is None && c.target_amount is None
                && c.target_beneficiaries is None,
            TypeViolationView::OngoingWithoutCriteria,
        ),
    }
}

/// The rules on values that consumable details violate: dates given
/// together are not empty, amounts are positive, beneficiaries at least one.
pub open spec fn consumable_value_violations(c: ConsumableWaqfDetailsView) -> Seq<TypeViolationView> {
    rule(
        c.start_date is Some && c.end_date is Some && (c.start_date->0.len() == 0
            || c.end_date->0.len() == 0),
        TypeViolationView::EmptyDates,
    ) + rule(
        c.target_amount is Some && c.target_amount->0 <= 0,
        TypeViolationView::TargetAmountNotPositive,
    ) + rule(
        c.target_beneficiaries is Some && c.target_beneficiaries->0 == 0,
        TypeViolationView::TargetBeneficiariesZero,
    ) + rule(
        c.minimum_monthly_distribution is Some && c.minimum_monthly_distribution->0 <= 0,
        TypeViolationView::MinimumDistributionNotPositive,
    )
}

/// The rules that consumable details violate: a known spending schedule
/// with what it requires, and values in order.
pub open spec fn consumable_details_violations(c: ConsumableWaqfDetailsView) -> Seq<
    TypeViolationView,
> {
    (match SpendingSchedule::from_text(c.spending_schedule) {
        None => seq![TypeViolationView::InvalidSpendingSchedule(c.spending_schedule)],
        Some(schedule) => schedule_violations(c, schedule),
    }) + consumable_value_violations(c)
}

/// The rules that a consumable waqf violates.
pub open spec fn consumable_violations(w: WaqfDataView) -> Seq<TypeViolationView> {
    match w.consumable_details {
        None => seq![TypeViolationView::ConsumableDetailsMissing],
        Some(c) => consumable_details_violations(c),
    }
}

/// The rules that revolving details violate: a lock period of 1 to 240
/// months, a known return method, a schedule for installments and a penalty
/// rate between zero and one.
pub open spec fn revolving_details_violations(d: RevolvingWaqfDetailsView) -> Seq<TypeViolationView> {
    rule(d.lock_period_months < 1, TypeViolationView::LockPeriodTooShort) + rule(
        d.lock_period_months > 240,
        TypeViolationView::LockPeriodTooLong,
    ) + rule(
        d.principal_return_method != "lump_sum"@ && d.principal_return_method != "installments"@,
        TypeViolationView::InvalidReturnMethod(d.principal_return_method),
    ) + rule(
        d.principal_return_method == "installments"@ && d.installment_schedule is None,
        TypeViolationView::InstallmentScheduleMissing,
    ) + rule(
        d.early_withdrawal_penalty is Some && (d.early_withdrawal_penalty->0 < 0
            || d.early_withdrawal_penalty->0 > SCALE),
        TypeViolationView::PenaltyRateOutOfRange(d.early_withdrawal_penalty->0),
    )
}

/// The rules that a revolving waqf violates.
pub open spec fn revolving_violations(w: WaqfDataView) -> Seq<TypeViolationView> {
    match w.revolving_details {
        None => seq![TypeViolationView::RevolvingDetailsMissing],
        Some(d) => revolving_details_violations(d),
    }
}

/// The sum of the three percentages of one cause's hybrid split, each zero
/// where it is not set.
pub open spec fn hybrid_total(a: HybridCauseAllocationView) -> int {
    (match a.allocations.permanent {
        Some(p) => p as int,
        None => 0,
    }) + (match a.allocations.temporary_consumable {
        Some(p) => p as int,
        None => 0,
    }) + (match a.allocations.temporary_revolving {
        Some(p) => p as int,
        None => 0,
    })
}

/// Whether one cause's hybrid split adds up to one hundred percent within
/// the tolerance.
pub open spec fn hybrid_split_complete(a: HybridCauseAllocationView) -> bool {
    -(TOLERANCE as int) <= hybrid_total(a) - 100 * SCALE <= TOLERANCE as int
}

/// One violation for each cause whose hybrid split does not add up, in
/// order.
pub open spec fn hybrid_sum_violations(allocations: Seq<HybridCauseAllocationView>) -> Seq<
    TypeViolationView,
>
    decreases allocations.len(),
{
    if allocations.len() == 0 {
        Seq::empty()
    } else {
        hybrid_sum_violations(allocations.drop_last()) + rule(
            !hybrid_split_complete(allocations.last()),
            TypeViolationView::HybridSumMismatch {
                cause_id: allocations.last().cause_id,
                total: hybrid_total(allocations.last()) as i128,
            },
        )
    }
}

/// The rules that a hybrid waqf violates: it is flagged as hybrid and has at
/// least one hybrid allocation; and, where the policy enforces it, every
/// cause's split adds up to one hundred percent.
pub open spec fn hybrid_violations(w: WaqfDataView, policy: WaqfPolicy) -> Seq<TypeViolationView> {
    rule(!w.is_hybrid, TypeViolationView::HybridFlagMissing) + (match w.hybrid_allocations {
        None => seq![TypeViolationView::HybridAllocationsMissing],
        Some(allocations) => rule(
            allocations.len() == 0,
            TypeViolationView::HybridAllocationsEmpty,
        ) + (if policy.enforce_hybrid_sums {
            hybrid_sum_violations(allocations)
        } else {
            Seq::empty()
        }),
    })
}

/// The rules that a waqf violates for its own type.
pub open spec fn own_type_violations(w: WaqfDataView, policy: WaqfPolicy) -> Seq<TypeViolationView> {
    match w.waqf_type {
        WaqfType::Permanent => permanent_violations(w),
        WaqfType::TemporaryConsumable => consumable_violations(w),
        WaqfType::TemporaryRevolving => revolving_violations(w),
        WaqfType::Hybrid => hybrid_violations(w, policy),
    }
}

/// Every structural rule that a waqf violates, in the order of the checks:
/// the rules of its own type, then the rule that only a waqf flagged as
/// hybrid carries hybrid allocations.
pub open spec fn type_violations(w: WaqfDataView, policy: WaqfPolicy) -> Seq<TypeViolationView> {
    own_type_violations(w, policy) + rule(
        !w.is_hybrid && w.hybrid_allocations is Some,
        TypeViolationView::UnexpectedHybridAllocations,
    )
}

fn note(violated: bool, violation: TypeViolation, found: &mut Vec<TypeViolation>)
    ensures
        views_of(final(found)@) == views_of(old(found)@) + rule(violated, violation@),
{
    if violated {
        found.push(violation);
    }
    assert(views_of(found@) =~= views_of(old(found)@) + rule(violated, violation@));
}

fn check_permanent(waqf: &WaqfData, found: &mut Vec<TypeViolation>)
    ensures
        views_of(final(found)@) == views_of(old(found)@) + permanent_violations(waqf@),
{
    note(
        waqf.consumable_details.is_some(),
        TypeViolation::PermanentWithConsumableDetails,
        found,
    );
    note(waqf.revolving_details.is_some(), TypeViolation::PermanentWithRevolvingDetails, found);
    note(waqf.is_hybrid, TypeViolation::PermanentMarkedHybrid, found);
    assert(views_of(found@) =~= views_of(old(found)@) + permanent_violations(waqf@));
}

fn check_schedule(
    consumable: &ConsumableWaqfDetails,
    schedule: SpendingSchedule,
    found: &mut Vec<TypeViolation>,
)
    ensures
        views_of(final(found)@) == views_of(old(found)@) + schedule_violations(
            consumable@,
            schedule,
        ),
{
    match schedule {
        SpendingSchedule::Immediate => {
            assert(views_of(found@) =~= views_of(old(found)@) + Seq::<TypeViolationView>::empty());
        },
        SpendingSchedule::MilestoneBased => {
            let missing = match &consumable.milestones {
                Some(milestones) => milestones.len() == 0,
                None => true,
            };
            note(missing, TypeViolation::MilestonesMissing, found);
        },
        SpendingSchedule::Phased => {
            note(
                consumable.start_date.is_none() && consumable.end_date.is_none()
                    && consumable.minimum_monthly_distribution.is_none(),
                TypeViolation::PhasedWithoutBounds,
                found,
            );
        },
        SpendingSchedule::Ongoing => {
            note(
                consumable.minimum_monthly_distribution.is_none()
                    && consumable.target_amount.is_none()
                    && consumable.target_beneficiaries.is_none(),
                TypeViolation::OngoingWithoutCriteria,
                found,
            );
        },
    }
}

fn check_consumable_values(consumable: &ConsumableWaqfDetails, found: &mut Vec<TypeViolation>)
    ensures
        views_of(final(found)@) == views_of(old(found)@) + consumable_value_violations(
            consumable@,
        ),
{
    let empty_dates = match (&consumable.start_date, &consumable.end_date) {
        (Some(start), Some(end)) => start.as_str().is_empty() || end.as_str().is_empty(),
        _ => false,
    };
    note(empty_dates, TypeViolation::EmptyDates, found);
    let bad_target = match consumable.target_amount {
        Some(target) => target <= 0,
        None => false,
    };
    note(bad_target, TypeViolation::TargetAmountNotPositive, found);
    let no_beneficiaries = match consumable.target_beneficiaries {
        Some(target) => target == 0,
        None => false,
    };
    note(no_beneficiaries, TypeViolation::TargetBeneficiariesZero, found);
    let bad_minimum = match consumable.minimum_monthly_distribution {
        Some(minimum) => minimum <= 0,
        None => false,
    };
    note(bad_minimum, TypeViolation::MinimumDistributionNotPositive, found);
    assert(views_of(found@) =~= views_of(old(found)@) + consumable_value_violations(
        consumable@,
    ));
}

fn check_consumable(waqf: &WaqfData, found: &mut Vec<TypeViolation>)
    ensures
        views_of(final(found)@) == views_of(old(found)@) + consumable_violations(waqf@),
{
    match &waqf.consumable_details {
        None => {
            note(true, TypeViolation::ConsumableDetailsMissing, found);
        },
        Some(consumable) => {
            match SpendingSchedule::parse(consumable.spending_schedule.as_str()) {
                None => {
                    note(
                        true,
                        TypeViolation::InvalidSpendingSchedule(consumable.spending_schedule.clone()),
                        found,
                    );
                },
                Some(schedule) => {
                    check_schedule(consumable, schedule, found);
                },
            }
            check_consumable_values(consumable, found);
            assert(views_of(found@) =~= views_of(old(found)@) + consumable_details_violations(
                consumable@,
            ));
        },
    }
}

fn check_revolving_details(revolving: &RevolvingWaqfDetails, found: &mut Vec<TypeViolation>)
    ensures
        views_of(final(found)@) == views_of(old(found)@) + revolving_details_violations(
            revolving@,
        ),
{
    note(revolving.lock_period_months < 1, TypeViolation::LockPeriodTooShort, found);
    note(revolving.lock_period_months > 240, TypeViolation::LockPeriodTooLong, found);
    let installments = is_text(&revolving.principal_return_method, "installments");
    let lump_sum = is_text(&revolving.principal_return_method, "lump_sum");
    note(
        !lump_sum && !installments,
        TypeViolation::InvalidReturnMethod(revolving.principal_return_method.clone()),
        found,
    );
    note(
        installments && revolving.installment_schedule.is_none(),
        TypeViolation::InstallmentScheduleMissing,
        found,
    );
    match revolving.early_withdrawal_penalty {
        Some(penalty) => {
            note(
                penalty < 0 || penalty > SCALE,
                TypeViolation::PenaltyRateOutOfRange(penalty),
                found,
            );
        },
        None => {
            assert(views_of(found@) + Seq::<TypeViolationView>::empty() =~= views_of(found@));
        },
    }
    assert(views_of(found@) =~= views_of(old(found)@) + revolving_details_violations(
        revolving@,
    ));
}

fn check_revolving(waqf: &WaqfData, found: &mut Vec<TypeViolation>)
    ensures
        views_of(final(found)@) == views_of(old(found)@) + revolving_violations(waqf@),
{
    match &waqf.revolving_details {
        None => {
            note(true, TypeViolation::RevolvingDetailsMissing, found);
        },
        Some(revolving) => {
            check_revolving_details(revolving, found);
        },
    }
}

fn check_hybrid_sums(allocations: &[HybridCauseAllocation], found: &mut Vec<TypeViolation>)
    ensures
        views_of(final(found)@) == views_of(old(found)@) + hybrid_sum_violations(
            views_of(allocations@),
        ),
{
    let ghost all = views_of(allocations@);
    let ghost start = views_of(found@);
    let mut i: usize = 0;
    assert(all.take(0) =~= Seq::<HybridCauseAllocationView>::empty());
    assert(views_of(found@) =~= start + hybrid_sum_violations(all.take(0)));
    while i < allocations.len()
        invariant
            i <= allocations@.len(),
            all == views_of(allocations@),
            views_of(found@) == start + hybrid_sum_violations(all.take(i as int)),
        decreases allocations@.len() - i,
    {
        assert(all.take(i + 1).drop_last() =~= all.take(i as int));
        assert(all.take(i + 1).last() == allocations@[i as int]@);
        let split = &allocations[i].allocations;
        let permanent: i128 = match split.permanent {
            Some(p) => p as i128,
            None => 0,
        };
        let consumable: i128 = match split.temporary_consumable {
            Some(p) => p as i128,
            None => 0,
        };
        let revolving: i128 = match split.temporary_revolving {
            Some(p) => p as i128,
            None => 0,
        };
        let total: i128 = permanent + consumable + revolving;
        let gap: i128 = total - 100 * (SCALE as i128);
        note(
            gap > TOLERANCE as i128 || gap < -(TOLERANCE as i128),
            TypeViolation::HybridSumMismatch { cause_id: allocations[i].cause_id.clone(), total },
            found,
        );
        assert(views_of(found@) =~= start + hybrid_sum_violations(all.take(i + 1)));
        i = i + 1;
    }
    assert(all.take(i as int) =~= all);
}

fn check_hybrid(waqf: &WaqfData, policy: &WaqfPolicy, found: &mut Vec<TypeViolation>)
    ensures
        views_of(final(found)@) == views_of(old(found)@) + hybrid_violations(waqf@, *policy),
{
    note(!waqf.is_hybrid, TypeViolation::HybridFlagMissing, found);
    match &waqf.hybrid_allocations {
        None => {
            note(true, TypeViolation::HybridAllocationsMissing, found);
        },
        Some(allocations) => {
            note(allocations.len() == 0, TypeViolation::HybridAllocationsEmpty, found);
            if policy.enforce_hybrid_sums {
                check_hybrid_sums(allocations.as_slice(), found);
            }
        },
    }
    assert(views_of(found@) =~= views_of(old(found)@) + hybrid_violations(waqf@, *policy));
}

/// Lists every structural rule that a waqf violates: the details that its
/// type requires and forbids.
pub fn waqf_type_violations(waqf: &WaqfData, policy: &WaqfPolicy) -> (found: Vec<TypeViolation>)
    ensures
        views_of(found@) == type_violations(waqf@, *policy),
{
    let mut found: Vec<TypeViolation> = Vec::new();
    assert(views_of(found@) =~= Seq::<TypeViolationView>::empty());
    match waqf.waqf_type {
        WaqfType::Permanent => check_permanent(waqf, &mut found),
        WaqfType::TemporaryConsumable => check_consumable(waqf, &mut found),
        WaqfType::TemporaryRevolving => check_revolving(waqf, &mut found),
        WaqfType::Hybrid => check_hybrid(waqf, policy, &mut found),
    }
    note(
        !waqf.is_hybrid && waqf.hybrid_allocations.is_some(),
        TypeViolation::UnexpectedHybridAllocations,
        &mut found,
    );
    assert(views_of(found@) =~= type_violations(waqf@, *policy));
    found
}

fn first_of(found: Vec<TypeViolation>) -> (r: Result<(), TypeViolation>)
    ensures
        stops_at_first(r, views_of(found@)),
{
    let mut found = found;
    if found.len() == 0 {
        Ok(())
    } else {
        Err(found.swap_remove(0))
    }
}

/// Validates that a waqf carries the details its type requires and none
/// that its type forbids, stopping at the first violated rule.
pub fn validate_waqf_type_and_details(waqf: &WaqfData, policy: &WaqfPolicy) -> (r: Result<
    (),
    TypeViolation,
>)
    ensures
        stops_at_first(r, type_violations(waqf@, *policy)),
{
    first_of(waqf_type_violations(waqf, policy))
}

/// Validates that the three percentages of every cause's hybrid split add up
/// to one hundred percent within the tolerance, stopping at the first cause
/// whose split does not.
pub fn validate_hybrid_allocations(allocations: &[HybridCauseAllocation]) -> (r: Result<
    (),
    TypeViolation,
>)
    ensures
        stops_at_first(r, hybrid_sum_violations(views_of(allocations@))),
{
    let mut found: Vec<TypeViolation> = Vec::new();
    assert(views_of(found@) =~= Seq::<TypeViolationView>::empty());
    check_hybrid_sums(allocations, &mut found);
    assert(views_of(found@) =~= hybrid_sum_violations(views_of(allocations@)));
    first_of(found)
}

/// The messages of a list of violations, joined by `"; "`.
pub open spec fn joined_violations(violations: Seq<TypeViolationView>) -> Seq<char>
    decreases violations.len(),
{
    if violations.len() == 0 {
        Seq::empty()
    } else if violations.len() == 1 {
        violations[0].text()
    } else {
        joined_violations(violations.drop_last()) + "; "@ + violations.last().text()
    }
}

/// Joins the messages of a list of violations by `"; "`.
pub fn join_violations(violations: &Vec<TypeViolation>) -> (s: String)
    ensures
        s@ == joined_violations(views_of(violations@)),
{
    let ghost all = views_of(violations@);
    let mut s = String::new();
    let mut i: usize = 0;
    assert(all.take(0) =~= Seq::<TypeViolationView>::empty());
    while i < violations.len()
        invariant
            i <= violations@.len(),
            all == views_of(violations@),
            s@ == joined_violations(all.take(i as int)),
        decreases violations@.len() - i,
    {
        assert(all.take(i + 1).drop_last() =~= all.take(i as int));
        assert(all.take(i + 1).last() == violations@[i as int]@);
        if i > 0 {
            s.append("; ");
        }
        s.append(violations[i].message().as_str());
        proof {
            if i == 0 {
                assert(s@ =~= violations@[0]@.text());
                assert(all.take(1)[0] == violations@[0]@);
            }
        }
        i = i + 1;
    }
    assert(all.take(i as int) =~= all);
    s
}

impl TypeViolationView {
    /// The message that describes the violated rule.
    pub open spec fn text(self) -> Seq<char> {
        match self {
            TypeViolationView::PermanentWithConsumableDetails => "Permanent waqf cannot have consumable details"@,
            TypeViolationView::PermanentWithRevolvingDetails => "Permanent waqf cannot have revolving details"@,
            TypeViolationView::PermanentMarkedHybrid => "Permanent waqf cannot be hybrid"@,
            TypeViolationView::ConsumableDetailsMissing => "Consumable waqf must have consumable details"@,
            TypeViolationView::InvalidSpendingSchedule(x) => "Invalid spending schedule: "@ + x,
            TypeViolationView::MilestonesMissing => "Milestone-based spending requires at least one milestone"@,
            TypeViolationView::PhasedWithoutBounds => "Phased spending requires either time boundaries or minimum distribution amount"@,
            TypeViolationView::OngoingWithoutCriteria => "Ongoing spending requires minimum distribution or target criteria"@,
            TypeViolationView::EmptyDates => "Start and end dates cannot be empty"@,
            TypeViolationView::TargetAmountNotPositive => "Target amount must be positive"@,
            TypeViolationView::TargetBeneficiariesZero => "Target beneficiaries must be at least 1"@,
            TypeViolationView::MinimumDistributionNotPositive => "Minimum monthly distribution must be positive"@,
            TypeViolationView::RevolvingDetailsMissing => "Revolving waqf must have revolving details"@,
            TypeViolationView::LockPeriodTooShort => "Lock period must be at least 1 month"@,
            TypeViolationView::LockPeriodTooLong => "Lock period cannot exceed 240 months (20 years)"@,
            TypeViolationView::InvalidReturnMethod(x) => "Invalid principal return method: "@ + x,
            TypeViolationView::InstallmentScheduleMissing => "Installment method requires installment schedule"@,
            TypeViolationView::PenaltyRateOutOfRange(x) => "Early withdrawal penalty must be between 0 and 1, got "@ + amount_text(x as int),
            TypeViolationView::HybridFlagMissing => "Hybrid waqf type must have is_hybrid flag set to true"@,
            TypeViolationView::HybridAllocationsMissing => "Hybrid waqf must have hybrid allocations"@,
            TypeViolationView::HybridAllocationsEmpty => "Hybrid waqf must have at least one cause allocation"@,
            TypeViolationView::HybridSumMismatch { cause_id, total } => "Hybrid allocations for cause "@ + cause_id + " must sum to 100%, got "@ + amount_text(total as int) + "%"@,
            TypeViolationView::UnexpectedHybridAllocations => "Non-hybrid waqf cannot have hybrid allocations"@,
        }
    }
}

impl TypeViolation {
    /// Describes the violated rule in words, with the values that violate it.
    pub fn message(&self) -> (s: String)
        ensures
            s@ == self@.text(),
    {
        match self {
            TypeViolation::PermanentWithConsumableDetails => String::from_str("Permanent waqf cannot have consumable details"),
            TypeViolation::PermanentWithRevolvingDetails => String::from_str("Permanent waqf cannot have revolving details"),
            TypeViolation::PermanentMarkedHybrid => String::from_str("Permanent waqf cannot be hybrid"),
            TypeViolation::ConsumableDetailsMissing => String::from_str("Consumable waqf must have consumable details"),
            TypeViolation::InvalidSpendingSchedule(x) => {
                let mut s = String::from_str("Invalid spending schedule: ");
                s.append(x.as_str());
                s
            },
            TypeViolation::MilestonesMissing => String::from_str("Milestone-based spending requires at least one milestone"),
            TypeViolation::PhasedWithoutBounds => String::from_str("Phased spending requires either time boundaries or minimum distribution amount"),
            TypeViolation::OngoingWithoutCriteria => String::from_str("Ongoing spending requires minimum distribution or target criteria"),
            TypeViolation::EmptyDates => String::from_str("Start and end dates cannot be empty"),
            TypeViolation::TargetAmountNotPositive => String::from_str("Target amount must be positive"),
            TypeViolation::TargetBeneficiariesZero => String::from_str("Target beneficiaries must be at least 1"),
            TypeViolation::MinimumDistributionNotPositive => String::from_str("Minimum monthly distribution must be positive"),
            TypeViolation::RevolvingDetailsMissing => String::from_str("Revolving waqf must have revolving details"),
            TypeViolation::LockPeriodTooShort => String::from_str("Lock period must be at least 1 month"),
            TypeViolation::LockPeriodTooLong => String::from_str("Lock period cannot exceed 240 months (20 years)"),
            TypeViolation::InvalidReturnMethod(x) => {
                let mut s = String::from_str("Invalid principal return method: ");
                s.append(x.as_str());
                s
            },
            TypeViolation::InstallmentScheduleMissing => String::from_str("Installment method requires installment schedule"),
            TypeViolation::PenaltyRateOutOfRange(x) => {
                let mut s = String::from_str("Early withdrawal penalty must be between 0 and 1, got ");
                s.append(format_amount(*x).as_str());
                s
            },
            TypeViolation::HybridFlagMissing => String::from_str("Hybrid waqf type must have is_hybrid flag set to true"),
            TypeViolation::HybridAllocationsMissing => String::from_str("Hybrid waqf must have hybrid allocations"),
            TypeViolation::HybridAllocationsEmpty => String::from_str("Hybrid waqf must have at least one cause allocation"),
            TypeViolation::HybridSumMismatch { cause_id, total } => {
                let mut s = String::from_str("Hybrid allocations for cause ");
                s.append(cause_id.as_str());
                s.append(" must sum to 100%, got ");
                s.append(format_fixed(*total).as_str());
                s.append("%");
                s
            },
            TypeViolation::UnexpectedHybridAllocations => String::from_str("Non-hybrid waqf cannot have hybrid allocations"),
        }
    }
}
} // verus!
