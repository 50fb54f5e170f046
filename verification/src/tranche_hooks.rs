//! The rules on tranches and the return of a tranche: by payout, by
//! installments or by rollover.

use vstd::prelude::*;
use crate::fixed::{mul_div_clamped, mul_div_nonnegative, NANOS_PER_DAY, SCALE};
use crate::text::{
    amount_text, decimal, format_amount, is_text, parse_u64, parse_u64_spec, same_text,
    u64_to_string,
};
use crate::tranche_creation::{
    lock_tranche, locked_tranche, maturity_after, tranches_of, waqf_tranches,
};
use crate::tranche_error::{first_flaw, flaw, outcome_is, TrancheError, TrancheErrorView};
use crate::vocabulary::{SpendingSchedule, TrancheStatus};
use crate::waqf_types::{
    clone_preference, ContributionTranche, ContributionTrancheView, ConversionDetails,
    ConversionDetailsView, ExpirationAction, FinancialMetricsView, InstallmentPayment,
    InstallmentPaymentView, InstallmentSchedule, InstallmentScheduleView, RevolvingWaqfDetails,
    RevolvingWaqfDetailsView, TrancheExpirationPreference, TrancheExpirationPreferenceView,
    views_of, WaqfData, WaqfDataView,
};

verus! {

/// A request to return one tranche of a waqf, kept as an audit record.
#[derive(Debug, Clone, PartialEq)]
pub struct TrancheReturnRequest {
    pub waqf_id: String,
    pub tranche_id: String,
    pub requested_by: String,
    pub timestamp: u64,
}

/// Mathematical model of [`TrancheReturnRequest`].
pub ghost struct TrancheReturnRequestView {
    pub waqf_id: Seq<char>,
    pub tranche_id: Seq<char>,
    pub requested_by: Seq<char>,
    pub timestamp: u64,
}

impl View for TrancheReturnRequest {
    type V = TrancheReturnRequestView;

    open spec fn view(&self) -> TrancheReturnRequestView {
        TrancheReturnRequestView {
            waqf_id: self.waqf_id@,
            tranche_id: self.tranche_id@,
            requested_by: self.requested_by@,
            timestamp: self.timestamp,
        }
    }
}

/// The rule that a rollover period violates, if any: it is named and lies
/// between 1 and 240 months.
pub open spec fn rollover_period_error(months: Option<u32>) -> Option<TrancheErrorView> {
    match months {
        None => Some(TrancheErrorView::RolloverMonthsMissing),
        Some(m) => if m < 1 {
            Some(TrancheErrorView::RolloverTooShort)
        } else if m > 240 {
            Some(TrancheErrorView::RolloverTooLong)
        } else {
            None
        },
    }
}

/// Every rule that an expiration preference violates, in the order of the
/// checks.
///
/// A refund and a conversion to a permanent waqf need nothing more. A
/// rollover names a period of 1 to 240 months. A conversion to a consumable
/// waqf may name one of the four spending schedules and a duration of 1 to 60
/// months.
pub open spec fn preference_violations(p: TrancheExpirationPreferenceView) -> Seq<
    TrancheErrorView,
> {
    match p.action {
        ExpirationAction::Refund => Seq::empty(),
        ExpirationAction::ConvertPermanent => Seq::empty(),
        ExpirationAction::Rollover => match rollover_period_error(p.rollover_months) {
            Some(e) => seq![e],
            None => Seq::empty(),
        },
        ExpirationAction::ConvertConsumable => flaw(
            p.consumable_schedule is Some && SpendingSchedule::from_text(p.consumable_schedule->0)
                is None,
            TrancheErrorView::InvalidConsumableSchedule(p.consumable_schedule->0),
        ) + flaw(
            p.consumable_duration is Some && p.consumable_duration->0 < 1,
            TrancheErrorView::ConsumableDurationTooShort,
        ) + flaw(
            p.consumable_duration is Some && p.consumable_duration->0 > 60,
            TrancheErrorView::ConsumableDurationTooLong,
        ),
    }
}

/// The first rule that an expiration preference violates, if any.
pub open spec fn expiration_preference_error(p: TrancheExpirationPreferenceView) -> Option<
    TrancheErrorView,
> {
    first_flaw(preference_violations(p))
}

fn report(violated: bool, error: TrancheError, found: &mut Vec<TrancheError>)
    ensures
        views_of(final(found)@) == views_of(old(found)@) + flaw(violated, error@),
{
    if violated {
        found.push(error);
    }
    assert(views_of(found@) =~= views_of(old(found)@) + flaw(violated, error@));
}

fn first_found(found: Vec<TrancheError>) -> (r: Result<(), TrancheError>)
    ensures
        outcome_is(r, first_flaw(views_of(found@))),
{
    let mut found = found;
    if found.len() == 0 {
        Ok(())
    } else {
        Err(found.swap_remove(0))
    }
}

fn check_preference(preference: &TrancheExpirationPreference, found: &mut Vec<TrancheError>)
    ensures
        views_of(final(found)@) == views_of(old(found)@) + preference_violations(preference@),
{
    match preference.action {
        ExpirationAction::Refund => {
            assert(views_of(found@) + Seq::<TrancheErrorView>::empty() =~= views_of(found@));
        },
        ExpirationAction::ConvertPermanent => {
            assert(views_of(found@) + Seq::<TrancheErrorView>::empty() =~= views_of(found@));
        },
        ExpirationAction::Rollover => {
            match preference.rollover_months {
                Some(months) => {
                    if months < 1 {
                        report(true, TrancheError::RolloverTooShort, found);
                    } else if months > 240 {
                        report(true, TrancheError::RolloverTooLong, found);
                    } else {
                        assert(views_of(found@) + Seq::<TrancheErrorView>::empty() =~= views_of(
                            found@,
                        ));
                    }
                },
                None => {
                    report(true, TrancheError::RolloverMonthsMissing, found);
                },
            }
        },
        ExpirationAction::ConvertConsumable => {
            match &preference.consumable_schedule {
                Some(schedule) => {
                    report(
                        SpendingSchedule::parse(schedule.as_str()).is_none(),
                        TrancheError::InvalidConsumableSchedule(schedule.clone()),
                        found,
                    );
                },
                None => {
                    assert(views_of(found@) + Seq::<TrancheErrorView>::empty() =~= views_of(
                        found@,
                    ));
                },
            }
            let too_short = match preference.consumable_duration {
                Some(duration) => duration < 1,
                None => false,
            };
            report(too_short, TrancheError::ConsumableDurationTooShort, found);
            let too_long = match preference.consumable_duration {
                Some(duration) => duration > 60,
                None => false,
            };
            report(too_long, TrancheError::ConsumableDurationTooLong, found);
            assert(views_of(found@) =~= views_of(old(found)@) + preference_violations(
                preference@,
            ));
        },
    }
}

/// Lists every rule that an expiration preference violates.
pub fn expiration_preference_violations(preference: &TrancheExpirationPreference) -> (found: Vec<
    TrancheError,
>)
    ensures
        views_of(found@) == preference_violations(preference@),
{
    let mut found: Vec<TrancheError> = Vec::new();
    assert(views_of(found@) =~= Seq::<TrancheErrorView>::empty());
    check_preference(preference, &mut found);
    assert(views_of(found@) =~= preference_violations(preference@));
    found
}

/// Validates the settings of an expiration preference, stopping at the
/// first violated rule.
pub fn validate_expiration_preference(preference: &TrancheExpirationPreference) -> (r: Result<
    (),
    TrancheError,
>)
    ensures
        outcome_is(r, expiration_preference_error(preference@)),
{
    first_found(expiration_preference_violations(preference))
}

/// Whether a text is neither empty nor a decimal timestamp.
pub open spec fn unreadable_timestamp(s: Seq<char>) -> bool {
    s.len() > 0 && parse_u64_spec(s) is None
}

/// Every rule that an installment payment violates: a positive amount, a
/// due date that is a decimal timestamp, a paid date that is empty or a
/// decimal timestamp, and a status of `scheduled`, `paid` or `missed`.
pub open spec fn installment_violations(p: InstallmentPaymentView) -> Seq<TrancheErrorView> {
    flaw(p.amount <= 0, TrancheErrorView::InstallmentNonPositive) + flaw(
        p.due_date.len() == 0,
        TrancheErrorView::InstallmentDueDateMissing,
    ) + flaw(unreadable_timestamp(p.due_date), TrancheErrorView::InvalidInstallmentDueDate) + flaw(
        p.paid_date is Some && unreadable_timestamp(p.paid_date->0),
        TrancheErrorView::InvalidInstallmentPaidDate,
    ) + flaw(
        p.status != "scheduled"@ && p.status != "paid"@ && p.status != "missed"@,
        TrancheErrorView::InvalidInstallmentStatus(p.status),
    )
}

/// Every rule that the payments of a list violate, payment by payment.
pub open spec fn installments_violations(ps: Seq<InstallmentPaymentView>) -> Seq<TrancheErrorView>
    decreases ps.len(),
{
    if ps.len() == 0 {
        Seq::empty()
    } else {
        installments_violations(ps.drop_last()) + installment_violations(ps.last())
    }
}

/// Every rule that a conversion record violates: a time, a new waqf and a
/// target type are named, and the target type is `permanent` or
/// `temporary_consumable`.
pub open spec fn conversion_violations(c: ConversionDetailsView) -> Seq<TrancheErrorView> {
    flaw(c.converted_at.len() == 0, TrancheErrorView::ConversionTimestampEmpty) + flaw(
        c.new_waqf_id.len() == 0,
        TrancheErrorView::ConversionWaqfIdEmpty,
    ) + flaw(c.target_waqf_type.len() == 0, TrancheErrorView::ConversionTypeEmpty) + flaw(
        c.target_waqf_type.len() > 0 && c.target_waqf_type != "permanent"@ && c.target_waqf_type
            != "temporary_consumable"@,
        TrancheErrorView::InvalidConversionType(c.target_waqf_type),
    )
}

/// The rules on what a tranche is that it violates: it has an identifier
/// and a positive amount.
pub open spec fn tranche_identity_violations(t: ContributionTrancheView) -> Seq<TrancheErrorView> {
    flaw(t.id.len() == 0, TrancheErrorView::EmptyId) + flaw(
        t.amount <= 0,
        TrancheErrorView::NonPositiveAmount,
    )
}

/// The rules on dates that a tranche violates: contribution and maturity
/// dates are decimal timestamps, and the returned date is empty or one.
pub open spec fn tranche_date_violations(t: ContributionTrancheView) -> Seq<TrancheErrorView> {
    flaw(t.contribution_date.len() == 0, TrancheErrorView::ContributionDateMissing) + flaw(
        t.maturity_date.len() == 0,
        TrancheErrorView::MaturityDateMissing,
    ) + flaw(
        unreadable_timestamp(t.contribution_date),
        TrancheErrorView::InvalidContributionDate,
    ) + flaw(unreadable_timestamp(t.maturity_date), TrancheErrorView::InvalidMaturityDate) + flaw(
        t.returned_date is Some && unreadable_timestamp(t.returned_date->0),
        TrancheErrorView::InvalidReturnedDate,
    )
}

/// The rules on its state that a tranche violates: the status is one of the
/// five tranche states, and the penalty is not negative.
pub open spec fn tranche_state_violations(t: ContributionTrancheView) -> Seq<TrancheErrorView> {
    flaw(
        t.status is Some && TrancheStatus::from_text(t.status->0) is None,
        TrancheErrorView::InvalidStatus(t.status->0),
    ) + flaw(
        t.penalty_applied is Some && t.penalty_applied->0 < 0,
        TrancheErrorView::NegativePenalty,
    )
}

/// Every rule that the tranche's own fields violate: identity, dates and
/// state, in this order.
pub open spec fn tranche_field_violations(t: ContributionTrancheView) -> Seq<TrancheErrorView> {
    tranche_identity_violations(t) + tranche_date_violations(t) + tranche_state_violations(t)
}

/// Every rule that a tranche violates, in the order of the checks: its own
/// fields, then its installment payments in order, its expiration
/// preference and its conversion record.
pub open spec fn tranche_violations(t: ContributionTrancheView) -> Seq<TrancheErrorView> {
    tranche_field_violations(t) + (match t.installment_payments {
        Some(ps) => installments_violations(ps),
        None => Seq::empty(),
    }) + (match t.expiration_preference {
        Some(p) => preference_violations(p),
        None => Seq::empty(),
    }) + (match t.conversion_details {
        Some(c) => conversion_violations(c),
        None => Seq::empty(),
    })
}

/// The first rule that a tranche violates, if any.
pub open spec fn tranche_data_error(t: ContributionTrancheView) -> Option<TrancheErrorView> {
    first_flaw(tranche_violations(t))
}

fn is_unreadable_timestamp(s: &String) -> (r: bool)
    ensures
        r == unreadable_timestamp(s@),
{
    !s.as_str().is_empty() && parse_u64(s.as_str()).is_none()
}

fn is_unreadable_optional(s: &Option<String>) -> (r: bool)
    ensures
        r == (s is Some && unreadable_timestamp(s->0@)),
{
    match s {
        Some(text) => is_unreadable_timestamp(text),
        None => false,
    }
}

fn check_installment(payment: &InstallmentPayment, found: &mut Vec<TrancheError>)
    ensures
        views_of(final(found)@) == views_of(old(found)@) + installment_violations(payment@),
{
    report(payment.amount <= 0, TrancheError::InstallmentNonPositive, found);
    report(payment.due_date.as_str().is_empty(), TrancheError::InstallmentDueDateMissing, found);
    report(
        is_unreadable_timestamp(&payment.due_date),
        TrancheError::InvalidInstallmentDueDate,
        found,
    );
    report(
        is_unreadable_optional(&payment.paid_date),
        TrancheError::InvalidInstallmentPaidDate,
        found,
    );
    report(
        !is_text(&payment.status, "scheduled") && !is_text(&payment.status, "paid") && !is_text(
            &payment.status,
            "missed",
        ),
        TrancheError::InvalidInstallmentStatus(payment.status.clone()),
        found,
    );
    assert(views_of(found@) =~= views_of(old(found)@) + installment_violations(payment@));
}

fn check_installments(payments: &Vec<InstallmentPayment>, found: &mut Vec<TrancheError>)
    ensures
        views_of(final(found)@) == views_of(old(found)@) + installments_violations(
            views_of(payments@),
        ),
{
    let ghost all = views_of(payments@);
    let ghost start = views_of(found@);
    let mut i: usize = 0;
    assert(all.take(0) =~= Seq::<InstallmentPaymentView>::empty());
    assert(views_of(found@) =~= start + installments_violations(all.take(0)));
    while i < payments.len()
        invariant
            i <= payments@.len(),
            all == views_of(payments@),
            views_of(found@) == start + installments_violations(all.take(i as int)),
        decreases payments@.len() - i,
    {
        assert(all.take(i + 1).drop_last() =~= all.take(i as int));
        assert(all.take(i + 1).last() == payments@[i as int]@);
        check_installment(&payments[i], found);
        assert(views_of(found@) =~= start + installments_violations(all.take(i + 1)));
        i = i + 1;
    }
    assert(all.take(i as int) =~= all);
}

fn check_conversion(conversion: &ConversionDetails, found: &mut Vec<TrancheError>)
    ensures
        views_of(final(found)@) == views_of(old(found)@) + conversion_violations(conversion@),
{
    report(
        conversion.converted_at.as_str().is_empty(),
        TrancheError::ConversionTimestampEmpty,
        found,
    );
    report(conversion.new_waqf_id.as_str().is_empty(), TrancheError::ConversionWaqfIdEmpty, found);
    let no_type = conversion.target_waqf_type.as_str().is_empty();
    report(no_type, TrancheError::ConversionTypeEmpty, found);
    report(
        !no_type && !is_text(&conversion.target_waqf_type, "permanent") && !is_text(
            &conversion.target_waqf_type,
            "temporary_consumable",
        ),
        TrancheError::InvalidConversionType(conversion.target_waqf_type.clone()),
        found,
    );
    assert(views_of(found@) =~= views_of(old(found)@) + conversion_violations(conversion@));
}

fn check_tranche_identity(tranche: &ContributionTranche, found: &mut Vec<TrancheError>)
    ensures
        views_of(final(found)@) == views_of(old(found)@) + tranche_identity_violations(tranche@),
{
    report(tranche.id.as_str().is_empty(), TrancheError::EmptyId, found);
    report(tranche.amount <= 0, TrancheError::NonPositiveAmount, found);
    assert(views_of(found@) =~= views_of(old(found)@) + tranche_identity_violations(tranche@));
}

fn check_tranche_dates(tranche: &ContributionTranche, found: &mut Vec<TrancheError>)
    ensures
        views_of(final(found)@) == views_of(old(found)@) + tranche_date_violations(tranche@),
{
    report(
        tranche.contribution_date.as_str().is_empty(),
        TrancheError::ContributionDateMissing,
        found,
    );
    report(tranche.maturity_date.as_str().is_empty(), TrancheError::MaturityDateMissing, found);
    report(
        is_unreadable_timestamp(&tranche.contribution_date),
        TrancheError::InvalidContributionDate,
        found,
    );
    report(
        is_unreadable_timestamp(&tranche.maturity_date),
        TrancheError::InvalidMaturityDate,
        found,
    );
    report(
        is_unreadable_optional(&tranche.returned_date),
        TrancheError::InvalidReturnedDate,
        found,
    );
    assert(views_of(found@) =~= views_of(old(found)@) + tranche_date_violations(tranche@));
}

fn check_tranche_state(tranche: &ContributionTranche, found: &mut Vec<TrancheError>)
    ensures
        views_of(final(found)@) == views_of(old(found)@) + tranche_state_violations(tranche@),
{
    match &tranche.status {
        Some(status) => {
            report(
                TrancheStatus::parse(status.as_str()).is_none(),
                TrancheError::InvalidStatus(status.clone()),
                found,
            );
        },
        None => {
            assert(views_of(found@) + Seq::<TrancheErrorView>::empty() =~= views_of(found@));
        },
    }
    let negative = match tranche.penalty_applied {
        Some(penalty) => penalty < 0,
        None => false,
    };
    report(negative, TrancheError::NegativePenalty, found);
    assert(views_of(found@) =~= views_of(old(found)@) + tranche_state_violations(tranche@));
}

fn check_tranche_fields(tranche: &ContributionTranche, found: &mut Vec<TrancheError>)
    ensures
        views_of(final(found)@) == views_of(old(found)@) + tranche_field_violations(tranche@),
{
    check_tranche_identity(tranche, found);
    check_tranche_dates(tranche, found);
    check_tranche_state(tranche, found);
    assert(views_of(found@) =~= views_of(old(found)@) + tranche_field_violations(tranche@));
}

/// Lists every rule that a contribution tranche violates.
pub fn tranche_data_violations(tranche: &ContributionTranche) -> (found: Vec<TrancheError>)
    ensures
        views_of(found@) == tranche_violations(tranche@),
{
    let mut found: Vec<TrancheError> = Vec::new();
    assert(views_of(found@) =~= Seq::<TrancheErrorView>::empty());
    check_tranche_fields(tranche, &mut found);
    let ghost fields = views_of(found@);
    match &tranche.installment_payments {
        Some(payments) => {
            check_installments(payments, &mut found);
        },
        None => {
            assert(views_of(found@) + Seq::<TrancheErrorView>::empty() =~= views_of(found@));
        },
    }
    let ghost payments = views_of(found@);
    match &tranche.expiration_preference {
        Some(preference) => {
            check_preference(preference, &mut found);
        },
        None => {
            assert(views_of(found@) + Seq::<TrancheErrorView>::empty() =~= views_of(found@));
        },
    }
    let ghost preference = views_of(found@);
    match &tranche.conversion_details {
        Some(conversion) => {
            check_conversion(conversion, &mut found);
        },
        None => {
            assert(views_of(found@) + Seq::<TrancheErrorView>::empty() =~= views_of(found@));
        },
    }
    assert(views_of(found@) =~= tranche_violations(tranche@));
    found
}

/// Validates the fields of a contribution tranche, stopping at the first
/// violated rule.
pub fn validate_tranche_data(tranche: &ContributionTranche) -> (r: Result<(), TrancheError>)
    ensures
        outcome_is(r, tranche_data_error(tranche@)),
{
    first_found(tranche_data_violations(tranche))
}

/// Whether a tranche's status marks it as rolled over.
pub open spec fn is_rolled_over(t: ContributionTrancheView) -> bool {
    t.status == Some(TrancheStatus::RolledOver.text())
}

/// Whole days from `now` until a later `maturity`.
pub open spec fn days_until(now: u64, maturity: u64) -> int {
    (maturity - now) / (NANOS_PER_DAY as int)
}

/// The first reason, if any, why a tranche cannot be converted into a new
/// waqf at time `now`: it is returned, converted or rolled over already, its
/// maturity date is unreadable or still ahead, or the waqf's balance does not
/// cover its amount.
pub open spec fn conversion_error(t: ContributionTrancheView, w: WaqfDataView, now: u64) -> Option<
    TrancheErrorView,
> {
    if t.is_returned {
        Some(TrancheErrorView::ConvertReturned)
    } else if t.conversion_details is Some {
        Some(TrancheErrorView::AlreadyConverted)
    } else if is_rolled_over(t) {
        Some(TrancheErrorView::ConvertRolledOver)
    } else {
        match parse_u64_spec(t.maturity_date) {
            None => Some(TrancheErrorView::InvalidMaturityDate),
            Some(maturity) => if now < maturity {
                Some(TrancheErrorView::NotMatured { days_until: days_until(now, maturity) as u64 })
            } else if w.financial.current_balance < t.amount {
                Some(
                    TrancheErrorView::InsufficientBalance {
                        required: t.amount,
                        available: w.financial.current_balance,
                    },
                )
            } else {
                None
            },
        }
    }
}

fn status_is_rolled_over(tranche: &ContributionTranche) -> (r: bool)
    ensures
        r == is_rolled_over(tranche@),
{
    match &tranche.status {
        Some(s) => same_text(s.as_str(), TrancheStatus::RolledOver.as_str()),
        None => false,
    }
}

/// Checks that a tranche can be converted into a new waqf at time `now`.
pub fn validate_tranche_conversion(tranche: &ContributionTranche, waqf: &WaqfData, now: u64) -> (r:
    Result<(), TrancheError>)
    ensures
        outcome_is(r, conversion_error(tranche@, waqf@, now)),
{
    if tranche.is_returned {
        return Err(TrancheError::ConvertReturned);
    }
    if tranche.conversion_details.is_some() {
        return Err(TrancheError::AlreadyConverted);
    }
    if status_is_rolled_over(tranche) {
        return Err(TrancheError::ConvertRolledOver);
    }
    let maturity = match parse_u64(tranche.maturity_date.as_str()) {
        Some(m) => m,
        None => {
            return Err(TrancheError::InvalidMaturityDate);
        },
    };
    if now < maturity {
        return Err(TrancheError::NotMatured { days_until: (maturity - now) / NANOS_PER_DAY });
    }
    if waqf.financial.current_balance < tranche.amount {
        return Err(
            TrancheError::InsufficientBalance {
                required: tranche.amount,
                available: waqf.financial.current_balance,
            },
        );
    }
    Ok(())
}

/// The first reason, if any, why a tranche cannot be rolled over at time
/// `now` for the given number of months.
pub open spec fn rollover_error(t: ContributionTrancheView, rollover_months: u32, now: u64) -> Option<
    TrancheErrorView,
> {
    if t.is_returned {
        Some(TrancheErrorView::RolloverReturned)
    } else if is_rolled_over(t) {
        Some(TrancheErrorView::AlreadyRolledOver)
    } else {
        match parse_u64_spec(t.maturity_date) {
            None => Some(TrancheErrorView::InvalidMaturityDate),
            Some(maturity) => if now < maturity {
                Some(TrancheErrorView::RolloverNotMatured)
            } else {
                rollover_period_error(Some(rollover_months))
            },
        }
    }
}

/// Checks that a tranche can be rolled over at time `now`.
pub fn validate_tranche_rollover(tranche: &ContributionTranche, rollover_months: u32, now: u64) -> (r:
    Result<(), TrancheError>)
    ensures
        outcome_is(r, rollover_error(tranche@, rollover_months, now)),
{
    if tranche.is_returned {
        return Err(TrancheError::RolloverReturned);
    }
    if status_is_rolled_over(tranche) {
        return Err(TrancheError::AlreadyRolledOver);
    }
    let maturity = match parse_u64(tranche.maturity_date.as_str()) {
        Some(m) => m,
        None => {
            return Err(TrancheError::InvalidMaturityDate);
        },
    };
    if now < maturity {
        return Err(TrancheError::RolloverNotMatured);
    }
    if rollover_months < 1 {
        return Err(TrancheError::RolloverTooShort);
    }
    if rollover_months > 240 {
        return Err(TrancheError::RolloverTooLong);
    }
    Ok(())
}

/// The three ways in which a return request is settled.
#[derive(Clone, Copy, Debug, PartialEq, Eq, Structural)]
pub enum ReturnPath {
    /// The principal is paid back in scheduled installments.
    Installments,
    /// The principal is locked again in a new tranche.
    Rollover,
    /// The principal leaves the waqf at once.
    Payout,
}

/// Whether `i` is the position of the first tranche with the given identifier.
pub open spec fn is_first_with_id(ts: Seq<ContributionTrancheView>, id: Seq<char>, i: int) -> bool {
    &&& 0 <= i < ts.len()
    &&& ts[i].id == id
    &&& forall|j: int| 0 <= j < i ==> (#[trigger] ts[j]).id != id
}

/// Whether some tranche has the given identifier.
pub open spec fn has_tranche(ts: Seq<ContributionTrancheView>, id: Seq<char>) -> bool {
    exists|i: int| is_first_with_id(ts, id, i)
}

/// The position of the first tranche with the given identifier.
pub open spec fn tranche_position(ts: Seq<ContributionTrancheView>, id: Seq<char>) -> int {
    choose|i: int| is_first_with_id(ts, id, i)
}

/// The penalty on returning `amount`: the amount times the waqf's penalty
/// rate when the return is early and a rate is set, never below zero.
pub open spec fn penalty_amount(amount: i64, rate: Option<i64>, early: bool) -> int {
    if early && rate is Some {
        mul_div_clamped(amount as int, rate->0 as int, SCALE as int)
    } else {
        0
    }
}

/// What is left of `amount` after the penalty, never below zero.
pub open spec fn net_return(amount: i64, penalty: int) -> int {
    if amount - penalty > 0 {
        amount - penalty
    } else {
        0
    }
}

/// How a return is settled: by installments where the waqf returns principal
/// in installments and has a schedule; else by rollover where the tranche has
/// matured and the waqf names a rollover strategy other than `none`; else by
/// payout.
pub open spec fn return_path(d: RevolvingWaqfDetailsView, early: bool) -> ReturnPath {
    if d.principal_return_method == "installments"@ && d.installment_schedule is Some {
        ReturnPath::Installments
    } else if !early && d.auto_rollover_preference is Some && d.auto_rollover_preference->0
        != "none"@ {
        ReturnPath::Rollover
    } else {
        ReturnPath::Payout
    }
}

/// Days between installments: 30 for `monthly` and any unknown cadence, 90
/// for `quarterly`, 365 for `annually`.
pub open spec fn interval_days(frequency: Seq<char>) -> int {
    if frequency == "quarterly"@ {
        90
    } else if frequency == "annually"@ {
        365
    } else {
        30
    }
}

/// The number of payments of a schedule, at least one.
pub open spec fn installment_count(s: InstallmentScheduleView) -> int {
    if s.number_of_installments > 1 {
        s.number_of_installments as int
    } else {
        1
    }
}

/// Due time of payment `k` (counted from zero) of a plan made at `now`.
pub open spec fn installment_due(now: u64, frequency: Seq<char>, k: int) -> int {
    now + interval_days(frequency) * NANOS_PER_DAY * (k + 1)
}

/// Amount of payment `k` when `net` is split into `count` payments: the
/// payments differ by at most one unit and add up to `net`.
pub open spec fn installment_amount(net: int, count: int, k: int) -> int {
    net / count + if k < net % count {
        1int
    } else {
        0int
    }
}

/// Payment `k` (counted from zero) of the plan for a tranche.
pub open spec fn installment(
    tranche_id: Seq<char>,
    net: int,
    now: u64,
    s: InstallmentScheduleView,
    k: int,
) -> InstallmentPaymentView {
    InstallmentPaymentView {
        id: "inst_"@ + tranche_id + "_"@ + decimal((k + 1) as nat),
        amount: installment_amount(net, installment_count(s), k) as i64,
        due_date: decimal(installment_due(now, s.frequency, k) as nat),
        status: "scheduled"@,
        paid_date: None,
    }
}

/// The payment plan that returns `net` for a tranche from time `now` on.
pub open spec fn installment_plan(
    tranche_id: Seq<char>,
    net: int,
    now: u64,
    s: InstallmentScheduleView,
) -> Seq<InstallmentPaymentView> {
    Seq::new(installment_count(s) as nat, |k: int| installment(tranche_id, net, now, s, k))
}

/// Identifier of the tranche that continues `tranche_id` after a rollover at
/// time `now`.
pub open spec fn rollover_id(tranche_id: Seq<char>, now: u64) -> Seq<char> {
    "tranche_rollover_"@ + tranche_id + "_"@ + decimal(now as nat)
}

/// The tranche that a rollover at `now` creates from tranche `t`: it holds
/// the net amount, is locked for the waqf's lock period, points back to `t`
/// and inherits its expiration preference.
pub open spec fn rollover_tranche(
    t: ContributionTrancheView,
    tranche_id: Seq<char>,
    net: int,
    months: u32,
    now: u64,
) -> ContributionTrancheView {
    ContributionTrancheView {
        rollover_origin_id: Some(tranche_id),
        ..locked_tranche(
            rollover_id(tranche_id, now),
            net as i64,
            now,
            months,
            t.expiration_preference,
        )
    }
}

/// The message that announces a payment plan.
pub open spec fn installment_notice(tranche_id: Seq<char>, net: int) -> Seq<char> {
    "Installment schedule created for tranche "@ + tranche_id + ". Total to return: "@
        + amount_text(net)
}

/// The message that announces a rollover.
pub open spec fn rollover_notice(d: RevolvingWaqfDetailsView, tranche_id: Seq<char>, now: u64) -> Seq<
    char,
> {
    let head = "Matured tranche "@ + tranche_id + " rolled over into "@ + rollover_id(
        tranche_id,
        now,
    );
    match d.auto_rollover_target_cause {
        Some(cause) => head + " for cause "@ + cause,
        None => head + " (strategy: "@ + d.auto_rollover_preference->0 + ")"@,
    }
}

/// The message that announces an early withdrawal and its penalty.
pub open spec fn early_notice(tranche_id: Seq<char>, penalty: int) -> Seq<char> {
    "Early withdrawal processed for tranche "@ + tranche_id + ". Penalty applied: "@ + amount_text(
        penalty,
    )
}

/// The messages that a return adds to the waqf's pending notifications, in
/// order: one for a payment plan or a rollover, then one for an early
/// withdrawal.
pub open spec fn return_notices(
    d: RevolvingWaqfDetailsView,
    tranche_id: Seq<char>,
    path: ReturnPath,
    early: bool,
    penalty: int,
    net: int,
    now: u64,
) -> Seq<Seq<char>> {
    (match path {
        ReturnPath::Installments => seq![installment_notice(tranche_id, net)],
        ReturnPath::Rollover => seq![rollover_notice(d, tranche_id, now)],
        ReturnPath::Payout => Seq::empty(),
    }) + (if early {
        seq![early_notice(tranche_id, penalty)]
    } else {
        Seq::empty()
    })
}

/// Pending notifications after more are added; an absent list stays absent
/// when nothing is added.
pub open spec fn with_notices(existing: Option<Seq<Seq<char>>>, added: Seq<Seq<char>>) -> Option<
    Seq<Seq<char>>,
> {
    if added.len() == 0 {
        existing
    } else {
        Some(
            (match existing {
                Some(e) => e,
                None => Seq::empty(),
            }) + added,
        )
    }
}

/// The first reason, if any, why tranche `tranche_id` of waqf `w` cannot be
/// returned at time `now`.
///
/// The waqf must be revolving and hold the tranche; the tranche must not be
/// returned already and must have a readable maturity date; a return before
/// maturity needs the waqf's permission. Beyond these rules a return fails
/// only where a value to be written cannot be represented: a penalty above
/// `i64::MAX`, or a due date or maturity beyond `u64::MAX`.
pub open spec fn return_error(w: WaqfDataView, tranche_id: Seq<char>, now: u64) -> Option<
    TrancheErrorView,
> {
    match w.revolving_details {
        None => Some(TrancheErrorView::NotRevolving),
        Some(d) => {
            let ts = tranches_of(d);
            if !has_tranche(ts, tranche_id) {
                Some(TrancheErrorView::TrancheNotFound(tranche_id))
            } else {
                let t = ts[tranche_position(ts, tranche_id)];
                if t.is_returned {
                    Some(TrancheErrorView::AlreadyReturned)
                } else {
                    match parse_u64_spec(t.maturity_date) {
                        None => Some(TrancheErrorView::InvalidMaturityDate),
                        Some(maturity) => {
                            let early = now < maturity;
                            if early && !d.early_withdrawal_allowed {
                                Some(TrancheErrorView::EarlyWithdrawalNotAllowed(t.maturity_date))
                            } else if penalty_amount(t.amount, d.early_withdrawal_penalty, early)
                                > i64::MAX {
                                Some(TrancheErrorView::PenaltyOutOfRange)
                            } else {
                                match return_path(d, early) {
                                    ReturnPath::Installments => if t.installment_payments is None
                                        && installment_due(
                                        now,
                                        d.installment_schedule->0.frequency,
                                        installment_count(d.installment_schedule->0) - 1,
                                    ) > u64::MAX {
                                        Some(TrancheErrorView::TimestampOutOfRange)
                                    } else {
                                        None
                                    },
                                    ReturnPath::Rollover => if maturity_after(
                                        now,
                                        d.lock_period_months,
                                    ) > u64::MAX {
                                        Some(TrancheErrorView::TimestampOutOfRange)
                                    } else {
                                        None
                                    },
                                    ReturnPath::Payout => None,
                                }
                            }
                        },
                    }
                }
            }
        },
    }
}

/// The returned tranche itself after its return is settled.
///
/// On the installment path it becomes `return_scheduled`, stays unreturned
/// and receives a payment plan unless it has one. On the other paths it is
/// returned at `return_date`, as `rolled_over` pointing to its successor or
/// as `returned`. Any penalty above zero is recorded.
pub open spec fn settled_tranche(
    t: ContributionTrancheView,
    d: RevolvingWaqfDetailsView,
    tranche_id: Seq<char>,
    path: ReturnPath,
    penalty: int,
    net: int,
    return_date: u64,
    now: u64,
) -> ContributionTrancheView {
    ContributionTrancheView {
        is_returned: path != ReturnPath::Installments,
        returned_date: if path == ReturnPath::Installments {
            None
        } else {
            Some(decimal(return_date as nat))
        },
        status: Some(
            match path {
                ReturnPath::Installments => TrancheStatus::ReturnScheduled.text(),
                ReturnPath::Rollover => TrancheStatus::RolledOver.text(),
                ReturnPath::Payout => TrancheStatus::Returned.text(),
            },
        ),
        penalty_applied: if penalty > 0 {
            Some(penalty as i64)
        } else {
            None
        },
        rollover_target_id: if path == ReturnPath::Rollover {
            Some(rollover_id(tranche_id, now))
        } else {
            t.rollover_target_id
        },
        installment_payments: if path == ReturnPath::Installments && t.installment_payments
            is None {
            Some(installment_plan(tranche_id, net, now, d.installment_schedule->0))
        } else {
            t.installment_payments
        },
        ..t
    }
}

/// The waqf after tranche `tranche_id` has been returned at time `now`.
///
/// Only the tranche list, the pending notifications and the current balance
/// change. The returned tranche is settled in place; a rollover appends its
/// successor; the balance drops by the net return, not below zero, on the
/// payout path only.
pub open spec fn returned_waqf(w: WaqfDataView, tranche_id: Seq<char>, return_date: u64, now: u64) -> WaqfDataView {
    let d = w.revolving_details->0;
    let ts = tranches_of(d);
    let i = tranche_position(ts, tranche_id);
    let t = ts[i];
    let early = now < parse_u64_spec(t.maturity_date)->0;
    let penalty = penalty_amount(t.amount, d.early_withdrawal_penalty, early);
    let net = net_return(t.amount, penalty);
    let path = return_path(d, early);
    let settled = ts.update(
        i,
        settled_tranche(t, d, tranche_id, path, penalty, net, return_date, now),
    );
    WaqfDataView {
        revolving_details: Some(
            RevolvingWaqfDetailsView {
                contribution_tranches: Some(
                    if path == ReturnPath::Rollover {
                        settled.push(
                            rollover_tranche(t, tranche_id, net, d.lock_period_months, now),
                        )
                    } else {
                        settled
                    },
                ),
                pending_notifications: with_notices(
                    d.pending_notifications,
                    return_notices(d, tranche_id, path, early, penalty, net, now),
                ),
                ..d
            },
        ),
        financial: FinancialMetricsView {
            current_balance: if path == ReturnPath::Payout {
                if w.financial.current_balance - net > 0 {
                    (w.financial.current_balance - net) as i64
                } else {
                    0i64
                }
            } else {
                w.financial.current_balance
            },
            ..w.financial
        },
        ..w
    }
}

/// Looks up the first tranche with the given identifier.
pub fn find_tranche(tranches: &Vec<ContributionTranche>, tranche_id: &str) -> (r: Option<usize>)
    ensures
        match r {
            Some(i) => is_first_with_id(views_of(tranches@), tranche_id@, i as int),
            None => !has_tranche(views_of(tranches@), tranche_id@),
        },
{
    let wanted = String::from_str(tranche_id);
    let mut i: usize = 0;
    while i < tranches.len()
        invariant
            i <= tranches@.len(),
            wanted@ == tranche_id@,
            forall|j: int| 0 <= j < i ==> (#[trigger] views_of(tranches@)[j]).id != tranche_id@,
        decreases tranches@.len() - i,
    {
        if tranches[i].id == wanted {
            return Some(i);
        }
        i = i + 1;
    }
    None
}

/// Where a tranche with the identifier exists, its position is the one and
/// only first position.
pub proof fn lemma_tranche_position(ts: Seq<ContributionTrancheView>, id: Seq<char>, i: int)
    requires
        is_first_with_id(ts, id, i),
    ensures
        has_tranche(ts, id),
        tranche_position(ts, id) == i,
{
    let j = tranche_position(ts, id);
    assert(is_first_with_id(ts, id, j));
    if j < i {
        assert(ts[j].id != id);
    }
    if i < j {
        assert(ts[i].id != id);
    }
}

fn interval_days_of(frequency: &String) -> (days: u64)
    ensures
        days == interval_days(frequency@),
{
    if is_text(frequency, "quarterly") {
        90
    } else if is_text(frequency, "annually") {
        365
    } else {
        30
    }
}

fn installment_count_of(schedule: &InstallmentSchedule) -> (count: u32)
    ensures
        count == installment_count(schedule@),
{
    if schedule.number_of_installments > 1 {
        schedule.number_of_installments
    } else {
        1
    }
}

// Builds the payment plan that returns `net` for a tranche from time `now`
// on; `None` exactly when the last due date is not representable.
fn plan_installments(tranche_id: &str, net: i64, now: u64, schedule: &InstallmentSchedule) -> (r:
    Option<Vec<InstallmentPayment>>)
    requires
        net >= 0,
    ensures
        match r {
            Some(plan) => {
                &&& installment_due(now, schedule@.frequency, installment_count(schedule@) - 1)
                    <= u64::MAX
                &&& views_of(plan@) == installment_plan(tranche_id@, net as int, now, schedule@)
            },
            None => installment_due(now, schedule@.frequency, installment_count(schedule@) - 1)
                > u64::MAX,
        },
{
    let count: u32 = installment_count_of(schedule);
    let days: u64 = interval_days_of(&schedule.frequency);
    assert(days * NANOS_PER_DAY <= 365 * NANOS_PER_DAY) by (nonlinear_arith)
        requires
            0 <= days <= 365,
    ;
    let interval: u128 = (days as u128) * (NANOS_PER_DAY as u128);
    assert(interval * count <= 365 * NANOS_PER_DAY * 0x1_0000_0000) by (nonlinear_arith)
        requires
            0 <= interval <= 365 * NANOS_PER_DAY,
            0 <= count <= 0x1_0000_0000,
    ;
    let last: u128 = (now as u128) + interval * (count as u128);
    assert(last == installment_due(now, schedule@.frequency, count - 1)) by (nonlinear_arith)
        requires
            last == now + interval * count,
            interval == interval_days(schedule@.frequency) * NANOS_PER_DAY,
            installment_due(now, schedule@.frequency, count - 1) == now + interval_days(
                schedule@.frequency,
            ) * NANOS_PER_DAY * (count - 1 + 1),
    ;
    if last > u64::MAX as u128 {
        return None;
    }
    let base: u64 = (net as u64) / (count as u64);
    let extra: u64 = (net as u64) % (count as u64);
    let mut plan: Vec<InstallmentPayment> = Vec::new();
    let mut k: u32 = 0;
    while k < count
        invariant
            k <= count,
            count == installment_count(schedule@),
            net >= 0,
            base == net as int / count as int,
            extra == net as int % count as int,
            interval == interval_days(schedule@.frequency) * NANOS_PER_DAY,
            interval <= 365 * NANOS_PER_DAY,
            now + interval * count <= u64::MAX,
            plan@.len() == k,
            forall|j: int|
                0 <= j < k ==> (#[trigger] plan@[j])@ == installment(
                    tranche_id@,
                    net as int,
                    now,
                    schedule@,
                    j,
                ),
        decreases count - k,
    {
        assert(interval * (k + 1) <= interval * count) by (nonlinear_arith)
            requires
                k + 1 <= count,
                interval >= 0,
        ;
        assert(interval * (k + 1) == interval_days(schedule@.frequency) * NANOS_PER_DAY * (k + 1))
            by (nonlinear_arith)
            requires
                interval == interval_days(schedule@.frequency) * NANOS_PER_DAY,
        ;
        let due: u64 = ((now as u128) + interval * ((k + 1) as u128)) as u64;
        let amount: u64 = if (k as u64) < extra {
            base + 1
        } else {
            base
        };
        assert(amount <= net) by (nonlinear_arith)
            requires
                amount == base + (if k < extra {
                    1int
                } else {
                    0int
                }),
                base == net as int / count as int,
                extra == net as int % count as int,
                count >= 1,
                net >= 0,
                0 <= k,
        {
            assert(net as int == count as int * (net as int / count as int) + net as int
                % count as int);
        }
        let mut id = String::from_str("inst_");
        id.append(tranche_id);
        id.append("_");
        id.append(u64_to_string((k + 1) as u64).as_str());
        let payment = InstallmentPayment {
            id,
            amount: amount as i64,
            due_date: u64_to_string(due),
            status: String::from_str("scheduled"),
            paid_date: None,
        };
        assert(payment@ == installment(tranche_id@, net as int, now, schedule@, k as int));
        plan.push(payment);
        k = k + 1;
    }
    assert(views_of(plan@) =~= installment_plan(tranche_id@, net as int, now, schedule@));
    Some(plan)
}

fn return_path_of(details: &RevolvingWaqfDetails, early: bool) -> (path: ReturnPath)
    ensures
        path == return_path(details@, early),
{
    if is_text(&details.principal_return_method, "installments")
        && details.installment_schedule.is_some() {
        return ReturnPath::Installments;
    }
    if !early {
        match &details.auto_rollover_preference {
            Some(strategy) => {
                if !is_text(strategy, "none") {
                    return ReturnPath::Rollover;
                }
            },
            None => {},
        }
    }
    ReturnPath::Payout
}

fn rollover_id_of(tranche_id: &str, now: u64) -> (id: String)
    ensures
        id@ == rollover_id(tranche_id@, now),
{
    let mut id = String::from_str("tranche_rollover_");
    id.append(tranche_id);
    id.append("_");
    id.append(u64_to_string(now).as_str());
    id
}

fn rollover_notice_of(details: &RevolvingWaqfDetails, tranche_id: &str, now: u64) -> (text: String)
    requires
        details.auto_rollover_preference is Some,
    ensures
        text@ == rollover_notice(details@, tranche_id@, now),
{
    let mut text = String::from_str("Matured tranche ");
    text.append(tranche_id);
    text.append(" rolled over into ");
    text.append(rollover_id_of(tranche_id, now).as_str());
    match &details.auto_rollover_target_cause {
        Some(cause) => {
            text.append(" for cause ");
            text.append(cause.as_str());
        },
        None => {
            text.append(" (strategy: ");
            match &details.auto_rollover_preference {
                Some(strategy) => {
                    text.append(strategy.as_str());
                },
                None => {},
            }
            text.append(")");
        },
    }
    text
}

fn installment_notice_of(tranche_id: &str, net: i64) -> (text: String)
    ensures
        text@ == installment_notice(tranche_id@, net as int),
{
    let mut text = String::from_str("Installment schedule created for tranche ");
    text.append(tranche_id);
    text.append(". Total to return: ");
    text.append(format_amount(net).as_str());
    text
}

fn early_notice_of(tranche_id: &str, penalty: i64) -> (text: String)
    ensures
        text@ == early_notice(tranche_id@, penalty as int),
{
    let mut text = String::from_str("Early withdrawal processed for tranche ");
    text.append(tranche_id);
    text.append(". Penalty applied: ");
    text.append(format_amount(penalty).as_str());
    text
}

/// Appends messages to the pending notifications of a revolving waqf.
pub fn add_notices(details: &mut RevolvingWaqfDetails, notices: Vec<String>)
    ensures
        final(details)@ == (RevolvingWaqfDetailsView {
            pending_notifications: with_notices(
                old(details)@.pending_notifications,
                views_of(notices@),
            ),
            ..old(details)@
        }),
{
    if notices.len() == 0 {
        return ;
    }
    let mut notices = notices;
    let ghost added = views_of(notices@);
    match &mut details.pending_notifications {
        Some(pending) => {
            let ghost before = views_of(pending@);
            pending.append(&mut notices);
            assert(views_of(pending@) =~= before + added);
        },
        None => {
            details.pending_notifications = Some(notices);
        },
    }
}

/// Returns a tranche of a revolving waqf at time `now`, recording
/// `return_date` as the date of return.
///
/// The request is rejected, and the waqf left as it was, for the first reason
/// that [`return_error`] gives. Otherwise the waqf becomes what
/// [`returned_waqf`] describes: the tranche is settled by installments,
/// rollover or payout, the donor is notified, and on a payout the net return
/// leaves the balance.
pub fn mark_tranche_as_returned(waqf: &mut WaqfData, tranche_id: &str, return_date: u64, now: u64) -> (r:
    Result<(), TrancheError>)
    ensures
        outcome_is(r, return_error(old(waqf)@, tranche_id@, now)),
        r is Ok ==> final(waqf)@ == returned_waqf(old(waqf)@, tranche_id@, return_date, now),
        r is Err ==> final(waqf)@ == old(waqf)@,
{
    let ghost w = waqf@;
    let details = match &waqf.revolving_details {
        Some(d) => d,
        None => {
            return Err(TrancheError::NotRevolving);
        },
    };
    let ghost d = details@;
    let ghost ts = tranches_of(d);
    let found = match &details.contribution_tranches {
        Some(tranches) => find_tranche(tranches, tranche_id),
        None => {
            assert(!has_tranche(ts, tranche_id@));
            None
        },
    };
    let index = match found {
        Some(i) => i,
        None => {
            return Err(TrancheError::TrancheNotFound(String::from_str(tranche_id)));
        },
    };
    let tranches = match &details.contribution_tranches {
        Some(tranches) => tranches,
        None => {
            return Err(TrancheError::TrancheNotFound(String::from_str(tranche_id)));
        },
    };
    proof {
        lemma_tranche_position(ts, tranche_id@, index as int);
    }
    let tranche = &tranches[index];
    let ghost t = tranche@;
    assert(t == ts[index as int]);
    if tranche.is_returned {
        return Err(TrancheError::AlreadyReturned);
    }
    let maturity = match parse_u64(tranche.maturity_date.as_str()) {
        Some(m) => m,
        None => {
            return Err(TrancheError::InvalidMaturityDate);
        },
    };
    let early = now < maturity;
    if early && !details.early_withdrawal_allowed {
        return Err(TrancheError::EarlyWithdrawalNotAllowed(tranche.maturity_date.clone()));
    }
    let penalty: i64 = if early {
        match details.early_withdrawal_penalty {
            Some(rate) => match mul_div_nonnegative(tranche.amount, rate, SCALE) {
                Some(p) => p,
                None => {
                    return Err(TrancheError::PenaltyOutOfRange);
                },
            },
            None => 0,
        }
    } else {
        0
    };
    assert(penalty == penalty_amount(t.amount, d.early_withdrawal_penalty, early));
    let net: i64 = if tranche.amount > penalty {
        tranche.amount - penalty
    } else {
        0
    };
    assert(net == net_return(t.amount, penalty as int));
    let path = return_path_of(details, early);
    let mut notices: Vec<String> = Vec::new();
    let mut plan: Option<Vec<InstallmentPayment>> = None;
    let mut successor: Option<ContributionTranche> = None;
    let mut target: Option<String> = None;
    match path {
        ReturnPath::Installments => {
            if tranche.installment_payments.is_none() {
                match &details.installment_schedule {
                    Some(schedule) => {
                        match plan_installments(tranche_id, net, now, schedule) {
                            Some(payments) => {
                                plan = Some(payments);
                            },
                            None => {
                                return Err(TrancheError::TimestampOutOfRange);
                            },
                        }
                    },
                    None => {},
                }
            }
            notices.push(installment_notice_of(tranche_id, net));
        },
        ReturnPath::Rollover => {
            let mut next = match lock_tranche(
                rollover_id_of(tranche_id, now),
                net,
                now,
                details.lock_period_months,
                clone_preference(&tranche.expiration_preference),
            ) {
                Some(next) => next,
                None => {
                    return Err(TrancheError::TimestampOutOfRange);
                },
            };
            next.rollover_origin_id = Some(String::from_str(tranche_id));
            successor = Some(next);
            target = Some(rollover_id_of(tranche_id, now));
            notices.push(rollover_notice_of(details, tranche_id, now));
        },
        ReturnPath::Payout => {},
    }
    if early {
        notices.push(early_notice_of(tranche_id, penalty));
    }
    assert(views_of(notices@) =~= return_notices(
        d,
        tranche_id@,
        path,
        early,
        penalty as int,
        net as int,
        now,
    ));
    assert(return_error(w, tranche_id@, now) is None);
    let ghost expected = settled_tranche(
        t,
        d,
        tranche_id@,
        path,
        penalty as int,
        net as int,
        return_date,
        now,
    );
    let status = match path {
        ReturnPath::Installments => TrancheStatus::ReturnScheduled,
        ReturnPath::Rollover => TrancheStatus::RolledOver,
        ReturnPath::Payout => TrancheStatus::Returned,
    };
    match &mut waqf.revolving_details {
        Some(details) => {
            match &mut details.contribution_tranches {
                Some(tranches) => {
                    let tranche = &mut tranches[index];
                    match path {
                        ReturnPath::Installments => {
                            tranche.is_returned = false;
                            tranche.returned_date = None;
                            match plan {
                                Some(payments) => {
                                    tranche.installment_payments = Some(payments);
                                },
                                None => {},
                            }
                        },
                        ReturnPath::Rollover => {
                            tranche.is_returned = true;
                            tranche.returned_date = Some(u64_to_string(return_date));
                            tranche.rollover_target_id = target;
                        },
                        ReturnPath::Payout => {
                            tranche.is_returned = true;
                            tranche.returned_date = Some(u64_to_string(return_date));
                        },
                    }
                    tranche.penalty_applied = if penalty > 0 {
                        Some(penalty)
                    } else {
                        None
                    };
                    tranche.status = Some(String::from_str(status.as_str()));
                    assert(tranche@ == expected);
                    match successor {
                        Some(next) => {
                            assert(next@ == rollover_tranche(
                                t,
                                tranche_id@,
                                net as int,
                                d.lock_period_months,
                                now,
                            ));
                            tranches.push(next);
                        },
                        None => {},
                    }
                    assert(views_of(tranches@) =~= (if path == ReturnPath::Rollover {
                        ts.update(index as int, expected).push(
                            rollover_tranche(
                                t,
                                tranche_id@,
                                net as int,
                                d.lock_period_months,
                                now,
                            ),
                        )
                    } else {
                        ts.update(index as int, expected)
                    }));
                },
                None => {},
            }
            add_notices(details, notices);
        },
        None => {},
    }
    match path {
        ReturnPath::Payout => {
            waqf.financial.current_balance = if waqf.financial.current_balance > net {
                waqf.financial.current_balance - net
            } else {
                0
            };
        },
        _ => {},
    }
    Ok(())
}

/// Checks a proposed return request: every request that can be read is
/// accepted, and judged only when it is carried out.
pub fn assert_tranche_return_operations(request: &TrancheReturnRequest) -> (r: Result<
    (),
    TrancheError,
>)
    ensures
        r is Ok,
{
    Ok(())
}

/// Tranche return records are audit records: deleting one is always refused.
pub fn assert_tranche_return_deletion() -> (r: Result<(), TrancheError>)
    ensures
        outcome_is(r, Some(TrancheErrorView::ReturnRecordDeletion)),
{
    Err(TrancheError::ReturnRecordDeletion)
}

/// The tranche that a return request names: the first with the identifier.
pub open spec fn requested_tranche(w: WaqfDataView, tranche_id: Seq<char>) -> ContributionTrancheView {
    waqf_tranches(w)[tranche_position(waqf_tranches(w), tranche_id)]
}

/// Whether a return request names an unreturned tranche of a revolving waqf
/// whose maturity date can be read.
pub open spec fn names_open_tranche(w: WaqfDataView, tranche_id: Seq<char>) -> bool {
    &&& w.revolving_details is Some
    &&& has_tranche(waqf_tranches(w), tranche_id)
    &&& !requested_tranche(w, tranche_id).is_returned
    &&& parse_u64_spec(requested_tranche(w, tranche_id).maturity_date) is Some
}

/// Whether a return at `now` comes before the tranche's maturity.
pub open spec fn returns_early(w: WaqfDataView, tranche_id: Seq<char>, now: u64) -> bool {
    now < parse_u64_spec(requested_tranche(w, tranche_id).maturity_date)->0
}

/// The way in which a return at `now` is settled.
pub open spec fn path_taken(w: WaqfDataView, tranche_id: Seq<char>, now: u64) -> ReturnPath {
    return_path(w.revolving_details->0, returns_early(w, tranche_id, now))
}

/// A tranche returned by payout or rollover cannot be returned again: every
/// later request for it fails as already returned.
pub proof fn law_return_is_final(
    w: WaqfDataView,
    tranche_id: Seq<char>,
    return_date: u64,
    now: u64,
    later: u64,
)
    requires
        return_error(w, tranche_id, now) is None,
        path_taken(w, tranche_id, now) != ReturnPath::Installments,
    ensures
        return_error(returned_waqf(w, tranche_id, return_date, now), tranche_id, later) == Some(
            TrancheErrorView::AlreadyReturned,
        ),
{
    let ts = waqf_tranches(w);
    let i = tranche_position(ts, tranche_id);
    assert(is_first_with_id(ts, tranche_id, i));
    let after = returned_waqf(w, tranche_id, return_date, now);
    let ts2 = waqf_tranches(after);
    assert(ts2[i].id == tranche_id);
    assert(ts2[i].is_returned);
    assert forall|j: int| 0 <= j < i implies (#[trigger] ts2[j]).id != tranche_id by {
        assert(ts2[j] == ts[j]);
    }
    lemma_tranche_position(ts2, tranche_id, i);
}

/// A return before maturity is refused where the waqf does not allow early
/// withdrawal.
pub proof fn law_early_withdrawal_refused(w: WaqfDataView, tranche_id: Seq<char>, now: u64)
    requires
        names_open_tranche(w, tranche_id),
        returns_early(w, tranche_id, now),
        !w.revolving_details->0.early_withdrawal_allowed,
    ensures
        return_error(w, tranche_id, now) == Some(
            TrancheErrorView::EarlyWithdrawalNotAllowed(
                requested_tranche(w, tranche_id).maturity_date,
            ),
        ),
{
}

/// The penalty rate that applies to early withdrawals; zero where none is
/// set.
pub open spec fn early_rate(d: RevolvingWaqfDetailsView) -> int {
    match d.early_withdrawal_penalty {
        Some(rate) => rate as int,
        None => 0,
    }
}

/// A return before maturity that the waqf allows and pays out succeeds: the
/// penalty is the amount times the penalty rate, rounded down to millionths;
/// it is recorded on the tranche where it is not zero, which it is not as
/// soon as the exact product reaches one millionth; the tranche is returned
/// and keeps its rollover link; the donor is notified of the penalty; and the
/// balance drops by the amount less the penalty.
pub proof fn law_early_withdrawal_penalty(
    w: WaqfDataView,
    tranche_id: Seq<char>,
    return_date: u64,
    now: u64,
)
    requires
        names_open_tranche(w, tranche_id),
        returns_early(w, tranche_id, now),
        w.revolving_details->0.early_withdrawal_allowed,
        path_taken(w, tranche_id, now) == ReturnPath::Payout,
        0 <= early_rate(w.revolving_details->0) <= SCALE,
        0 <= requested_tranche(w, tranche_id).amount <= w.financial.current_balance,
    ensures
        return_error(w, tranche_id, now) is None,
        ({
            let amount = requested_tranche(w, tranche_id).amount as int;
            let penalty = amount * early_rate(w.revolving_details->0) / (SCALE as int);
            let after = returned_waqf(w, tranche_id, return_date, now);
            let settled = waqf_tranches(after)[tranche_position(waqf_tranches(w), tranche_id)];
            &&& 0 <= penalty <= amount
            &&& settled.penalty_applied == (if penalty > 0 {
                Some(penalty as i64)
            } else {
                None
            })
            &&& amount * early_rate(w.revolving_details->0) >= SCALE ==> settled.penalty_applied
                == Some(penalty as i64)
            &&& settled.is_returned
            &&& settled.status == Some(TrancheStatus::Returned.text())
            &&& settled.rollover_target_id == requested_tranche(w, tranche_id).rollover_target_id
            &&& after.revolving_details->0.pending_notifications == with_notices(
                w.revolving_details->0.pending_notifications,
                seq![early_notice(tranche_id, penalty)],
            )
            &&& after.financial.current_balance == w.financial.current_balance - (amount
                - penalty)
        }),
{
    let d = w.revolving_details->0;
    let t = requested_tranche(w, tranche_id);
    let amount = t.amount as int;
    let rate = early_rate(d);
    let product = amount * rate;
    if product >= SCALE {
        vstd::arithmetic::div_mod::lemma_div_is_ordered(SCALE as int, product, SCALE as int);
    }
    assert(return_notices(d, tranche_id, ReturnPath::Payout, true, product / (SCALE as int), amount
        - product / (SCALE as int), now) =~= seq![
        early_notice(tranche_id, product / (SCALE as int)),
    ]);
    assert(0 <= product <= amount * SCALE) by (nonlinear_arith)
        requires
            product == amount * rate,
            0 <= amount,
            0 <= rate <= SCALE,
    ;
    vstd::arithmetic::div_mod::lemma_div_pos_is_pos(product, SCALE as int);
    vstd::arithmetic::div_mod::lemma_div_is_ordered(product, amount * SCALE, SCALE as int);
    vstd::arithmetic::div_mod::lemma_div_multiples_vanish(amount, SCALE as int);
    assert(amount * SCALE == SCALE * amount) by (nonlinear_arith);
    assert(penalty_amount(t.amount, d.early_withdrawal_penalty, true) == product / (SCALE as int));
}

/// A matured tranche of a waqf that names a rollover strategy and does not
/// return principal in installments is rolled over, unless the new maturity
/// lies beyond the last representable nanosecond.
pub proof fn law_rollover_succeeds(w: WaqfDataView, tranche_id: Seq<char>, now: u64)
    requires
        names_open_tranche(w, tranche_id),
        !returns_early(w, tranche_id, now),
        path_taken(w, tranche_id, now) == ReturnPath::Rollover,
        maturity_after(now, w.revolving_details->0.lock_period_months) <= u64::MAX,
    ensures
        return_error(w, tranche_id, now) is None,
{
}

/// A return that is settled by rollover adds exactly one tranche, which
/// holds the returned amount, is locked, and points back to the returned
/// one; the returned tranche keeps its amount, bears no penalty, becomes
/// `rolled_over` and points forward to the new one; the donor is notified
/// once; the financial figures stay as they were.
pub proof fn law_rollover(w: WaqfDataView, tranche_id: Seq<char>, return_date: u64, now: u64)
    requires
        return_error(w, tranche_id, now) is None,
        path_taken(w, tranche_id, now) == ReturnPath::Rollover,
    ensures
        ({
            let before = waqf_tranches(w);
            let after = returned_waqf(w, tranche_id, return_date, now);
            let i = tranche_position(before, tranche_id);
            let tranches = waqf_tranches(after);
            &&& tranches.len() == before.len() + 1
            &&& forall|j: int| 0 <= j < before.len() && j != i ==> tranches[j] == before[j]
            &&& tranches.last().rollover_origin_id == Some(tranche_id)
            &&& tranches.last().status == Some(TrancheStatus::Locked.text())
            &&& !tranches.last().is_returned
            &&& tranches.last().id == rollover_id(tranche_id, now)
            &&& tranches.last().amount == net_return(before[i].amount, 0)
            &&& tranches.last().expiration_preference == before[i].expiration_preference
            &&& tranches[i].id == tranche_id
            &&& tranches[i].amount == before[i].amount
            &&& tranches[i].is_returned
            &&& tranches[i].status == Some(TrancheStatus::RolledOver.text())
            &&& tranches[i].rollover_target_id == Some(tranches.last().id)
            &&& tranches[i].penalty_applied is None
            &&& after.revolving_details->0.pending_notifications == with_notices(
                w.revolving_details->0.pending_notifications,
                seq![rollover_notice(w.revolving_details->0, tranche_id, now)],
            )
            &&& after.financial == w.financial
        }),
{
    let d = w.revolving_details->0;
    assert(return_notices(
        d,
        tranche_id,
        ReturnPath::Rollover,
        false,
        0,
        net_return(requested_tranche(w, tranche_id).amount, 0),
        now,
    ) =~= seq![rollover_notice(d, tranche_id, now)]);
    let before = waqf_tranches(w);
    let i = tranche_position(before, tranche_id);
    assert(is_first_with_id(before, tranche_id, i));
}

/// A matured tranche of a waqf that returns principal in a lump sum and
/// rolls over within the same cause is settled by rollover.
pub proof fn law_same_cause_rolls_over(d: RevolvingWaqfDetailsView)
    requires
        d.principal_return_method == "lump_sum"@,
        d.auto_rollover_preference == Some("same_cause"@),
    ensures
        return_path(d, false) == ReturnPath::Rollover,
{
    reveal_strlit("lump_sum");
    reveal_strlit("installments");
    reveal_strlit("same_cause");
    reveal_strlit("none");
    assert("lump_sum"@.len() != "installments"@.len());
    assert("same_cause"@.len() != "none"@.len());
}

/// The sum of the first `m` payments of a split of `net` into `count`.
pub open spec fn installments_total(net: int, count: int, m: int) -> int
    decreases m,
{
    if m <= 0 {
        0
    } else {
        installments_total(net, count, m - 1) + installment_amount(net, count, m - 1)
    }
}

proof fn lemma_installments_total(net: int, count: int, m: int)
    requires
        net >= 0,
        count >= 1,
        0 <= m <= count,
    ensures
        installments_total(net, count, m) == m * (net / count) + (if m < net % count {
            m
        } else {
            net % count
        }),
    decreases m,
{
    vstd::arithmetic::div_mod::lemma_mod_bound(net, count);
    let q = net / count;
    if m > 0 {
        lemma_installments_total(net, count, m - 1);
        assert((m - 1) * q + q == m * q) by (nonlinear_arith);
    } else {
        assert(m * q == 0) by (nonlinear_arith)
            requires
                m == 0,
        ;
    }
}

/// A payment plan returns the whole net amount: its payments add up to it,
/// and no two of them differ by more than one unit.
pub proof fn law_installments_return_net(net: int, count: int)
    requires
        net >= 0,
        count >= 1,
    ensures
        installments_total(net, count, count) == net,
        forall|j: int, k: int|
            0 <= j < count && 0 <= k < count ==> -1 <= #[trigger] installment_amount(
                net,
                count,
                j,
            ) - #[trigger] installment_amount(net, count, k) <= 1,
{
    lemma_installments_total(net, count, count);
    vstd::arithmetic::div_mod::lemma_fundamental_div_mod(net, count);
    vstd::arithmetic::div_mod::lemma_mod_bound(net, count);
    assert(count * (net / count) == (net / count) * count) by (nonlinear_arith);
}

/// Returning a tranche never touches the principal of the waqf, nor its
/// creator or creation time.
pub proof fn law_return_keeps_principal(w: WaqfDataView, tranche_id: Seq<char>, return_date: u64, now: u64)
    ensures
        returned_waqf(w, tranche_id, return_date, now).waqf_asset == w.waqf_asset,
        returned_waqf(w, tranche_id, return_date, now).created_by == w.created_by,
        returned_waqf(w, tranche_id, return_date, now).created_at == w.created_at,
{
}

} // verus!
