//! Why an operation on a tranche is rejected.

use vstd::prelude::*;
use crate::text::{amount_text, decimal, format_amount, u128_to_string};

verus! {

/// Why a tranche operation was rejected.
#[derive(Debug, Clone, PartialEq)]
pub enum TrancheError {
    /// The waqf has no revolving details.
    NotRevolving,
    /// No tranche of the waqf has the requested identifier.
    TrancheNotFound(String),
    /// The tranche has already been returned.
    AlreadyReturned,
    /// The maturity date is not a decimal timestamp.
    InvalidMaturityDate,
    /// The tranche has not matured and the waqf forbids early withdrawal;
    /// holds the tranche's maturity date.
    EarlyWithdrawalNotAllowed(String),
    /// The early-withdrawal penalty is too large to be recorded.
    PenaltyOutOfRange,
    /// A due date or maturity date to be written lies beyond the last
    /// representable nanosecond.
    TimestampOutOfRange,
    /// A rollover period is shorter than one month.
    RolloverTooShort,
    /// A rollover period exceeds 240 months.
    RolloverTooLong,
    /// A rollover preference names no period.
    RolloverMonthsMissing,
    /// A conversion preference names an unknown spending schedule.
    InvalidConsumableSchedule(String),
    /// A conversion preference spends over less than one month.
    ConsumableDurationTooShort,
    /// A conversion preference spends over more than 60 months.
    ConsumableDurationTooLong,
    /// A returned tranche cannot be converted.
    ConvertReturned,
    /// The tranche has already been converted.
    AlreadyConverted,
    /// A rolled-over tranche cannot be converted.
    ConvertRolledOver,
    /// The tranche matures only in the given number of whole days.
    NotMatured { days_until: u64 },
    /// The waqf's balance does not cover the tranche.
    InsufficientBalance { required: i64, available: i64 },
    /// A returned tranche cannot be rolled over.
    RolloverReturned,
    /// The tranche has already been rolled over.
    AlreadyRolledOver,
    /// The tranche to roll over has not matured.
    RolloverNotMatured,
    /// The tranche has no identifier.
    EmptyId,
    /// The tranche amount is zero or negative.
    NonPositiveAmount,
    /// The contribution date is empty.
    ContributionDateMissing,
    /// The maturity date is empty.
    MaturityDateMissing,
    /// The contribution date is not a decimal timestamp.
    InvalidContributionDate,
    /// The returned date is not a decimal timestamp.
    InvalidReturnedDate,
    /// The tranche status is not one of the five tranche states.
    InvalidStatus(String),
    /// The recorded penalty is negative.
    NegativePenalty,
    /// An installment payment is zero or negative.
    InstallmentNonPositive,
    /// An installment payment has no due date.
    InstallmentDueDateMissing,
    /// An installment due date is not a decimal timestamp.
    InvalidInstallmentDueDate,
    /// An installment paid date is not a decimal timestamp.
    InvalidInstallmentPaidDate,
    /// An installment status is not `scheduled`, `paid` or `missed`.
    InvalidInstallmentStatus(String),
    /// The conversion record has no time.
    ConversionTimestampEmpty,
    /// The conversion record names no new waqf.
    ConversionWaqfIdEmpty,
    /// The conversion record names no target type.
    ConversionTypeEmpty,
    /// The conversion target is neither `permanent` nor `temporary_consumable`.
    InvalidConversionType(String),
    /// Tranche return records are kept for audit and cannot be deleted.
    ReturnRecordDeletion,
}

/// Mathematical model of [`TrancheError`].
pub ghost enum TrancheErrorView {
    NotRevolving,
    TrancheNotFound(Seq<char>),
    AlreadyReturned,
    InvalidMaturityDate,
    EarlyWithdrawalNotAllowed(Seq<char>),
    PenaltyOutOfRange,
    TimestampOutOfRange,
    RolloverTooShort,
    RolloverTooLong,
    RolloverMonthsMissing,
    InvalidConsumableSchedule(Seq<char>),
    ConsumableDurationTooShort,
    ConsumableDurationTooLong,
    ConvertReturned,
    AlreadyConverted,
    ConvertRolledOver,
    NotMatured { days_until: u64 },
    InsufficientBalance { required: i64, available: i64 },
    RolloverReturned,
    AlreadyRolledOver,
    RolloverNotMatured,
    EmptyId,
    NonPositiveAmount,
    ContributionDateMissing,
    MaturityDateMissing,
    InvalidContributionDate,
    InvalidReturnedDate,
    InvalidStatus(Seq<char>),
    NegativePenalty,
    InstallmentNonPositive,
    InstallmentDueDateMissing,
    InvalidInstallmentDueDate,
    InvalidInstallmentPaidDate,
    InvalidInstallmentStatus(Seq<char>),
    ConversionTimestampEmpty,
    ConversionWaqfIdEmpty,
    ConversionTypeEmpty,
    InvalidConversionType(Seq<char>),
    ReturnRecordDeletion,
}

impl View for TrancheError {
    type V = TrancheErrorView;

    open spec fn view(&self) -> TrancheErrorView {
        match self {
            TrancheError::NotRevolving => TrancheErrorView::NotRevolving,
            TrancheError::TrancheNotFound(s) => TrancheErrorView::TrancheNotFound(s@),
            TrancheError::AlreadyReturned => TrancheErrorView::AlreadyReturned,
            TrancheError::InvalidMaturityDate => TrancheErrorView::InvalidMaturityDate,
            TrancheError::EarlyWithdrawalNotAllowed(s) => TrancheErrorView::EarlyWithdrawalNotAllowed(
                s@,
            ),
            TrancheError::PenaltyOutOfRange => TrancheErrorView::PenaltyOutOfRange,
            TrancheError::TimestampOutOfRange => TrancheErrorView::TimestampOutOfRange,
            TrancheError::RolloverTooShort => TrancheErrorView::RolloverTooShort,
            TrancheError::RolloverTooLong => TrancheErrorView::RolloverTooLong,
            TrancheError::RolloverMonthsMissing => TrancheErrorView::RolloverMonthsMissing,
            TrancheError::InvalidConsumableSchedule(s) => TrancheErrorView::InvalidConsumableSchedule(
                s@,
            ),
            TrancheError::ConsumableDurationTooShort => TrancheErrorView::ConsumableDurationTooShort,
            TrancheError::ConsumableDurationTooLong => TrancheErrorView::ConsumableDurationTooLong,
            TrancheError::ConvertReturned => TrancheErrorView::ConvertReturned,
            TrancheError::AlreadyConverted => TrancheErrorView::AlreadyConverted,
            TrancheError::ConvertRolledOver => TrancheErrorView::ConvertRolledOver,
            TrancheError::NotMatured { days_until } => TrancheErrorView::NotMatured {
                days_until: *days_until,
            },
            TrancheError::InsufficientBalance {
                required,
                available,
            } => TrancheErrorView::InsufficientBalance {
                required: *required,
                available: *available,
            },
            TrancheError::RolloverReturned => TrancheErrorView::RolloverReturned,
            TrancheError::AlreadyRolledOver => TrancheErrorView::AlreadyRolledOver,
            TrancheError::RolloverNotMatured => TrancheErrorView::RolloverNotMatured,
            TrancheError::EmptyId => TrancheErrorView::EmptyId,
            TrancheError::NonPositiveAmount => TrancheErrorView::NonPositiveAmount,
            TrancheError::ContributionDateMissing => TrancheErrorView::ContributionDateMissing,
            TrancheError::MaturityDateMissing => TrancheErrorView::MaturityDateMissing,
            TrancheError::InvalidContributionDate => TrancheErrorView::InvalidContributionDate,
            TrancheError::InvalidReturnedDate => TrancheErrorView::InvalidReturnedDate,
            TrancheError::InvalidStatus(s) => TrancheErrorView::InvalidStatus(s@),
            TrancheError::NegativePenalty => TrancheErrorView::NegativePenalty,
            TrancheError::InstallmentNonPositive => TrancheErrorView::InstallmentNonPositive,
            TrancheError::InstallmentDueDateMissing => TrancheErrorView::InstallmentDueDateMissing,
            TrancheError::InvalidInstallmentDueDate => TrancheErrorView::InvalidInstallmentDueDate,
            TrancheError::InvalidInstallmentPaidDate => TrancheErrorView::InvalidInstallmentPaidDate,
            TrancheError::InvalidInstallmentStatus(s) => TrancheErrorView::InvalidInstallmentStatus(
                s@,
            ),
            TrancheError::ConversionTimestampEmpty => TrancheErrorView::ConversionTimestampEmpty,
            TrancheError::ConversionWaqfIdEmpty => TrancheErrorView::ConversionWaqfIdEmpty,
            TrancheError::ConversionTypeEmpty => TrancheErrorView::ConversionTypeEmpty,
            TrancheError::InvalidConversionType(s) => TrancheErrorView::InvalidConversionType(s@),
            TrancheError::ReturnRecordDeletion => TrancheErrorView::ReturnRecordDeletion,
        }
    }
}

/// Whether an operation's outcome is the one a rule book prescribes: success
/// where no rule is violated, else the error of the first violated rule.
pub open spec fn outcome_is(r: Result<(), TrancheError>, verdict: Option<TrancheErrorView>) -> bool {
    match verdict {
        None => r is Ok,
        Some(e) => r is Err && r->Err_0@ == e,
    }
}

/// One violation where a rule is violated, none where it is not.
pub open spec fn flaw(violated: bool, e: TrancheErrorView) -> Seq<TrancheErrorView> {
    if violated {
        seq![e]
    } else {
        Seq::empty()
    }
}

/// The first of a list of violations, if there is any.
pub open spec fn first_flaw(violations: Seq<TrancheErrorView>) -> Option<TrancheErrorView> {
    if violations.len() == 0 {
        None
    } else {
        Some(violations[0])
    }
}

impl TrancheErrorView {
    /// The message that describes the error.
    pub open spec fn text(self) -> Seq<char> {
        match self {
            TrancheErrorView::NotRevolving => "Waqf is not a revolving waqf"@,
            TrancheErrorView::TrancheNotFound(x) => "Tranche "@ + x + " not found"@,
            TrancheErrorView::AlreadyReturned => "Tranche has already been returned"@,
            TrancheErrorView::InvalidMaturityDate => "Invalid maturity date format"@,
            TrancheErrorView::EarlyWithdrawalNotAllowed(x) => "Early withdrawals are not allowed for this waqf. Tranche matures at: "@ + x,
            TrancheErrorView::PenaltyOutOfRange => "Early withdrawal penalty is too large to be recorded"@,
            TrancheErrorView::TimestampOutOfRange => "Timestamp lies beyond the representable range"@,
            TrancheErrorView::RolloverTooShort => "Rollover period must be at least 1 month"@,
            TrancheErrorView::RolloverTooLong => "Rollover period cannot exceed 240 months (20 years)"@,
            TrancheErrorView::RolloverMonthsMissing => "Rollover action requires rollover_months to be specified"@,
            TrancheErrorView::InvalidConsumableSchedule(x) => "Invalid consumable schedule: "@ + x,
            TrancheErrorView::ConsumableDurationTooShort => "Consumable duration must be at least 1 month"@,
            TrancheErrorView::ConsumableDurationTooLong => "Consumable duration cannot exceed 60 months"@,
            TrancheErrorView::ConvertReturned => "Cannot convert an already returned tranche"@,
            TrancheErrorView::AlreadyConverted => "Tranche has already been converted"@,
            TrancheErrorView::ConvertRolledOver => "Cannot convert a rolled-over tranche"@,
            TrancheErrorView::NotMatured { days_until } => "Tranche has not matured yet. Matures in "@ + decimal(days_until as nat) + " days"@,
            TrancheErrorView::InsufficientBalance { required, available } => "Insufficient waqf balance for conversion. Required: "@ + amount_text(required as int) + ", Available: "@ + amount_text(available as int),
            TrancheErrorView::RolloverReturned => "Cannot rollover an already returned tranche"@,
            TrancheErrorView::AlreadyRolledOver => "Tranche has already been rolled over"@,
            TrancheErrorView::RolloverNotMatured => "Tranche has not matured yet"@,
            TrancheErrorView::EmptyId => "Tranche ID cannot be empty"@,
            TrancheErrorView::NonPositiveAmount => "Tranche amount must be positive"@,
            TrancheErrorView::ContributionDateMissing => "Contribution date is required"@,
            TrancheErrorView::MaturityDateMissing => "Maturity date is required"@,
            TrancheErrorView::InvalidContributionDate => "Invalid contribution date format"@,
            TrancheErrorView::InvalidReturnedDate => "Invalid returned date format"@,
            TrancheErrorView::InvalidStatus(x) => "Invalid tranche status: "@ + x,
            TrancheErrorView::NegativePenalty => "Penalty applied cannot be negative"@,
            TrancheErrorView::InstallmentNonPositive => "Installment payment amount must be positive"@,
            TrancheErrorView::InstallmentDueDateMissing => "Installment payment due date is required"@,
            TrancheErrorView::InvalidInstallmentDueDate => "Invalid installment payment due date format"@,
            TrancheErrorView::InvalidInstallmentPaidDate => "Invalid installment payment paid date format"@,
            TrancheErrorView::InvalidInstallmentStatus(x) => "Invalid installment payment status: "@ + x,
            TrancheErrorView::ConversionTimestampEmpty => "Conversion timestamp cannot be empty"@,
            TrancheErrorView::ConversionWaqfIdEmpty => "New waqf ID cannot be empty in conversion details"@,
            TrancheErrorView::ConversionTypeEmpty => "Target waqf type cannot be empty in conversion details"@,
            TrancheErrorView::InvalidConversionType(x) => "Invalid target waqf type in conversion: "@ + x,
            TrancheErrorView::ReturnRecordDeletion => "Tranche return records cannot be deleted for audit purposes"@,
        }
    }
}

impl TrancheError {
    /// Describes the error in words, with the values that caused it.
    pub fn message(&self) -> (s: String)
        ensures
            s@ == self@.text(),
    {
        match self {
            TrancheError::NotRevolving => String::from_str("Waqf is not a revolving waqf"),
            TrancheError::TrancheNotFound(x) => {
                let mut s = String::from_str("Tranche ");
                s.append(x.as_str());
                s.append(" not found");
                s
            },
            TrancheError::AlreadyReturned => String::from_str("Tranche has already been returned"),
            TrancheError::InvalidMaturityDate => String::from_str("Invalid maturity date format"),
            TrancheError::EarlyWithdrawalNotAllowed(x) => {
                let mut s = String::from_str("Early withdrawals are not allowed for this waqf. Tranche matures at: ");
                s.append(x.as_str());
                s
            },
            TrancheError::PenaltyOutOfRange => String::from_str("Early withdrawal penalty is too large to be recorded"),
            TrancheError::TimestampOutOfRange => String::from_str("Timestamp lies beyond the representable range"),
            TrancheError::RolloverTooShort => String::from_str("Rollover period must be at least 1 month"),
            TrancheError::RolloverTooLong => String::from_str("Rollover period cannot exceed 240 months (20 years)"),
            TrancheError::RolloverMonthsMissing => String::from_str("Rollover action requires rollover_months to be specified"),
            TrancheError::InvalidConsumableSchedule(x) => {
                let mut s = String::from_str("Invalid consumable schedule: ");
                s.append(x.as_str());
                s
            },
            TrancheError::ConsumableDurationTooShort => String::from_str("Consumable duration must be at least 1 month"),
            TrancheError::ConsumableDurationTooLong => String::from_str("Consumable duration cannot exceed 60 months"),
            TrancheError::ConvertReturned => String::from_str("Cannot convert an already returned tranche"),
            TrancheError::AlreadyConverted => String::from_str("Tranche has already been converted"),
            TrancheError::ConvertRolledOver => String::from_str("Cannot convert a rolled-over tranche"),
            TrancheError::NotMatured { days_until } => {
                let mut s = String::from_str("Tranche has not matured yet. Matures in ");
                s.append(u128_to_string(*days_until as u128).as_str());
                s.append(" days");
                s
            },
            TrancheError::InsufficientBalance { required, available } => {
                let mut s = String::from_str("Insufficient waqf balance for conversion. Required: ");
                s.append(format_amount(*required).as_str());
                s.append(", Available: ");
                s.append(format_amount(*available).as_str());
                s
            },
            TrancheError::RolloverReturned => String::from_str("Cannot rollover an already returned tranche"),
            TrancheError::AlreadyRolledOver => String::from_str("Tranche has already been rolled over"),
            TrancheError::RolloverNotMatured => String::from_str("Tranche has not matured yet"),
            TrancheError::EmptyId => String::from_str("Tranche ID cannot be empty"),
            TrancheError::NonPositiveAmount => String::from_str("Tranche amount must be positive"),
            TrancheError::ContributionDateMissing => String::from_str("Contribution date is required"),
            TrancheError::MaturityDateMissing => String::from_str("Maturity date is required"),
            TrancheError::InvalidContributionDate => String::from_str("Invalid contribution date format"),
            TrancheError::InvalidReturnedDate => String::from_str("Invalid returned date format"),
            TrancheError::InvalidStatus(x) => {
                let mut s = String::from_str("Invalid tranche status: ");
                s.append(x.as_str());
                s
            },
            TrancheError::NegativePenalty => String::from_str("Penalty applied cannot be negative"),
            TrancheError::InstallmentNonPositive => String::from_str("Installment payment amount must be positive"),
            TrancheError::InstallmentDueDateMissing => String::from_str("Installment payment due date is required"),
            TrancheError::InvalidInstallmentDueDate => String::from_str("Invalid installment payment due date format"),
            TrancheError::InvalidInstallmentPaidDate => String::from_str("Invalid installment payment paid date format"),
            TrancheError::InvalidInstallmentStatus(x) => {
                let mut s = String::from_str("Invalid installment payment status: ");
                s.append(x.as_str());
                s
            },
            TrancheError::ConversionTimestampEmpty => String::from_str("Conversion timestamp cannot be empty"),
            TrancheError::ConversionWaqfIdEmpty => String::from_str("New waqf ID cannot be empty in conversion details"),
            TrancheError::ConversionTypeEmpty => String::from_str("Target waqf type cannot be empty in conversion details"),
            TrancheError::InvalidConversionType(x) => {
                let mut s = String::from_str("Invalid target waqf type in conversion: ");
                s.append(x.as_str());
                s
            },
            TrancheError::ReturnRecordDeletion => String::from_str("Tranche return records cannot be deleted for audit purposes"),
        }
    }
}

} // verus!
