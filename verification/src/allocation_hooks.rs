//! Allocations of funds from a waqf to a cause.

use vstd::prelude::*;
use crate::text::{
    contains_text, has_part, is_blank, is_blank_text, lowercase, to_lowercase, trim, trimmed,
    utf8_len,
};
use crate::waqf_types::{AllocationData, AllocationDataView};

verus! {

/// Least amount of an allocation: one hundredth of a whole unit.
pub const MIN_ALLOCATION_AMOUNT: i64 = 10_000;

/// Greatest amount of an allocation: ten million whole units.
pub const MAX_ALLOCATION_AMOUNT: i64 = 10_000_000_000_000;

/// Least length of a rationale, in bytes.
pub const MIN_RATIONALE_LENGTH: usize = 5;

/// Greatest length of a rationale, in bytes.
pub const MAX_RATIONALE_LENGTH: usize = 500;

/// Why an allocation was rejected.
#[derive(Debug, Clone, PartialEq)]
pub enum AllocationError {
    IdEmpty,
    WaqfIdEmpty,
    CauseIdEmpty,
    AmountTooLow,
    AmountTooHigh,
    RationaleEmpty,
    RationaleTooShort,
    RationaleTooLong,
    TimestampEmpty,
    /// The rationale holds a word that marks it as a placeholder; holds the
    /// word.
    SuspiciousRationale(String),
}

/// Mathematical model of [`AllocationError`].
pub ghost enum AllocationErrorView {
    IdEmpty,
    WaqfIdEmpty,
    CauseIdEmpty,
    AmountTooLow,
    AmountTooHigh,
    RationaleEmpty,
    RationaleTooShort,
    RationaleTooLong,
    TimestampEmpty,
    SuspiciousRationale(Seq<char>),
}

impl View for AllocationError {
    type V = AllocationErrorView;

    open spec fn view(&self) -> AllocationErrorView {
        match self {
            AllocationError::IdEmpty => AllocationErrorView::IdEmpty,
            AllocationError::WaqfIdEmpty => AllocationErrorView::WaqfIdEmpty,
            AllocationError::CauseIdEmpty => AllocationErrorView::CauseIdEmpty,
            AllocationError::AmountTooLow => AllocationErrorView::AmountTooLow,
            AllocationError::AmountTooHigh => AllocationErrorView::AmountTooHigh,
            AllocationError::RationaleEmpty => AllocationErrorView::RationaleEmpty,
            AllocationError::RationaleTooShort => AllocationErrorView::RationaleTooShort,
            AllocationError::RationaleTooLong => AllocationErrorView::RationaleTooLong,
            AllocationError::TimestampEmpty => AllocationErrorView::TimestampEmpty,
            AllocationError::SuspiciousRationale(w) => AllocationErrorView::SuspiciousRationale(w@),
        }
    }
}

impl AllocationErrorView {
    /// The message that describes the error.
    pub open spec fn text(self) -> Seq<char> {
        match self {
            AllocationErrorView::IdEmpty => "Allocation ID cannot be empty"@,
            AllocationErrorView::WaqfIdEmpty => "Waqf ID cannot be empty"@,
            AllocationErrorView::CauseIdEmpty => "Cause ID cannot be empty"@,
            AllocationErrorView::AmountTooLow => "Allocation amount too low: minimum 0.01"@,
            AllocationErrorView::AmountTooHigh => "Allocation amount too high: maximum 10000000"@,
            AllocationErrorView::RationaleEmpty => "Allocation rationale cannot be empty"@,
            AllocationErrorView::RationaleTooShort => "Allocation rationale too short: minimum 5 characters"@,
            AllocationErrorView::RationaleTooLong => "Allocation rationale too long: maximum 500 characters"@,
            AllocationErrorView::TimestampEmpty => "Allocation timestamp cannot be empty"@,
            AllocationErrorView::SuspiciousRationale(w) => "Allocation rationale contains suspicious content: "@
                + w,
        }
    }
}

impl AllocationError {
    /// Describes the error in words, with the value that caused it.
    pub fn message(&self) -> (s: String)
        ensures
            s@ == self@.text(),
    {
        match self {
            AllocationError::IdEmpty => String::from_str("Allocation ID cannot be empty"),
            AllocationError::WaqfIdEmpty => String::from_str("Waqf ID cannot be empty"),
            AllocationError::CauseIdEmpty => String::from_str("Cause ID cannot be empty"),
            AllocationError::AmountTooLow => String::from_str("Allocation amount too low: minimum 0.01"),
            AllocationError::AmountTooHigh => String::from_str("Allocation amount too high: maximum 10000000"),
            AllocationError::RationaleEmpty => String::from_str("Allocation rationale cannot be empty"),
            AllocationError::RationaleTooShort => String::from_str("Allocation rationale too short: minimum 5 characters"),
            AllocationError::RationaleTooLong => String::from_str("Allocation rationale too long: maximum 500 characters"),
            AllocationError::TimestampEmpty => String::from_str("Allocation timestamp cannot be empty"),
            AllocationError::SuspiciousRationale(w) => {
                let mut s = String::from_str("Allocation rationale contains suspicious content: ");
                s.append(w.as_str());
                s
            },
        }
    }
}

/// Whether the outcome of a check is the one its rules prescribe: success
/// where no rule is violated, else the error of the first violated rule.
pub open spec fn allocation_verdict_is(r: Result<(), AllocationError>, verdict: Option<AllocationErrorView>) -> bool {
    match verdict {
        None => r is Ok,
        Some(e) => r is Err && r->Err_0@ == e,
    }
}

/// The first word in a rationale that marks it as a placeholder, if any:
/// `test`, `dummy`, `fake` or `xxx`, in whatever case.
pub open spec fn suspicious_word(rationale: Seq<char>) -> Option<Seq<char>> {
    let lower = lowercase(rationale);
    if has_part(lower, "test"@) {
        Some("test"@)
    } else if has_part(lower, "dummy"@) {
        Some("dummy"@)
    } else if has_part(lower, "fake"@) {
        Some("fake"@)
    } else if has_part(lower, "xxx"@) {
        Some("xxx"@)
    } else {
        None
    }
}

/// The first rule that an allocation violates, if any: it names itself, a
/// waqf and a cause; its amount lies between one hundredth and ten million;
/// its rationale, trimmed, is 5 to 500 bytes long and holds no placeholder
/// word; and it has a timestamp.
pub open spec fn allocation_error(a: AllocationDataView) -> Option<AllocationErrorView> {
    let rationale = trimmed(a.rationale);
    if is_blank(a.id) {
        Some(AllocationErrorView::IdEmpty)
    } else if is_blank(a.waqf_id) {
        Some(AllocationErrorView::WaqfIdEmpty)
    } else if is_blank(a.cause_id) {
        Some(AllocationErrorView::CauseIdEmpty)
    } else if a.amount < MIN_ALLOCATION_AMOUNT {
        Some(AllocationErrorView::AmountTooLow)
    } else if a.amount > MAX_ALLOCATION_AMOUNT {
        Some(AllocationErrorView::AmountTooHigh)
    } else if rationale.len() == 0 {
        Some(AllocationErrorView::RationaleEmpty)
    } else if utf8_len(rationale) < MIN_RATIONALE_LENGTH {
        Some(AllocationErrorView::RationaleTooShort)
    } else if utf8_len(rationale) > MAX_RATIONALE_LENGTH {
        Some(AllocationErrorView::RationaleTooLong)
    } else if is_blank(a.allocated_at) {
        Some(AllocationErrorView::TimestampEmpty)
    } else if suspicious_word(rationale) is Some {
        Some(AllocationErrorView::SuspiciousRationale(suspicious_word(rationale)->0))
    } else {
        None
    }
}

fn find_suspicious_word(rationale: &str) -> (r: Option<&'static str>)
    ensures
        match r {
            Some(w) => suspicious_word(rationale@) == Some(w@),
            None => suspicious_word(rationale@) is None,
        },
{
    let lower = to_lowercase(rationale);
    if contains_text(lower.as_str(), "test") {
        Some("test")
    } else if contains_text(lower.as_str(), "dummy") {
        Some("dummy")
    } else if contains_text(lower.as_str(), "fake") {
        Some("fake")
    } else if contains_text(lower.as_str(), "xxx") {
        Some("xxx")
    } else {
        None
    }
}

/// Validates an allocation.
pub fn validate_allocation_data(allocation: &AllocationData) -> (r: Result<(), AllocationError>)
    ensures
        allocation_verdict_is(r, allocation_error(allocation@)),
{
    if is_blank_text(allocation.id.as_str()) {
        return Err(AllocationError::IdEmpty);
    }
    if is_blank_text(allocation.waqf_id.as_str()) {
        return Err(AllocationError::WaqfIdEmpty);
    }
    if is_blank_text(allocation.cause_id.as_str()) {
        return Err(AllocationError::CauseIdEmpty);
    }
    if allocation.amount < MIN_ALLOCATION_AMOUNT {
        return Err(AllocationError::AmountTooLow);
    }
    if allocation.amount > MAX_ALLOCATION_AMOUNT {
        return Err(AllocationError::AmountTooHigh);
    }
    let rationale = trim(allocation.rationale.as_str());
    if rationale.is_empty() {
        return Err(AllocationError::RationaleEmpty);
    }
    if rationale.len() < MIN_RATIONALE_LENGTH {
        return Err(AllocationError::RationaleTooShort);
    }
    if rationale.len() > MAX_RATIONALE_LENGTH {
        return Err(AllocationError::RationaleTooLong);
    }
    if is_blank_text(allocation.allocated_at.as_str()) {
        return Err(AllocationError::TimestampEmpty);
    }
    match find_suspicious_word(rationale) {
        Some(word) => Err(AllocationError::SuspiciousRationale(String::from_str(word))),
        None => Ok(()),
    }
}

/// Checks a proposed write to the collection of allocations.
pub fn assert_allocation_operations(allocation: &AllocationData) -> (r: Result<
    (),
    AllocationError,
>)
    ensures
        allocation_verdict_is(r, allocation_error(allocation@)),
{
    validate_allocation_data(allocation)
}

/// Checks the deletion of an allocation, which is always allowed.
pub fn assert_allocation_deletion() -> (r: Result<(), AllocationError>)
    ensures
        r is Ok,
{
    Ok(())
}

} // verus!
