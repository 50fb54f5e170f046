//! Why a write to the waqf collection is rejected.

use vstd::prelude::*;
use crate::field_guard::{join_names, joined_names, RestrictedField};
use crate::text::{amount_text, decimal, format_amount, u128_to_string};
use crate::waqf_type_rules::{join_violations, joined_violations, TypeViolation, TypeViolationView};
use crate::waqf_types::views_of;
use crate::waqf_utils::{join_messages, joined_messages, WaqfValidationErrorView};

verus! {

/// Why a write to the waqf collection was rejected.
#[derive(Debug, Clone, PartialEq)]
pub enum WaqfError {
    /// The record violates rules of the waqf data model; holds every violated rule.
    InvalidData(Vec<crate::waqf_utils::WaqfValidationError>),
    /// The record does not carry the details that its type requires; holds every violated rule.
    InvalidType(Vec<TypeViolation>),
    /// The principal of a new waqf is below the minimum.
    CapitalTooLow { minimum: i64, provided: i64 },
    /// The principal differs from the stored one.
    WaqfAssetImmutable,
    /// The creator differs from the stored one.
    CreatorImmutable,
    /// The creation time differs from the stored one.
    CreatedAtImmutable,
    /// The creator changed fields reserved to the system; holds every changed field.
    UnauthorizedChanges(Vec<RestrictedField>),
    /// The lock period is shorter than the stored one.
    LockPeriodReduced { from: u32, to: u32 },
    /// There is no stored waqf to delete.
    NoCurrentDocument,
    /// An active waqf cannot be deleted.
    ActiveWaqfDeletion,
    /// An amount to be written cannot be represented.
    AmountOutOfRange,
    /// A maturity to be written lies beyond the last representable nanosecond.
    TimestampOutOfRange,
    /// The caller's identity is longer than a principal can be.
    CallerTooLong,
}

/// Mathematical model of [`WaqfError`].
pub ghost enum WaqfErrorView {
    InvalidData(Seq<WaqfValidationErrorView>),
    InvalidType(Seq<TypeViolationView>),
    CapitalTooLow { minimum: i64, provided: i64 },
    WaqfAssetImmutable,
    CreatorImmutable,
    CreatedAtImmutable,
    UnauthorizedChanges(Seq<RestrictedField>),
    LockPeriodReduced { from: u32, to: u32 },
    NoCurrentDocument,
    ActiveWaqfDeletion,
    AmountOutOfRange,
    TimestampOutOfRange,
    CallerTooLong,
}

impl View for WaqfError {
    type V = WaqfErrorView;

    open spec fn view(&self) -> WaqfErrorView {
        match self {
            WaqfError::InvalidData(x) => WaqfErrorView::InvalidData(views_of(x@)),
            WaqfError::InvalidType(x) => WaqfErrorView::InvalidType(views_of(x@)),
            WaqfError::CapitalTooLow { minimum, provided } => WaqfErrorView::CapitalTooLow {
                minimum: *minimum, provided: *provided,
            },
            WaqfError::WaqfAssetImmutable => WaqfErrorView::WaqfAssetImmutable,
            WaqfError::CreatorImmutable => WaqfErrorView::CreatorImmutable,
            WaqfError::CreatedAtImmutable => WaqfErrorView::CreatedAtImmutable,
            WaqfError::UnauthorizedChanges(x) => WaqfErrorView::UnauthorizedChanges(x@),
            WaqfError::LockPeriodReduced { from, to } => WaqfErrorView::LockPeriodReduced {
                from: *from, to: *to,
            },
            WaqfError::NoCurrentDocument => WaqfErrorView::NoCurrentDocument,
            WaqfError::ActiveWaqfDeletion => WaqfErrorView::ActiveWaqfDeletion,
            WaqfError::AmountOutOfRange => WaqfErrorView::AmountOutOfRange,
            WaqfError::TimestampOutOfRange => WaqfErrorView::TimestampOutOfRange,
            WaqfError::CallerTooLong => WaqfErrorView::CallerTooLong,
        }
    }
}

/// Whether the outcome of a check is the one its rules prescribe: success
/// where no rule is violated, else the error of the first violated rule.
pub open spec fn verdict_is(r: Result<(), WaqfError>, verdict: Option<WaqfErrorView>) -> bool {
    match verdict {
        None => r is Ok,
        Some(e) => r is Err && r->Err_0@ == e,
    }
}

/// Whether the outcome of an operation that reports a value is the one its
/// rules prescribe: a value where no rule is violated, else the error of the
/// first violated rule.
pub open spec fn verdict_matches<T>(r: Result<T, WaqfError>, verdict: Option<WaqfErrorView>) -> bool {
    match verdict {
        None => r is Ok,
        Some(e) => r is Err && r->Err_0@ == e,
    }
}

impl WaqfErrorView {
    /// The message that describes the rejection.
    pub open spec fn text(self) -> Seq<char> {
        match self {
            WaqfErrorView::InvalidData(x) => joined_messages(x),
            WaqfErrorView::InvalidType(x) => joined_violations(x),
            WaqfErrorView::CapitalTooLow { minimum, provided } => "Minimum initial capital required: $"@ + amount_text(minimum as int) + ". Provided: $"@ + amount_text(provided as int) + ". A waqf requires a meaningful contribution to create lasting impact."@,
            WaqfErrorView::WaqfAssetImmutable => "FORBIDDEN: Waqf asset (principal endowment) is immutable and cannot be changed after creation. This preserves the integrity of the Islamic Waqf principle where the principal must remain intact forever."@,
            WaqfErrorView::CreatorImmutable => "FORBIDDEN: Creator identity cannot be changed after waqf creation."@,
            WaqfErrorView::CreatedAtImmutable => "FORBIDDEN: Creation timestamp cannot be modified."@,
            WaqfErrorView::UnauthorizedChanges(x) => "Waqf creators can only update name, description, and donor fields. Unauthorized changes: "@ + joined_names(x),
            WaqfErrorView::LockPeriodReduced { from, to } => "Lock period cannot be reduced from "@ + decimal(from as nat) + " to "@ + decimal(to as nat) + " months. You can only increase or keep the existing lock period."@,
            WaqfErrorView::NoCurrentDocument => "No current document found for deletion"@,
            WaqfErrorView::ActiveWaqfDeletion => "Cannot delete active waqf - change status first"@,
            WaqfErrorView::AmountOutOfRange => "Amount lies beyond the representable range"@,
            WaqfErrorView::TimestampOutOfRange => "Timestamp lies beyond the representable range"@,
            WaqfErrorView::CallerTooLong => "Caller identity is longer than 29 bytes"@,
        }
    }
}

impl WaqfError {
    /// Describes the rejection in words, with the values that caused it.
    pub fn message(&self) -> (s: String)
        ensures
            s@ == self@.text(),
    {
        match self {
            WaqfError::InvalidData(x) => {
                let mut s = String::new();
                s.append(join_messages(x).as_str());
                s
            },
            WaqfError::InvalidType(x) => {
                let mut s = String::new();
                s.append(join_violations(x).as_str());
                s
            },
            WaqfError::CapitalTooLow { minimum, provided } => {
                let mut s = String::from_str("Minimum initial capital required: $");
                s.append(format_amount(*minimum).as_str());
                s.append(". Provided: $");
                s.append(format_amount(*provided).as_str());
                s.append(". A waqf requires a meaningful contribution to create lasting impact.");
                s
            },
            WaqfError::WaqfAssetImmutable => String::from_str("FORBIDDEN: Waqf asset (principal endowment) is immutable and cannot be changed after creation. This preserves the integrity of the Islamic Waqf principle where the principal must remain intact forever."),
            WaqfError::CreatorImmutable => String::from_str("FORBIDDEN: Creator identity cannot be changed after waqf creation."),
            WaqfError::CreatedAtImmutable => String::from_str("FORBIDDEN: Creation timestamp cannot be modified."),
            WaqfError::UnauthorizedChanges(x) => {
                let mut s = String::from_str("Waqf creators can only update name, description, and donor fields. Unauthorized changes: ");
                s.append(join_names(x).as_str());
                s
            },
            WaqfError::LockPeriodReduced { from, to } => {
                let mut s = String::from_str("Lock period cannot be reduced from ");
                s.append(u128_to_string(*from as u128).as_str());
                s.append(" to ");
                s.append(u128_to_string(*to as u128).as_str());
                s.append(" months. You can only increase or keep the existing lock period.");
                s
            },
            WaqfError::NoCurrentDocument => String::from_str("No current document found for deletion"),
            WaqfError::ActiveWaqfDeletion => String::from_str("Cannot delete active waqf - change status first"),
            WaqfError::AmountOutOfRange => String::from_str("Amount lies beyond the representable range"),
            WaqfError::TimestampOutOfRange => String::from_str("Timestamp lies beyond the representable range"),
            WaqfError::CallerTooLong => String::from_str("Caller identity is longer than 29 bytes"),
        }
    }
}

} // verus!
