//! Causes: the rules on their records, activity and deletion.

use vstd::prelude::*;
use crate::text::{
    contains_text, ends_with, has_part, has_prefix, has_suffix, is_blank, is_blank_text, is_text,
    lowercase, same_text, starts_with, to_lowercase, utf8_len,
};
use crate::waqf_types::view_of;

verus! {

/// A cause that waqfs can support.
#[derive(Debug, Clone, PartialEq)]
pub struct Cause {
    pub id: String,
    pub name: String,
    pub description: String,
    pub icon: String,
    pub cover_image: Option<String>,
    pub category_id: String,
    pub subcategory_id: String,
    /// Category of records written before categories had identifiers.
    pub category: Option<String>,
    pub is_active: bool,
    /// `pending`, `approved` or `rejected`.
    pub status: String,
    pub sort_order: i32,
    pub followers: i32,
    /// Funds raised so far, fixed-point.
    pub funds_raised: i64,
    /// Funds to be raised, fixed-point.
    pub target_amount: Option<i64>,
    pub primary_currency: Option<String>,
    /// Exchange rate to the US dollar, fixed-point.
    pub exchange_rate_to_usd: Option<i64>,
    /// Impact score from zero to one hundred, fixed-point.
    pub impact_score: Option<i64>,
    pub created_at: String,
    pub updated_at: String,
}

/// Mathematical model of [`Cause`].
pub ghost struct CauseView {
    pub id: Seq<char>,
    pub name: Seq<char>,
    pub description: Seq<char>,
    pub icon: Seq<char>,
    pub cover_image: Option<Seq<char>>,
    pub category_id: Seq<char>,
    pub subcategory_id: Seq<char>,
    pub category: Option<Seq<char>>,
    pub is_active: bool,
    pub status: Seq<char>,
    pub sort_order: i32,
    pub followers: i32,
    pub funds_raised: i64,
    pub target_amount: Option<i64>,
    pub primary_currency: Option<Seq<char>>,
    pub exchange_rate_to_usd: Option<i64>,
    pub impact_score: Option<i64>,
    pub created_at: Seq<char>,
    pub updated_at: Seq<char>,
}

impl View for Cause {
    type V = CauseView;

    open spec fn view(&self) -> CauseView {
        CauseView {
            id: self.id@,
            name: self.name@,
            description: self.description@,
            icon: self.icon@,
            cover_image: view_of(self.cover_image),
            category_id: self.category_id@,
            subcategory_id: self.subcategory_id@,
            category: view_of(self.category),
            is_active: self.is_active,
            status: self.status@,
            sort_order: self.sort_order,
            followers: self.followers,
            funds_raised: self.funds_raised,
            target_amount: self.target_amount,
            primary_currency: view_of(self.primary_currency),
            exchange_rate_to_usd: self.exchange_rate_to_usd,
            impact_score: self.impact_score,
            created_at: self.created_at@,
            updated_at: self.updated_at@,
        }
    }
}

/// Greatest length of a cause's name, in bytes.
pub const MAX_CAUSE_NAME_LENGTH: usize = 200;

/// Greatest length of a cause's description, in bytes.
pub const MAX_CAUSE_DESCRIPTION_LENGTH: usize = 5000;

/// Greatest length of an image address, in bytes.
pub const MAX_URL_LENGTH: usize = 2048;

/// The greatest impact score: one hundred.
pub const MAX_IMPACT_SCORE: i64 = 100_000_000;

/// Why a cause, or its deletion, was rejected.
#[derive(Debug, Clone, PartialEq)]
pub enum CauseError {
    IdRequired,
    NameRequired,
    NameTooLong,
    DescriptionRequired,
    DescriptionTooLong,
    CategoryIdRequired,
    SubcategoryIdRequired,
    IconRequired,
    NegativeFunds,
    TargetNotPositive,
    ImpactScoreOutOfRange,
    /// The status is not `pending`, `approved` or `rejected`; holds it.
    InvalidStatus(String),
    InvalidCoverImage,
    CreatedAtRequired,
    UpdatedAtRequired,
    PendingActive,
    RejectedActive,
    /// The status is unknown to the rules on activity; holds it.
    UnknownStatus(String),
    /// The main category is unknown; holds it.
    InvalidMainCategory(String),
    SubcategoryEmpty,
    NoCurrentDocument,
    ActiveDeletion,
    FundedDeletion,
}

/// Mathematical model of [`CauseError`].
pub ghost enum CauseErrorView {
    IdRequired,
    NameRequired,
    NameTooLong,
    DescriptionRequired,
    DescriptionTooLong,
    CategoryIdRequired,
    SubcategoryIdRequired,
    IconRequired,
    NegativeFunds,
    TargetNotPositive,
    ImpactScoreOutOfRange,
    InvalidStatus(Seq<char>),
    InvalidCoverImage,
    CreatedAtRequired,
    UpdatedAtRequired,
    PendingActive,
    RejectedActive,
    UnknownStatus(Seq<char>),
    InvalidMainCategory(Seq<char>),
    SubcategoryEmpty,
    NoCurrentDocument,
    ActiveDeletion,
    FundedDeletion,
}

impl View for CauseError {
    type V = CauseErrorView;

    open spec fn view(&self) -> CauseErrorView {
        match self {
            CauseError::IdRequired => CauseErrorView::IdRequired,
            CauseError::NameRequired => CauseErrorView::NameRequired,
            CauseError::NameTooLong => CauseErrorView::NameTooLong,
            CauseError::DescriptionRequired => CauseErrorView::DescriptionRequired,
            CauseError::DescriptionTooLong => CauseErrorView::DescriptionTooLong,
            CauseError::CategoryIdRequired => CauseErrorView::CategoryIdRequired,
            CauseError::SubcategoryIdRequired => CauseErrorView::SubcategoryIdRequired,
            CauseError::IconRequired => CauseErrorView::IconRequired,
            CauseError::NegativeFunds => CauseErrorView::NegativeFunds,
            CauseError::TargetNotPositive => CauseErrorView::TargetNotPositive,
            CauseError::ImpactScoreOutOfRange => CauseErrorView::ImpactScoreOutOfRange,
            CauseError::InvalidStatus(s) => CauseErrorView::InvalidStatus(s@),
            CauseError::InvalidCoverImage => CauseErrorView::InvalidCoverImage,
            CauseError::CreatedAtRequired => CauseErrorView::CreatedAtRequired,
            CauseError::UpdatedAtRequired => CauseErrorView::UpdatedAtRequired,
            CauseError::PendingActive => CauseErrorView::PendingActive,
            CauseError::RejectedActive => CauseErrorView::RejectedActive,
            CauseError::UnknownStatus(s) => CauseErrorView::UnknownStatus(s@),
            CauseError::InvalidMainCategory(s) => CauseErrorView::InvalidMainCategory(s@),
            CauseError::SubcategoryEmpty => CauseErrorView::SubcategoryEmpty,
            CauseError::NoCurrentDocument => CauseErrorView::NoCurrentDocument,
            CauseError::ActiveDeletion => CauseErrorView::ActiveDeletion,
            CauseError::FundedDeletion => CauseErrorView::FundedDeletion,
        }
    }
}

impl CauseErrorView {
    /// The message that describes the error.
    pub open spec fn text(self) -> Seq<char> {
        match self {
            CauseErrorView::IdRequired => "Cause ID is required"@,
            CauseErrorView::NameRequired => "Cause name is required"@,
            CauseErrorView::NameTooLong => "Cause name must be 200 characters or less"@,
            CauseErrorView::DescriptionRequired => "Cause description is required"@,
            CauseErrorView::DescriptionTooLong => "Cause description must be 5000 characters or less"@,
            CauseErrorView::CategoryIdRequired => "Category ID is required"@,
            CauseErrorView::SubcategoryIdRequired => "Subcategory ID is required"@,
            CauseErrorView::IconRequired => "Cause icon is required"@,
            CauseErrorView::NegativeFunds => "Funds raised cannot be negative"@,
            CauseErrorView::TargetNotPositive => "Target amount must be positive"@,
            CauseErrorView::ImpactScoreOutOfRange => "Impact score must be between 0 and 100"@,
            CauseErrorView::InvalidStatus(s) => "Invalid cause status '"@ + s
                + "'. Valid statuses: pending, approved, rejected"@,
            CauseErrorView::InvalidCoverImage => "Invalid cover image URL format"@,
            CauseErrorView::CreatedAtRequired => "Created at timestamp is required"@,
            CauseErrorView::UpdatedAtRequired => "Updated at timestamp is required"@,
            CauseErrorView::PendingActive => "Pending causes cannot be active"@,
            CauseErrorView::RejectedActive => "Rejected causes cannot be active"@,
            CauseErrorView::UnknownStatus(s) => "Unknown cause status: "@ + s,
            CauseErrorView::InvalidMainCategory(s) => "Invalid main category '"@ + s
                + "'. Valid categories: permanent, temporary_time_bound, temporary_revolving"@,
            CauseErrorView::SubcategoryEmpty => "Subcategory ID cannot be empty"@,
            CauseErrorView::NoCurrentDocument => "No current document found for deletion"@,
            CauseErrorView::ActiveDeletion => "Cannot delete active causes. Pause or complete the cause first."@,
            CauseErrorView::FundedDeletion => "Cannot delete causes that have received donations."@,
        }
    }
}

impl CauseError {
    /// Describes the error in words, with the value that caused it.
    pub fn message(&self) -> (s: String)
        ensures
            s@ == self@.text(),
    {
        match self {
            CauseError::IdRequired => String::from_str("Cause ID is required"),
            CauseError::NameRequired => String::from_str("Cause name is required"),
            CauseError::NameTooLong => String::from_str("Cause name must be 200 characters or less"),
            CauseError::DescriptionRequired => String::from_str("Cause description is required"),
            CauseError::DescriptionTooLong => String::from_str("Cause description must be 5000 characters or less"),
            CauseError::CategoryIdRequired => String::from_str("Category ID is required"),
            CauseError::SubcategoryIdRequired => String::from_str("Subcategory ID is required"),
            CauseError::IconRequired => String::from_str("Cause icon is required"),
            CauseError::NegativeFunds => String::from_str("Funds raised cannot be negative"),
            CauseError::TargetNotPositive => String::from_str("Target amount must be positive"),
            CauseError::ImpactScoreOutOfRange => String::from_str("Impact score must be between 0 and 100"),
            CauseError::InvalidStatus(x) => {
                let mut s = String::from_str("Invalid cause status '");
                s.append(x.as_str());
                s.append("'. Valid statuses: pending, approved, rejected");
                s
            },
            CauseError::InvalidCoverImage => String::from_str("Invalid cover image URL format"),
            CauseError::CreatedAtRequired => String::from_str("Created at timestamp is required"),
            CauseError::UpdatedAtRequired => String::from_str("Updated at timestamp is required"),
            CauseError::PendingActive => String::from_str("Pending causes cannot be active"),
            CauseError::RejectedActive => String::from_str("Rejected causes cannot be active"),
            CauseError::UnknownStatus(x) => {
                let mut s = String::from_str("Unknown cause status: ");
                s.append(x.as_str());
                s
            },
            CauseError::InvalidMainCategory(x) => {
                let mut s = String::from_str("Invalid main category '");
                s.append(x.as_str());
                s.append(
                    "'. Valid categories: permanent, temporary_time_bound, temporary_revolving",
                );
                s
            },
            CauseError::SubcategoryEmpty => String::from_str("Subcategory ID cannot be empty"),
            CauseError::NoCurrentDocument => String::from_str("No current document found for deletion"),
            CauseError::ActiveDeletion => String::from_str("Cannot delete active causes. Pause or complete the cause first."),
            CauseError::FundedDeletion => String::from_str("Cannot delete causes that have received donations."),
        }
    }
}

/// Whether the outcome of a check is the one its rules prescribe: success
/// where no rule is violated, else the error of the first violated rule.
pub open spec fn cause_verdict_is(r: Result<(), CauseError>, verdict: Option<CauseErrorView>) -> bool {
    match verdict {
        None => r is Ok,
        Some(e) => r is Err && r->Err_0@ == e,
    }
}

/// Whether a text is a status of a cause.
pub open spec fn cause_status(s: Seq<char>) -> bool {
    s == "pending"@ || s == "approved"@ || s == "rejected"@
}

/// Validates the status of a cause.
pub fn validate_cause_status(status: &str) -> (r: Result<(), CauseError>)
    ensures
        cause_verdict_is(
            r,
            if cause_status(status@) {
                None
            } else {
                Some(CauseErrorView::InvalidStatus(status@))
            },
        ),
{
    if same_text(status, "pending") || same_text(status, "approved") || same_text(
        status,
        "rejected",
    ) {
        Ok(())
    } else {
        Err(CauseError::InvalidStatus(String::from_str(status)))
    }
}

/// Whether a lower-case address ends like an image file.
pub open spec fn image_extension(lower: Seq<char>) -> bool {
    has_suffix(lower, ".jpg"@) || has_suffix(lower, ".jpeg"@) || has_suffix(lower, ".png"@)
        || has_suffix(lower, ".gif"@) || has_suffix(lower, ".webp"@) || has_suffix(lower, ".svg"@)
}

/// Whether a lower-case address names a known image service.
pub open spec fn image_service(lower: Seq<char>) -> bool {
    has_part(lower, "imgur.com"@) || has_part(lower, "cloudinary.com"@) || has_part(
        lower,
        "amazonaws.com"@,
    ) || has_part(lower, "googleusercontent.com"@)
}

/// Whether a text is the address of an image: at most 2048 bytes, over HTTP
/// or HTTPS, and either ending like an image file or at a known image
/// service, in whatever case.
pub open spec fn image_url(url: Seq<char>) -> bool {
    &&& utf8_len(url) <= MAX_URL_LENGTH
    &&& has_prefix(url, "http://"@) || has_prefix(url, "https://"@)
    &&& image_extension(lowercase(url)) || image_service(lowercase(url))
}

/// Whether a text is the address of an image.
pub fn is_valid_image_url(url: &str) -> (r: bool)
    ensures
        r == image_url(url@),
{
    if url.len() > MAX_URL_LENGTH {
        return false;
    }
    if !starts_with(url, "http://") && !starts_with(url, "https://") {
        return false;
    }
    let lower_url = to_lowercase(url);
    let lower = lower_url.as_str();
    ends_with(lower, ".jpg") || ends_with(lower, ".jpeg") || ends_with(lower, ".png") || ends_with(
        lower,
        ".gif",
    ) || ends_with(lower, ".webp") || ends_with(lower, ".svg") || contains_text(lower, "imgur.com")
        || contains_text(lower, "cloudinary.com") || contains_text(lower, "amazonaws.com")
        || contains_text(lower, "googleusercontent.com")
}

/// The first rule on required texts that a cause violates, if any.
pub open spec fn cause_text_error(c: CauseView) -> Option<CauseErrorView> {
    if is_blank(c.id) {
        Some(CauseErrorView::IdRequired)
    } else if is_blank(c.name) {
        Some(CauseErrorView::NameRequired)
    } else if utf8_len(c.name) > MAX_CAUSE_NAME_LENGTH {
        Some(CauseErrorView::NameTooLong)
    } else if is_blank(c.description) {
        Some(CauseErrorView::DescriptionRequired)
    } else if utf8_len(c.description) > MAX_CAUSE_DESCRIPTION_LENGTH {
        Some(CauseErrorView::DescriptionTooLong)
    } else if is_blank(c.category_id) {
        Some(CauseErrorView::CategoryIdRequired)
    } else if is_blank(c.subcategory_id) {
        Some(CauseErrorView::SubcategoryIdRequired)
    } else if is_blank(c.icon) {
        Some(CauseErrorView::IconRequired)
    } else {
        None
    }
}

/// The first rule on figures that a cause violates, if any: funds raised are
/// not negative, a target is positive, an impact score lies between zero and
/// one hundred.
pub open spec fn cause_figure_error(c: CauseView) -> Option<CauseErrorView> {
    if c.funds_raised < 0 {
        Some(CauseErrorView::NegativeFunds)
    } else if c.target_amount is Some && c.target_amount->0 <= 0 {
        Some(CauseErrorView::TargetNotPositive)
    } else if c.impact_score is Some && (c.impact_score->0 < 0 || c.impact_score->0
        > MAX_IMPACT_SCORE) {
        Some(CauseErrorView::ImpactScoreOutOfRange)
    } else {
        None
    }
}

/// The first rule that a cause record violates, if any: required texts,
/// figures, a known status, a cover image that is an image address where
/// there is one, and timestamps.
pub open spec fn cause_data_error(c: CauseView) -> Option<CauseErrorView> {
    if cause_text_error(c) is Some {
        cause_text_error(c)
    } else if cause_figure_error(c) is Some {
        cause_figure_error(c)
    } else if !cause_status(c.status) {
        Some(CauseErrorView::InvalidStatus(c.status))
    } else if c.cover_image is Some && c.cover_image->0.len() > 0 && !image_url(c.cover_image->0) {
        Some(CauseErrorView::InvalidCoverImage)
    } else if is_blank(c.created_at) {
        Some(CauseErrorView::CreatedAtRequired)
    } else if is_blank(c.updated_at) {
        Some(CauseErrorView::UpdatedAtRequired)
    } else {
        None
    }
}

fn validate_cause_texts(cause: &Cause) -> (r: Result<(), CauseError>)
    ensures
        cause_verdict_is(r, cause_text_error(cause@)),
{
    if is_blank_text(cause.id.as_str()) {
        return Err(CauseError::IdRequired);
    }
    if is_blank_text(cause.name.as_str()) {
        return Err(CauseError::NameRequired);
    }
    if cause.name.as_str().len() > MAX_CAUSE_NAME_LENGTH {
        return Err(CauseError::NameTooLong);
    }
    if is_blank_text(cause.description.as_str()) {
        return Err(CauseError::DescriptionRequired);
    }
    if cause.description.as_str().len() > MAX_CAUSE_DESCRIPTION_LENGTH {
        return Err(CauseError::DescriptionTooLong);
    }
    if is_blank_text(cause.category_id.as_str()) {
        return Err(CauseError::CategoryIdRequired);
    }
    if is_blank_text(cause.subcategory_id.as_str()) {
        return Err(CauseError::SubcategoryIdRequired);
    }
    if is_blank_text(cause.icon.as_str()) {
        return Err(CauseError::IconRequired);
    }
    Ok(())
}

fn validate_cause_figures(cause: &Cause) -> (r: Result<(), CauseError>)
    ensures
        cause_verdict_is(r, cause_figure_error(cause@)),
{
    if cause.funds_raised < 0 {
        return Err(CauseError::NegativeFunds);
    }
    match cause.target_amount {
        Some(target) => {
            if target <= 0 {
                return Err(CauseError::TargetNotPositive);
            }
        },
        None => {},
    }
    match cause.impact_score {
        Some(score) => {
            if score < 0 || score > MAX_IMPACT_SCORE {
                return Err(CauseError::ImpactScoreOutOfRange);
            }
        },
        None => {},
    }
    Ok(())
}

/// Validates a cause record.
pub fn validate_cause_data(cause: &Cause) -> (r: Result<(), CauseError>)
    ensures
        cause_verdict_is(r, cause_data_error(cause@)),
{
    validate_cause_texts(cause)?;
    validate_cause_figures(cause)?;
    validate_cause_status(cause.status.as_str())?;
    match &cause.cover_image {
        Some(url) => {
            if !url.as_str().is_empty() && !is_valid_image_url(url.as_str()) {
                return Err(CauseError::InvalidCoverImage);
            }
        },
        None => {},
    }
    if is_blank_text(cause.created_at.as_str()) {
        return Err(CauseError::CreatedAtRequired);
    }
    if is_blank_text(cause.updated_at.as_str()) {
        return Err(CauseError::UpdatedAtRequired);
    }
    Ok(())
}

/// The rule on activity that a cause violates for its status, if any: only
/// an approved cause is active, and the status is known.
pub open spec fn cause_status_rule_error(c: CauseView) -> Option<CauseErrorView> {
    if c.status == "pending"@ {
        if c.is_active {
            Some(CauseErrorView::PendingActive)
        } else {
            None
        }
    } else if c.status == "approved"@ {
        None
    } else if c.status == "rejected"@ {
        if c.is_active {
            Some(CauseErrorView::RejectedActive)
        } else {
            None
        }
    } else {
        Some(CauseErrorView::UnknownStatus(c.status))
    }
}

/// Checks that a cause is active only where its status allows.
pub fn validate_cause_status_rules(cause: &Cause) -> (r: Result<(), CauseError>)
    ensures
        cause_verdict_is(r, cause_status_rule_error(cause@)),
{
    if is_text(&cause.status, "pending") {
        if cause.is_active {
            return Err(CauseError::PendingActive);
        }
        Ok(())
    } else if is_text(&cause.status, "approved") {
        Ok(())
    } else if is_text(&cause.status, "rejected") {
        if cause.is_active {
            return Err(CauseError::RejectedActive);
        }
        Ok(())
    } else {
        Err(CauseError::UnknownStatus(cause.status.clone()))
    }
}

/// Whether a text names a main category of causes.
pub open spec fn main_category(s: Seq<char>) -> bool {
    s == "permanent"@ || s == "temporary_time_bound"@ || s == "temporary_revolving"@
}

/// The rule on categories that a cause violates, if any: the main category
/// is known and the subcategory is named.
pub open spec fn cause_category_error(category_id: Seq<char>, subcategory_id: Seq<char>) -> Option<
    CauseErrorView,
> {
    if !main_category(category_id) {
        Some(CauseErrorView::InvalidMainCategory(category_id))
    } else if subcategory_id.len() == 0 {
        Some(CauseErrorView::SubcategoryEmpty)
    } else {
        None
    }
}

/// Validates the category and subcategory of a cause.
pub fn validate_cause_category_ids(category_id: &str, subcategory_id: &str) -> (r: Result<
    (),
    CauseError,
>)
    ensures
        cause_verdict_is(r, cause_category_error(category_id@, subcategory_id@)),
{
    if !same_text(category_id, "permanent") && !same_text(category_id, "temporary_time_bound")
        && !same_text(category_id, "temporary_revolving") {
        return Err(CauseError::InvalidMainCategory(String::from_str(category_id)));
    }
    if subcategory_id.is_empty() {
        return Err(CauseError::SubcategoryEmpty);
    }
    Ok(())
}

/// Checks the business rules on a cause: its categories.
pub fn validate_cause_business_rules(cause: &Cause) -> (r: Result<(), CauseError>)
    ensures
        cause_verdict_is(r, cause_category_error(cause@.category_id, cause@.subcategory_id)),
{
    validate_cause_category_ids(cause.category_id.as_str(), cause.subcategory_id.as_str())
}

/// The first rule that a proposed cause violates, if any: the rules on the
/// record, then on activity, then on categories.
pub open spec fn cause_assertion_error(c: CauseView) -> Option<CauseErrorView> {
    if cause_data_error(c) is Some {
        cause_data_error(c)
    } else if cause_status_rule_error(c) is Some {
        cause_status_rule_error(c)
    } else {
        cause_category_error(c.category_id, c.subcategory_id)
    }
}

/// Checks a proposed write to the collection of causes.
pub fn assert_cause_operations(cause: &Cause) -> (r: Result<(), CauseError>)
    ensures
        cause_verdict_is(r, cause_assertion_error(cause@)),
{
    validate_cause_data(cause)?;
    validate_cause_status_rules(cause)?;
    validate_cause_business_rules(cause)
}

/// The reason, if any, why a cause cannot be deleted: there is none stored,
/// it is active, or it has received donations.
pub open spec fn cause_deletion_error(current: Option<CauseView>) -> Option<CauseErrorView> {
    match current {
        None => Some(CauseErrorView::NoCurrentDocument),
        Some(c) => if c.is_active {
            Some(CauseErrorView::ActiveDeletion)
        } else if c.funds_raised > 0 {
            Some(CauseErrorView::FundedDeletion)
        } else {
            None
        },
    }
}

/// The model of an optional reference to a cause.
pub open spec fn cause_model(c: Option<&Cause>) -> Option<CauseView> {
    match c {
        Some(c) => Some(c@),
        None => None,
    }
}

/// Checks the deletion of a cause.
pub fn assert_cause_deletion(current: Option<&Cause>) -> (r: Result<(), CauseError>)
    ensures
        cause_verdict_is(r, cause_deletion_error(cause_model(current))),
{
    match current {
        None => Err(CauseError::NoCurrentDocument),
        Some(cause) => {
            if cause.is_active {
                return Err(CauseError::ActiveDeletion);
            }
            if cause.funds_raised > 0 {
                return Err(CauseError::FundedDeletion);
            }
            Ok(())
        },
    }
}

} // verus!
