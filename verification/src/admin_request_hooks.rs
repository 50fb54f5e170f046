//! Requests to add, remove or update an administrator.

use vstd::prelude::*;
use crate::admin_hooks::AdminRole;
use crate::text::{contains_char, is_blank, is_blank_text, utf8_len};
use crate::waqf_types::view_of;

verus! {

/// What a request asks to do with an administrator.
#[derive(Clone, Copy, Debug, PartialEq, Eq, Structural)]
pub enum AdminRequestType {
    Add,
    Remove,
    Update,
}

/// How far a request has come.
#[derive(Clone, Copy, Debug, PartialEq, Eq, Structural)]
pub enum AdminRequestStatus {
    Pending,
    Approved,
    Rejected,
    Expired,
}

/// A request to add, remove or update an administrator.
#[derive(Debug, Clone, PartialEq)]
pub struct AdminRequest {
    pub id: String,
    pub request_type: AdminRequestType,
    pub status: AdminRequestStatus,
    pub target_admin_email: String,
    pub target_role: AdminRole,
    pub justification: String,
    pub requested_by: String,
    /// Time of creation, in milliseconds.
    pub created_at: u64,
    pub reviewed_by: Option<String>,
    /// Time of review, in milliseconds.
    pub reviewed_at: Option<u64>,
    pub review_notes: Option<String>,
    /// Time of expiry, in milliseconds.
    pub expires_at: Option<u64>,
}

/// Mathematical model of [`AdminRequest`].
pub ghost struct AdminRequestView {
    pub id: Seq<char>,
    pub request_type: AdminRequestType,
    pub status: AdminRequestStatus,
    pub target_admin_email: Seq<char>,
    pub target_role: AdminRole,
    pub justification: Seq<char>,
    pub requested_by: Seq<char>,
    pub created_at: u64,
    pub reviewed_by: Option<Seq<char>>,
    pub reviewed_at: Option<u64>,
    pub review_notes: Option<Seq<char>>,
    pub expires_at: Option<u64>,
}

impl View for AdminRequest {
    type V = AdminRequestView;

    open spec fn view(&self) -> AdminRequestView {
        AdminRequestView {
            id: self.id@,
            request_type: self.request_type,
            status: self.status,
            target_admin_email: self.target_admin_email@,
            target_role: self.target_role,
            justification: self.justification@,
            requested_by: self.requested_by@,
            created_at: self.created_at,
            reviewed_by: view_of(self.reviewed_by),
            reviewed_at: self.reviewed_at,
            review_notes: view_of(self.review_notes),
            expires_at: self.expires_at,
        }
    }
}

/// Longest time, in milliseconds, that a pending request may wait: thirty
/// days.
pub const MAX_EXPIRY_MILLIS: u64 = 2_592_000_000;

/// Why a request about an administrator, or its deletion, was rejected.
#[derive(Clone, Copy, Debug, PartialEq, Eq, Structural)]
pub enum AdminRequestError {
    IdRequired,
    TargetEmailRequired,
    InvalidTargetEmail,
    JustificationRequired,
    JustificationTooShort,
    JustificationTooLong,
    RequestedByRequired,
    CreatedAtRequired,
    PendingWithReview,
    ReviewMissing,
    ReviewBeforeCreation,
    ExpiryNotPast,
    PlatformAdditionNeedsDetail,
    PlatformRemovalNeedsDetail,
    UpdateNeedsDetail,
    ExpiryNotFuture,
    ExpiryTooFar,
    ExpiryBeforeCreation,
    NoCurrentDocument,
    ApprovedDeletion,
}

impl AdminRequestError {
    /// The message that describes the error.
    pub open spec fn text(self) -> Seq<char> {
        match self {
            AdminRequestError::IdRequired => "Request ID is required"@,
            AdminRequestError::TargetEmailRequired => "Target admin email is required"@,
            AdminRequestError::InvalidTargetEmail => "Invalid target admin email format"@,
            AdminRequestError::JustificationRequired => "Justification is required"@,
            AdminRequestError::JustificationTooShort => "Justification must be at least 10 characters"@,
            AdminRequestError::JustificationTooLong => "Justification must be 2000 characters or less"@,
            AdminRequestError::RequestedByRequired => "Requested by field is required"@,
            AdminRequestError::CreatedAtRequired => "Created at timestamp is required"@,
            AdminRequestError::PendingWithReview => "Pending requests cannot have review data"@,
            AdminRequestError::ReviewMissing => "Approved/rejected requests must say by whom and when they were reviewed"@,
            AdminRequestError::ReviewBeforeCreation => "Review date cannot be before creation date"@,
            AdminRequestError::ExpiryNotPast => "Expired requests must have expiry date in the past"@,
            AdminRequestError::PlatformAdditionNeedsDetail => "Platform Admin additions require detailed justification (minimum 50 characters)"@,
            AdminRequestError::PlatformRemovalNeedsDetail => "Platform Admin removals require extensive justification (minimum 100 characters)"@,
            AdminRequestError::UpdateNeedsDetail => "Role updates require adequate justification (minimum 20 characters)"@,
            AdminRequestError::ExpiryNotFuture => "Request expiry date must be in the future"@,
            AdminRequestError::ExpiryTooFar => "Request expiry date cannot exceed 30 days from now"@,
            AdminRequestError::ExpiryBeforeCreation => "Request expiry date must be after creation date"@,
            AdminRequestError::NoCurrentDocument => "No current document found for deletion"@,
            AdminRequestError::ApprovedDeletion => "Cannot delete approved admin requests (audit trail requirement)"@,
        }
    }

    /// Describes the error in words.
    pub fn message(&self) -> (s: &'static str)
        ensures
            s@ == self.text(),
    {
        match self {
            AdminRequestError::IdRequired => "Request ID is required",
            AdminRequestError::TargetEmailRequired => "Target admin email is required",
            AdminRequestError::InvalidTargetEmail => "Invalid target admin email format",
            AdminRequestError::JustificationRequired => "Justification is required",
            AdminRequestError::JustificationTooShort => "Justification must be at least 10 characters",
            AdminRequestError::JustificationTooLong => "Justification must be 2000 characters or less",
            AdminRequestError::RequestedByRequired => "Requested by field is required",
            AdminRequestError::CreatedAtRequired => "Created at timestamp is required",
            AdminRequestError::PendingWithReview => "Pending requests cannot have review data",
            AdminRequestError::ReviewMissing => "Approved/rejected requests must say by whom and when they were reviewed",
            AdminRequestError::ReviewBeforeCreation => "Review date cannot be before creation date",
            AdminRequestError::ExpiryNotPast => "Expired requests must have expiry date in the past",
            AdminRequestError::PlatformAdditionNeedsDetail => "Platform Admin additions require detailed justification (minimum 50 characters)",
            AdminRequestError::PlatformRemovalNeedsDetail => "Platform Admin removals require extensive justification (minimum 100 characters)",
            AdminRequestError::UpdateNeedsDetail => "Role updates require adequate justification (minimum 20 characters)",
            AdminRequestError::ExpiryNotFuture => "Request expiry date must be in the future",
            AdminRequestError::ExpiryTooFar => "Request expiry date cannot exceed 30 days from now",
            AdminRequestError::ExpiryBeforeCreation => "Request expiry date must be after creation date",
            AdminRequestError::NoCurrentDocument => "No current document found for deletion",
            AdminRequestError::ApprovedDeletion => "Cannot delete approved admin requests (audit trail requirement)",
        }
    }
}

/// Whether the outcome of a check is the one its rules prescribe: success
/// where no rule is violated, else the error of the first violated rule.
pub open spec fn request_verdict_is(r: Result<(), AdminRequestError>, verdict: Option<AdminRequestError>) -> bool {
    match verdict {
        None => r is Ok,
        Some(e) => r == Err::<(), AdminRequestError>(e),
    }
}

/// Whether a text may be an email address: it holds an `@` and is 5 to 254
/// bytes long.
pub open spec fn plausible_email(email: Seq<char>) -> bool {
    email.contains('@') && 5 <= utf8_len(email) <= 254
}

/// Whether a text may be an email address.
pub fn is_valid_email(email: &str) -> (r: bool)
    ensures
        r == plausible_email(email@),
{
    contains_char(email, '@') && email.len() >= 5 && email.len() <= 254
}

/// The first rule on required fields that a request violates, if any.
pub open spec fn request_fields_error(q: AdminRequestView) -> Option<AdminRequestError> {
    if is_blank(q.id) {
        Some(AdminRequestError::IdRequired)
    } else if is_blank(q.target_admin_email) {
        Some(AdminRequestError::TargetEmailRequired)
    } else if !plausible_email(q.target_admin_email) {
        Some(AdminRequestError::InvalidTargetEmail)
    } else if is_blank(q.justification) {
        Some(AdminRequestError::JustificationRequired)
    } else if utf8_len(q.justification) < 10 {
        Some(AdminRequestError::JustificationTooShort)
    } else if utf8_len(q.justification) > 2000 {
        Some(AdminRequestError::JustificationTooLong)
    } else if is_blank(q.requested_by) {
        Some(AdminRequestError::RequestedByRequired)
    } else if q.created_at == 0 {
        Some(AdminRequestError::CreatedAtRequired)
    } else {
        None
    }
}

/// The rule on its status that a request violates at `now_millis`, if any:
/// a pending request has no review; an approved or rejected one has a
/// review by someone at a time not before its creation; an expired one has
/// no expiry still ahead.
pub open spec fn request_status_error(q: AdminRequestView, now_millis: u64) -> Option<
    AdminRequestError,
> {
    match q.status {
        AdminRequestStatus::Pending => if q.reviewed_by is Some || q.reviewed_at is Some {
            Some(AdminRequestError::PendingWithReview)
        } else {
            None
        },
        AdminRequestStatus::Approved | AdminRequestStatus::Rejected => if q.reviewed_by is None
            || q.reviewed_at is None {
            Some(AdminRequestError::ReviewMissing)
        } else if q.reviewed_at->0 < q.created_at {
            Some(AdminRequestError::ReviewBeforeCreation)
        } else {
            None
        },
        AdminRequestStatus::Expired => if q.expires_at is Some && q.expires_at->0 > now_millis {
            Some(AdminRequestError::ExpiryNotPast)
        } else {
            None
        },
    }
}

/// The rule on its justification that a request violates for what it asks,
/// if any: adding a platform administrator takes 50 bytes of justification,
/// removing one 100, and every update 20.
pub open spec fn request_role_error(q: AdminRequestView) -> Option<AdminRequestError> {
    match q.request_type {
        AdminRequestType::Add => if q.target_role == AdminRole::PlatformAdmin && utf8_len(
            q.justification,
        ) < 50 {
            Some(AdminRequestError::PlatformAdditionNeedsDetail)
        } else {
            None
        },
        AdminRequestType::Remove => if q.target_role == AdminRole::PlatformAdmin && utf8_len(
            q.justification,
        ) < 100 {
            Some(AdminRequestError::PlatformRemovalNeedsDetail)
        } else {
            None
        },
        AdminRequestType::Update => if utf8_len(q.justification) < 20 {
            Some(AdminRequestError::UpdateNeedsDetail)
        } else {
            None
        },
    }
}

/// The first rule that a request record violates at `now_millis`, if any:
/// required fields, then status, then justification.
pub open spec fn request_data_error(q: AdminRequestView, now_millis: u64) -> Option<
    AdminRequestError,
> {
    if request_fields_error(q) is Some {
        request_fields_error(q)
    } else if request_status_error(q, now_millis) is Some {
        request_status_error(q, now_millis)
    } else {
        request_role_error(q)
    }
}

fn validate_request_fields(request: &AdminRequest) -> (r: Result<(), AdminRequestError>)
    ensures
        request_verdict_is(r, request_fields_error(request@)),
{
    if is_blank_text(request.id.as_str()) {
        return Err(AdminRequestError::IdRequired);
    }
    if is_blank_text(request.target_admin_email.as_str()) {
        return Err(AdminRequestError::TargetEmailRequired);
    }
    if !is_valid_email(request.target_admin_email.as_str()) {
        return Err(AdminRequestError::InvalidTargetEmail);
    }
    if is_blank_text(request.justification.as_str()) {
        return Err(AdminRequestError::JustificationRequired);
    }
    if request.justification.as_str().len() < 10 {
        return Err(AdminRequestError::JustificationTooShort);
    }
    if request.justification.as_str().len() > 2000 {
        return Err(AdminRequestError::JustificationTooLong);
    }
    if is_blank_text(request.requested_by.as_str()) {
        return Err(AdminRequestError::RequestedByRequired);
    }
    if request.created_at == 0 {
        return Err(AdminRequestError::CreatedAtRequired);
    }
    Ok(())
}

/// Checks that a request's review data agree with its status at
/// `now_millis`.
pub fn validate_request_status_consistency(request: &AdminRequest, now_millis: u64) -> (r: Result<
    (),
    AdminRequestError,
>)
    ensures
        request_verdict_is(r, request_status_error(request@, now_millis)),
{
    match request.status {
        AdminRequestStatus::Pending => {
            if request.reviewed_by.is_some() || request.reviewed_at.is_some() {
                return Err(AdminRequestError::PendingWithReview);
            }
        },
        AdminRequestStatus::Approved | AdminRequestStatus::Rejected => {
            if request.reviewed_by.is_none() {
                return Err(AdminRequestError::ReviewMissing);
            }
            match request.reviewed_at {
                None => {
                    return Err(AdminRequestError::ReviewMissing);
                },
                Some(reviewed_at) => {
                    if reviewed_at < request.created_at {
                        return Err(AdminRequestError::ReviewBeforeCreation);
                    }
                },
            }
        },
        AdminRequestStatus::Expired => {
            match request.expires_at {
                Some(expires_at) => {
                    if expires_at > now_millis {
                        return Err(AdminRequestError::ExpiryNotPast);
                    }
                },
                None => {},
            }
        },
    }
    Ok(())
}

/// Checks that a request is justified at the length that what it asks
/// takes.
pub fn validate_request_role_rules(request: &AdminRequest) -> (r: Result<(), AdminRequestError>)
    ensures
        request_verdict_is(r, request_role_error(request@)),
{
    let length = request.justification.as_str().len();
    let platform = match request.target_role {
        AdminRole::PlatformAdmin => true,
        _ => false,
    };
    match request.request_type {
        AdminRequestType::Add => {
            if platform && length < 50 {
                return Err(AdminRequestError::PlatformAdditionNeedsDetail);
            }
        },
        AdminRequestType::Remove => {
            if platform && length < 100 {
                return Err(AdminRequestError::PlatformRemovalNeedsDetail);
            }
        },
        AdminRequestType::Update => {
            if length < 20 {
                return Err(AdminRequestError::UpdateNeedsDetail);
            }
        },
    }
    Ok(())
}

/// Validates a request record at time `now_millis`.
pub fn validate_admin_request_data(request: &AdminRequest, now_millis: u64) -> (r: Result<
    (),
    AdminRequestError,
>)
    ensures
        request_verdict_is(r, request_data_error(request@, now_millis)),
{
    validate_request_fields(request)?;
    validate_request_status_consistency(request, now_millis)?;
    validate_request_role_rules(request)
}

/// The rule on its expiry that a request violates at `now_millis`, if any:
/// a pending request expires in the future and within thirty days, and every
/// request expires after its creation.
pub open spec fn request_expiry_error(q: AdminRequestView, now_millis: u64) -> Option<
    AdminRequestError,
> {
    match q.expires_at {
        None => None,
        Some(expires_at) => if q.status == AdminRequestStatus::Pending && expires_at
            <= now_millis {
            Some(AdminRequestError::ExpiryNotFuture)
        } else if q.status == AdminRequestStatus::Pending && expires_at > now_millis
            + MAX_EXPIRY_MILLIS {
            Some(AdminRequestError::ExpiryTooFar)
        } else if expires_at <= q.created_at {
            Some(AdminRequestError::ExpiryBeforeCreation)
        } else {
            None
        },
    }
}

/// Checks the expiry of a request at time `now_millis`.
pub fn validate_request_expiry(request: &AdminRequest, now_millis: u64) -> (r: Result<
    (),
    AdminRequestError,
>)
    ensures
        request_verdict_is(r, request_expiry_error(request@, now_millis)),
{
    match request.expires_at {
        Some(expires_at) => {
            match request.status {
                AdminRequestStatus::Pending => {
                    if expires_at <= now_millis {
                        return Err(AdminRequestError::ExpiryNotFuture);
                    }
                    if expires_at - now_millis > MAX_EXPIRY_MILLIS {
                        return Err(AdminRequestError::ExpiryTooFar);
                    }
                },
                _ => {},
            }
            if expires_at <= request.created_at {
                return Err(AdminRequestError::ExpiryBeforeCreation);
            }
            Ok(())
        },
        None => Ok(()),
    }
}

/// The first rule that a proposed request violates at `now_millis`, if any:
/// the rules on the record, then the rule on its expiry.
pub open spec fn request_assertion_error(q: AdminRequestView, now_millis: u64) -> Option<
    AdminRequestError,
> {
    if request_data_error(q, now_millis) is Some {
        request_data_error(q, now_millis)
    } else {
        request_expiry_error(q, now_millis)
    }
}

/// Checks a proposed write to the collection of requests at time
/// `now_millis`.
pub fn assert_admin_request_operations(request: &AdminRequest, now_millis: u64) -> (r: Result<
    (),
    AdminRequestError,
>)
    ensures
        request_verdict_is(r, request_assertion_error(request@, now_millis)),
{
    validate_admin_request_data(request, now_millis)?;
    validate_request_expiry(request, now_millis)
}

/// The reason, if any, why a request cannot be deleted: there is none
/// stored, or the stored one is approved and part of the audit trail.
pub open spec fn request_deletion_error(current: Option<AdminRequestView>) -> Option<
    AdminRequestError,
> {
    match current {
        None => Some(AdminRequestError::NoCurrentDocument),
        Some(q) => if q.status == AdminRequestStatus::Approved {
            Some(AdminRequestError::ApprovedDeletion)
        } else {
            None
        },
    }
}

/// The model of an optional reference to a request.
pub open spec fn request_model(q: Option<&AdminRequest>) -> Option<AdminRequestView> {
    match q {
        Some(q) => Some(q@),
        None => None,
    }
}

/// Checks the deletion of a request.
pub fn assert_admin_request_deletion(current: Option<&AdminRequest>) -> (r: Result<
    (),
    AdminRequestError,
>)
    ensures
        request_verdict_is(r, request_deletion_error(request_model(current))),
{
    match current {
        None => Err(AdminRequestError::NoCurrentDocument),
        Some(request) => match request.status {
            AdminRequestStatus::Approved => Err(AdminRequestError::ApprovedDeletion),
            _ => Ok(()),
        },
    }
}

} // verus!
