//! The activity log: the rules on its entries and on deleting them.

use vstd::prelude::*;
use crate::text::{contains_char, is_blank, is_blank_text, is_text, utf8_len};
use crate::waqf_types::view_of;

verus! {

/// Shortest time, in milliseconds, for which an activity log is kept: seven
/// days.
pub const MIN_RETENTION_MILLIS: u64 = 604_800_000;

/// Greatest length of an action, in bytes.
pub const MAX_ACTION_LENGTH: usize = 100;

/// Greatest length of the details, in bytes.
pub const MAX_DETAILS_LENGTH: usize = 1000;

/// One entry of the activity log.
#[derive(Debug, Clone, PartialEq)]
pub struct ActivityLog {
    pub id: String,
    /// What happened, such as `waqf_donated`.
    pub action: String,
    /// `admin`, `cause`, `waqf`, `donation`, `user`, `system` or `audit`.
    pub category: String,
    /// `info`, `warning`, `error` or `critical`.
    pub level: String,
    pub user_id: Option<String>,
    pub user_email: Option<String>,
    pub details: Option<String>,
    pub resource_id: Option<String>,
    pub resource_type: Option<String>,
    /// Time of the activity, in milliseconds.
    pub timestamp: u64,
}

/// Mathematical model of [`ActivityLog`].
pub ghost struct ActivityLogView {
    pub id: Seq<char>,
    pub action: Seq<char>,
    pub category: Seq<char>,
    pub level: Seq<char>,
    pub user_id: Option<Seq<char>>,
    pub user_email: Option<Seq<char>>,
    pub details: Option<Seq<char>>,
    pub resource_id: Option<Seq<char>>,
    pub resource_type: Option<Seq<char>>,
    pub timestamp: u64,
}

impl View for ActivityLog {
    type V = ActivityLogView;

    open spec fn view(&self) -> ActivityLogView {
        ActivityLogView {
            id: self.id@,
            action: self.action@,
            category: self.category@,
            level: self.level@,
            user_id: view_of(self.user_id),
            user_email: view_of(self.user_email),
            details: view_of(self.details),
            resource_id: view_of(self.resource_id),
            resource_type: view_of(self.resource_type),
            timestamp: self.timestamp,
        }
    }
}

/// Why an activity log entry, or its deletion, was rejected.
#[derive(Clone, Copy, Debug, PartialEq, Eq, Structural)]
pub enum ActivityLogError {
    IdRequired,
    ActionRequired,
    CategoryRequired,
    LevelRequired,
    TimestampRequired,
    InvalidCategory,
    InvalidLevel,
    ActionTooLong,
    DetailsTooLong,
    InvalidUserEmail,
    NoCurrentDocument,
    CriticalLogDeletion,
    RetentionNotOver,
}

/// Whether a text is a category of activity.
pub open spec fn valid_category(s: Seq<char>) -> bool {
    s == "admin"@ || s == "cause"@ || s == "waqf"@ || s == "donation"@ || s == "user"@ || s
        == "system"@ || s == "audit"@
}

/// Whether a text is a level of activity.
pub open spec fn valid_level(s: Seq<char>) -> bool {
    s == "info"@ || s == "warning"@ || s == "error"@ || s == "critical"@
}

/// The first rule that an activity log entry violates, if any: identifier,
/// action, category and level are not blank, the time is set, category and
/// level are known, action and details are not too long, and an email that
/// is given holds an `@`.
pub open spec fn activity_log_error(log: ActivityLogView) -> Option<ActivityLogError> {
    if is_blank(log.id) {
        Some(ActivityLogError::IdRequired)
    } else if is_blank(log.action) {
        Some(ActivityLogError::ActionRequired)
    } else if is_blank(log.category) {
        Some(ActivityLogError::CategoryRequired)
    } else if is_blank(log.level) {
        Some(ActivityLogError::LevelRequired)
    } else if log.timestamp == 0 {
        Some(ActivityLogError::TimestampRequired)
    } else if !valid_category(log.category) {
        Some(ActivityLogError::InvalidCategory)
    } else if !valid_level(log.level) {
        Some(ActivityLogError::InvalidLevel)
    } else if utf8_len(log.action) > MAX_ACTION_LENGTH {
        Some(ActivityLogError::ActionTooLong)
    } else if log.details is Some && utf8_len(log.details->0) > MAX_DETAILS_LENGTH {
        Some(ActivityLogError::DetailsTooLong)
    } else if log.user_email is Some && log.user_email->0.len() > 0 && !log.user_email->0.contains(
        '@',
    ) {
        Some(ActivityLogError::InvalidUserEmail)
    } else {
        None
    }
}

/// Whether the outcome of a check is the one its rules prescribe.
pub open spec fn log_verdict_is(r: Result<(), ActivityLogError>, verdict: Option<ActivityLogError>) -> bool {
    match verdict {
        None => r is Ok,
        Some(e) => r == Err::<(), ActivityLogError>(e),
    }
}

fn is_category(s: &String) -> (r: bool)
    ensures
        r == valid_category(s@),
{
    is_text(s, "admin") || is_text(s, "cause") || is_text(s, "waqf") || is_text(s, "donation")
        || is_text(s, "user") || is_text(s, "system") || is_text(s, "audit")
}

fn is_level(s: &String) -> (r: bool)
    ensures
        r == valid_level(s@),
{
    is_text(s, "info") || is_text(s, "warning") || is_text(s, "error") || is_text(s, "critical")
}

/// Validates an activity log entry.
pub fn validate_activity_log_data(log: &ActivityLog) -> (r: Result<(), ActivityLogError>)
    ensures
        log_verdict_is(r, activity_log_error(log@)),
{
    if is_blank_text(log.id.as_str()) {
        return Err(ActivityLogError::IdRequired);
    }
    if is_blank_text(log.action.as_str()) {
        return Err(ActivityLogError::ActionRequired);
    }
    if is_blank_text(log.category.as_str()) {
        return Err(ActivityLogError::CategoryRequired);
    }
    if is_blank_text(log.level.as_str()) {
        return Err(ActivityLogError::LevelRequired);
    }
    if log.timestamp == 0 {
        return Err(ActivityLogError::TimestampRequired);
    }
    if !is_category(&log.category) {
        return Err(ActivityLogError::InvalidCategory);
    }
    if !is_level(&log.level) {
        return Err(ActivityLogError::InvalidLevel);
    }
    if log.action.as_str().len() > MAX_ACTION_LENGTH {
        return Err(ActivityLogError::ActionTooLong);
    }
    match &log.details {
        Some(details) => {
            if details.as_str().len() > MAX_DETAILS_LENGTH {
                return Err(ActivityLogError::DetailsTooLong);
            }
        },
        None => {},
    }
    match &log.user_email {
        Some(email) => {
            if !email.as_str().is_empty() && !contains_char(email.as_str(), '@') {
                return Err(ActivityLogError::InvalidUserEmail);
            }
        },
        None => {},
    }
    Ok(())
}

/// Checks a proposed write to the activity log.
pub fn assert_activity_log_operations(log: &ActivityLog) -> (r: Result<(), ActivityLogError>)
    ensures
        log_verdict_is(r, activity_log_error(log@)),
{
    validate_activity_log_data(log)
}

/// The reason, if any, why an activity log entry cannot be deleted at
/// `now_millis`: there is none stored, it is an audit or critical entry, or
/// it is younger than seven days.
pub open spec fn log_deletion_error(current: Option<ActivityLogView>, now_millis: u64) -> Option<
    ActivityLogError,
> {
    match current {
        None => Some(ActivityLogError::NoCurrentDocument),
        Some(log) => if log.category == "audit"@ || log.level == "critical"@ {
            Some(ActivityLogError::CriticalLogDeletion)
        } else if now_millis - log.timestamp < MIN_RETENTION_MILLIS {
            Some(ActivityLogError::RetentionNotOver)
        } else {
            None
        },
    }
}

/// The model of an optional reference to an activity log entry.
pub open spec fn log_model(log: Option<&ActivityLog>) -> Option<ActivityLogView> {
    match log {
        Some(l) => Some(l@),
        None => None,
    }
}

/// Checks the deletion of an activity log entry at time `now_millis`.
pub fn assert_activity_log_deletion(current: Option<&ActivityLog>, now_millis: u64) -> (r: Result<
    (),
    ActivityLogError,
>)
    ensures
        log_verdict_is(r, log_deletion_error(log_model(current), now_millis)),
{
    let log = match current {
        Some(l) => l,
        None => {
            return Err(ActivityLogError::NoCurrentDocument);
        },
    };
    if is_text(&log.category, "audit") || is_text(&log.level, "critical") {
        return Err(ActivityLogError::CriticalLogDeletion);
    }
    if now_millis < log.timestamp || now_millis - log.timestamp < MIN_RETENTION_MILLIS {
        return Err(ActivityLogError::RetentionNotOver);
    }
    Ok(())
}

impl ActivityLogError {
    /// The message that describes the error.
    pub open spec fn text(self) -> Seq<char> {
        match self {
            ActivityLogError::IdRequired => "Activity log ID is required"@,
            ActivityLogError::ActionRequired => "Activity log action is required"@,
            ActivityLogError::CategoryRequired => "Activity log category is required"@,
            ActivityLogError::LevelRequired => "Activity log level is required"@,
            ActivityLogError::TimestampRequired => "Activity log timestamp is required"@,
            ActivityLogError::InvalidCategory => "Invalid activity log category"@,
            ActivityLogError::InvalidLevel => "Invalid activity log level"@,
            ActivityLogError::ActionTooLong => "Activity action must be 100 characters or less"@,
            ActivityLogError::DetailsTooLong => "Activity details must be 1000 characters or less"@,
            ActivityLogError::InvalidUserEmail => "Invalid user email format"@,
            ActivityLogError::NoCurrentDocument => "No current document found for deletion"@,
            ActivityLogError::CriticalLogDeletion => "Cannot delete critical audit logs (compliance requirement)"@,
            ActivityLogError::RetentionNotOver => "Activity logs cannot be deleted within 7 days of creation"@,
        }
    }

    /// Describes the error in words.
    pub fn message(&self) -> (s: &'static str)
        ensures
            s@ == self.text(),
    {
        match self {
            ActivityLogError::IdRequired => "Activity log ID is required",
            ActivityLogError::ActionRequired => "Activity log action is required",
            ActivityLogError::CategoryRequired => "Activity log category is required",
            ActivityLogError::LevelRequired => "Activity log level is required",
            ActivityLogError::TimestampRequired => "Activity log timestamp is required",
            ActivityLogError::InvalidCategory => "Invalid activity log category",
            ActivityLogError::InvalidLevel => "Invalid activity log level",
            ActivityLogError::ActionTooLong => "Activity action must be 100 characters or less",
            ActivityLogError::DetailsTooLong => "Activity details must be 1000 characters or less",
            ActivityLogError::InvalidUserEmail => "Invalid user email format",
            ActivityLogError::NoCurrentDocument => "No current document found for deletion",
            ActivityLogError::CriticalLogDeletion => "Cannot delete critical audit logs (compliance requirement)",
            ActivityLogError::RetentionNotOver => "Activity logs cannot be deleted within 7 days of creation",
        }
    }
}

} // verus!
