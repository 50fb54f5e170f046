use waqf_satellite::activity_log_hooks::{
    ActivityLog, ActivityLogError, assert_activity_log_deletion, assert_activity_log_operations,
    MIN_RETENTION_MILLIS, validate_activity_log_data,
};

fn log() -> ActivityLog {
    ActivityLog {
        id: "log-1".to_string(),
        action: "waqf_donated".to_string(),
        category: "waqf".to_string(),
        level: "info".to_string(),
        user_id: Some("user-1".to_string()),
        user_email: Some("amina@example.org".to_string()),
        details: Some("Donation of 200 to waqf-1".to_string()),
        resource_id: Some("waqf-1".to_string()),
        resource_type: Some("waqf".to_string()),
        timestamp: 1_700_000_000_000,
    }
}

#[test]
fn valid_activity_log_entry_is_accepted() {
    assert_eq!(validate_activity_log_data(&log()), Ok(()));
    assert_eq!(assert_activity_log_operations(&log()), Ok(()));
    for category in ["admin", "cause", "waqf", "donation", "user", "system", "audit"] {
        let mut l = log();
        l.category = category.to_string();
        assert_eq!(validate_activity_log_data(&l), Ok(()));
    }
    for level in ["info", "warning", "error", "critical"] {
        let mut l = log();
        l.level = level.to_string();
        assert_eq!(validate_activity_log_data(&l), Ok(()));
    }
}

#[test]
fn each_activity_log_rule_is_reported() {
    let mut l = log();
    l.id = " ".to_string();
    assert_eq!(validate_activity_log_data(&l), Err(ActivityLogError::IdRequired));
    l = log();
    l.action = String::new();
    assert_eq!(validate_activity_log_data(&l), Err(ActivityLogError::ActionRequired));
    l = log();
    l.category = "\t".to_string();
    assert_eq!(validate_activity_log_data(&l), Err(ActivityLogError::CategoryRequired));
    l = log();
    l.level = String::new();
    assert_eq!(validate_activity_log_data(&l), Err(ActivityLogError::LevelRequired));
    l = log();
    l.timestamp = 0;
    assert_eq!(validate_activity_log_data(&l), Err(ActivityLogError::TimestampRequired));
    l = log();
    l.category = "Waqf".to_string();
    assert_eq!(validate_activity_log_data(&l), Err(ActivityLogError::InvalidCategory));
    l = log();
    l.level = "debug".to_string();
    assert_eq!(validate_activity_log_data(&l), Err(ActivityLogError::InvalidLevel));
    l = log();
    l.action = "a".repeat(101);
    assert_eq!(validate_activity_log_data(&l), Err(ActivityLogError::ActionTooLong));
    l.action = "a".repeat(100);
    assert_eq!(validate_activity_log_data(&l), Ok(()));
    l = log();
    l.details = Some("d".repeat(1001));
    assert_eq!(validate_activity_log_data(&l), Err(ActivityLogError::DetailsTooLong));
    l = log();
    l.user_email = Some("amina".to_string());
    assert_eq!(validate_activity_log_data(&l), Err(ActivityLogError::InvalidUserEmail));
    l.user_email = Some(String::new());
    assert_eq!(validate_activity_log_data(&l), Ok(()));
}

#[test]
fn activity_log_deletion_rules() {
    let l = log();
    let old_enough = l.timestamp + MIN_RETENTION_MILLIS;
    assert_eq!(assert_activity_log_deletion(None, old_enough), Err(ActivityLogError::NoCurrentDocument));
    assert_eq!(assert_activity_log_deletion(Some(&l), old_enough), Ok(()));
    assert_eq!(
        assert_activity_log_deletion(Some(&l), old_enough - 1),
        Err(ActivityLogError::RetentionNotOver)
    );
    assert_eq!(
        assert_activity_log_deletion(Some(&l), l.timestamp - 1),
        Err(ActivityLogError::RetentionNotOver)
    );
    let mut audit = log();
    audit.category = "audit".to_string();
    assert_eq!(
        assert_activity_log_deletion(Some(&audit), old_enough),
        Err(ActivityLogError::CriticalLogDeletion)
    );
    let mut critical = log();
    critical.level = "critical".to_string();
    assert_eq!(
        assert_activity_log_deletion(Some(&critical), old_enough),
        Err(ActivityLogError::CriticalLogDeletion)
    );
}

#[test]
fn activity_log_messages() {
    assert_eq!(ActivityLogError::IdRequired.message(), "Activity log ID is required");
    assert_eq!(
        ActivityLogError::CriticalLogDeletion.message(),
        "Cannot delete critical audit logs (compliance requirement)"
    );
    assert_eq!(
        ActivityLogError::RetentionNotOver.message(),
        "Activity logs cannot be deleted within 7 days of creation"
    );
}
