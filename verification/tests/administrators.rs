use waqf_satellite::admin_hooks::{
    AdminError, AdminRole, AdminUser, assert_admin_deletion, assert_admin_operations,
    is_valid_email, validate_admin_business_rules, validate_admin_data,
};
use waqf_satellite::admin_request_hooks::{
    AdminRequest, AdminRequestError, AdminRequestStatus, AdminRequestType,
    assert_admin_request_deletion, assert_admin_request_operations, validate_admin_request_data,
    validate_request_expiry, validate_request_role_rules, validate_request_status_consistency,
};

const DAY_MILLIS: u64 = 86_400_000;
const NOW: u64 = 1_700_000_000_000;

fn admin(role: AdminRole, permissions: &[&str]) -> AdminUser {
    AdminUser {
        email: "amina@example.org".to_string(),
        role,
        permissions: permissions.iter().map(|p| p.to_string()).collect(),
        created_by: "root".to_string(),
        active: true,
        user_id: None,
        name: Some("Amina".to_string()),
        created_at: Some(NOW),
        last_active: None,
        updated_at: None,
        updated_by: None,
        deleted: None,
        deleted_at: None,
        deleted_by: None,
    }
}

fn request(kind: AdminRequestType, role: AdminRole, justification: &str) -> AdminRequest {
    AdminRequest {
        id: "req-1".to_string(),
        request_type: kind,
        status: AdminRequestStatus::Pending,
        target_admin_email: "yusuf@example.org".to_string(),
        target_role: role,
        justification: justification.to_string(),
        requested_by: "amina".to_string(),
        created_at: NOW - DAY_MILLIS,
        reviewed_by: None,
        reviewed_at: None,
        review_notes: None,
        expires_at: None,
    }
}

#[test]
fn administrator_email_shape() {
    for good in ["a@b.c", "amina.yusuf+waqf@example-mail.org", "x_y@sub.domain.ng", "\u{e9}@b.co"] {
        assert!(is_valid_email(good), "{}", good);
    }
    for bad in [
        "", "a@b", "a@bc", "ab.cd", "a@@b.c", "a@b@c.d", "@b.cd", "abc@", "a b@c.de", "a@b_c.de",
        "a@b c.de", "a@bcde",
    ] {
        assert!(!is_valid_email(bad), "{}", bad);
    }
    let long_local = format!("{}@b.co", "a".repeat(65));
    assert!(!is_valid_email(&long_local));
    let local_64 = format!("{}@b.co", "a".repeat(64));
    assert!(is_valid_email(&local_64));
    let too_long = format!("a@{}.co", "b".repeat(251));
    assert!(!is_valid_email(&too_long));
    let just_fits = format!("a@{}.co", "b".repeat(249));
    assert!(is_valid_email(&just_fits));
}

#[test]
fn permissions_must_fit_the_role() {
    assert!(validate_admin_data(&admin(AdminRole::SupportAgent, &["user_support"])).is_ok());
    assert!(validate_admin_data(&admin(AdminRole::SupportAgent, &[])).is_ok());
    assert_eq!(
        validate_admin_data(&admin(
            AdminRole::ContentModerator,
            &["user_support", "waqf_management", "cause_approval"]
        )),
        Err(AdminError::PermissionNotAllowed {
            permission: "waqf_management".to_string(),
            role: AdminRole::ContentModerator
        })
    );
    let mut bad = admin(AdminRole::WaqfManager, &["waqf_management"]);
    bad.email = "nobody".to_string();
    assert_eq!(validate_admin_data(&bad), Err(AdminError::InvalidEmail));
    for (role, permission) in [
        (AdminRole::SupportAgent, "user_support"),
        (AdminRole::ContentModerator, "content_moderation"),
        (AdminRole::WaqfManager, "cause_management"),
        (AdminRole::FinanceOfficer, "financial_oversight"),
        (AdminRole::ComplianceOfficer, "admin_request_creation"),
        (AdminRole::PlatformAdmin, "system_administration"),
    ] {
        assert!(role.allows(&permission.to_string()));
    }
    assert!(!AdminRole::FinanceOfficer.allows(&"cause_approval".to_string()));
    assert!(!AdminRole::ComplianceOfficer.allows(&"admin_request_approval".to_string()));
}

#[test]
fn platform_administrator_needs_governing_permissions() {
    assert_eq!(
        validate_admin_data(&admin(AdminRole::PlatformAdmin, &["admin_request_approval"])),
        Err(AdminError::PermissionRequired("platform_governance".to_string()))
    );
    assert_eq!(
        validate_admin_data(&admin(AdminRole::PlatformAdmin, &["platform_governance"])),
        Err(AdminError::PermissionRequired("admin_request_approval".to_string()))
    );
    assert!(validate_admin_data(&admin(
        AdminRole::PlatformAdmin,
        &["platform_governance", "user_support", "admin_request_approval"]
    ))
    .is_ok());
}

#[test]
fn sensitive_roles_start_active() {
    let mut officer = admin(AdminRole::ComplianceOfficer, &["audit_compliance"]);
    officer.active = false;
    assert_eq!(validate_admin_business_rules(&officer), Err(AdminError::SensitiveRoleInactive));
    assert_eq!(assert_admin_operations(&officer), Err(AdminError::SensitiveRoleInactive));
    let mut agent = admin(AdminRole::SupportAgent, &["user_support"]);
    agent.active = false;
    assert!(assert_admin_operations(&agent).is_ok());
    assert_eq!(AdminRole::PlatformAdmin.max_count(), 3);
    assert_eq!(AdminRole::ComplianceOfficer.max_count(), 5);
    assert_eq!(AdminRole::FinanceOfficer.max_count(), 10);
    assert_eq!(AdminRole::WaqfManager.max_count(), 20);
    assert_eq!(AdminRole::ContentModerator.max_count(), 50);
    assert_eq!(AdminRole::SupportAgent.max_count(), 100);
}

#[test]
fn administrator_deletion_and_messages() {
    assert_eq!(assert_admin_deletion(None), Err(AdminError::NoCurrentDocument));
    assert!(assert_admin_deletion(Some(&admin(AdminRole::SupportAgent, &[]))).is_ok());
    assert_eq!(
        AdminError::PermissionNotAllowed {
            permission: "cause_approval".to_string(),
            role: AdminRole::FinanceOfficer
        }
        .message(),
        "Permission 'cause_approval' not allowed for role finance_officer"
    );
    assert_eq!(
        AdminError::PermissionRequired("platform_governance".to_string()).message(),
        "Platform admin must have permission: platform_governance"
    );
    assert_eq!(AdminError::InvalidEmail.message(), "Invalid admin email format");
}

#[test]
fn request_fields() {
    let good = request(AdminRequestType::Add, AdminRole::SupportAgent, "Covers the night shift");
    assert_eq!(validate_admin_request_data(&good, NOW), Ok(()));
    let mut r = good.clone();
    r.id = " ".to_string();
    assert_eq!(validate_admin_request_data(&r, NOW), Err(AdminRequestError::IdRequired));
    r = good.clone();
    r.target_admin_email = String::new();
    assert_eq!(validate_admin_request_data(&r, NOW), Err(AdminRequestError::TargetEmailRequired));
    r.target_admin_email = "yusuf".to_string();
    assert_eq!(validate_admin_request_data(&r, NOW), Err(AdminRequestError::InvalidTargetEmail));
    r = good.clone();
    r.justification = "  ".to_string();
    assert_eq!(validate_admin_request_data(&r, NOW), Err(AdminRequestError::JustificationRequired));
    r.justification = "too short".to_string();
    assert_eq!(validate_admin_request_data(&r, NOW), Err(AdminRequestError::JustificationTooShort));
    r.justification = "j".repeat(2001);
    assert_eq!(validate_admin_request_data(&r, NOW), Err(AdminRequestError::JustificationTooLong));
    r = good.clone();
    r.requested_by = String::new();
    assert_eq!(validate_admin_request_data(&r, NOW), Err(AdminRequestError::RequestedByRequired));
    r = good.clone();
    r.created_at = 0;
    assert_eq!(validate_admin_request_data(&r, NOW), Err(AdminRequestError::CreatedAtRequired));
}

#[test]
fn request_status_and_review() {
    let mut r = request(AdminRequestType::Add, AdminRole::SupportAgent, "Covers the night shift");
    r.reviewed_at = Some(NOW);
    assert_eq!(
        validate_request_status_consistency(&r, NOW),
        Err(AdminRequestError::PendingWithReview)
    );
    r.status = AdminRequestStatus::Approved;
    assert_eq!(validate_request_status_consistency(&r, NOW), Err(AdminRequestError::ReviewMissing));
    r.reviewed_by = Some("root".to_string());
    assert_eq!(validate_request_status_consistency(&r, NOW), Ok(()));
    r.reviewed_at = Some(r.created_at - 1);
    r.status = AdminRequestStatus::Rejected;
    assert_eq!(
        validate_request_status_consistency(&r, NOW),
        Err(AdminRequestError::ReviewBeforeCreation)
    );
    r.status = AdminRequestStatus::Expired;
    r.expires_at = Some(NOW + 1);
    assert_eq!(validate_request_status_consistency(&r, NOW), Err(AdminRequestError::ExpiryNotPast));
    r.expires_at = Some(NOW);
    assert_eq!(validate_request_status_consistency(&r, NOW), Ok(()));
}

#[test]
fn request_justification_by_role() {
    let forty = "j".repeat(49);
    let mut r = request(AdminRequestType::Add, AdminRole::PlatformAdmin, &forty);
    assert_eq!(
        validate_request_role_rules(&r),
        Err(AdminRequestError::PlatformAdditionNeedsDetail)
    );
    r.justification = "j".repeat(50);
    assert_eq!(validate_request_role_rules(&r), Ok(()));
    r.request_type = AdminRequestType::Remove;
    assert_eq!(validate_request_role_rules(&r), Err(AdminRequestError::PlatformRemovalNeedsDetail));
    r.justification = "j".repeat(100);
    assert_eq!(validate_request_role_rules(&r), Ok(()));
    r.target_role = AdminRole::SupportAgent;
    r.justification = "j".repeat(10);
    assert_eq!(validate_request_role_rules(&r), Ok(()));
    r.request_type = AdminRequestType::Update;
    assert_eq!(validate_request_role_rules(&r), Err(AdminRequestError::UpdateNeedsDetail));
    r.justification = "j".repeat(20);
    assert_eq!(validate_request_role_rules(&r), Ok(()));
}

#[test]
fn request_expiry() {
    let mut r = request(AdminRequestType::Add, AdminRole::SupportAgent, "Covers the night shift");
    assert_eq!(validate_request_expiry(&r, NOW), Ok(()));
    r.expires_at = Some(NOW);
    assert_eq!(validate_request_expiry(&r, NOW), Err(AdminRequestError::ExpiryNotFuture));
    r.expires_at = Some(NOW + 30 * DAY_MILLIS);
    assert_eq!(validate_request_expiry(&r, NOW), Ok(()));
    assert_eq!(assert_admin_request_operations(&r, NOW), Ok(()));
    r.expires_at = Some(NOW + 30 * DAY_MILLIS + 1);
    assert_eq!(validate_request_expiry(&r, NOW), Err(AdminRequestError::ExpiryTooFar));
    assert_eq!(assert_admin_request_operations(&r, NOW), Err(AdminRequestError::ExpiryTooFar));
    assert_eq!(validate_request_expiry(&r, u64::MAX - 5), Err(AdminRequestError::ExpiryNotFuture));
    r.status = AdminRequestStatus::Rejected;
    r.expires_at = Some(r.created_at);
    assert_eq!(validate_request_expiry(&r, NOW), Err(AdminRequestError::ExpiryBeforeCreation));
    r.expires_at = Some(r.created_at + 1);
    assert_eq!(validate_request_expiry(&r, NOW), Ok(()));
}

#[test]
fn request_deletion_and_messages() {
    let mut r = request(AdminRequestType::Add, AdminRole::SupportAgent, "Covers the night shift");
    assert_eq!(assert_admin_request_deletion(None), Err(AdminRequestError::NoCurrentDocument));
    assert_eq!(assert_admin_request_deletion(Some(&r)), Ok(()));
    r.status = AdminRequestStatus::Approved;
    assert_eq!(assert_admin_request_deletion(Some(&r)), Err(AdminRequestError::ApprovedDeletion));
    assert_eq!(
        AdminRequestError::ApprovedDeletion.message(),
        "Cannot delete approved admin requests (audit trail requirement)"
    );
    assert_eq!(
        AdminRequestError::ExpiryTooFar.message(),
        "Request expiry date cannot exceed 30 days from now"
    );
}
