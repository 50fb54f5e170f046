//! Administrators: roles, permissions and the rules on their records.

use vstd::prelude::*;
use crate::text::{
    char_is_alphanumeric, chars_of, contains_char, count_char, find_char, is_alphanumeric,
    is_first_occurrence, is_text, lemma_absent_occurs_never, occurrences, utf8_len,
};
use crate::waqf_types::{view_of, views_of};

verus! {

/// The roles that an administrator can hold.
#[derive(Clone, Copy, Debug, PartialEq, Eq, Structural)]
pub enum AdminRole {
    SupportAgent,
    ContentModerator,
    WaqfManager,
    FinanceOfficer,
    ComplianceOfficer,
    PlatformAdmin,
}

impl AdminRole {
    /// The stored text of a role.
    pub open spec fn text(self) -> Seq<char> {
        match self {
            AdminRole::SupportAgent => "support_agent"@,
            AdminRole::ContentModerator => "content_moderator"@,
            AdminRole::WaqfManager => "waqf_manager"@,
            AdminRole::FinanceOfficer => "finance_officer"@,
            AdminRole::ComplianceOfficer => "compliance_officer"@,
            AdminRole::PlatformAdmin => "platform_admin"@,
        }
    }

    /// The stored text of a role.
    pub fn as_str(self) -> (s: &'static str)
        ensures
            s@ == self.text(),
    {
        match self {
            AdminRole::SupportAgent => "support_agent",
            AdminRole::ContentModerator => "content_moderator",
            AdminRole::WaqfManager => "waqf_manager",
            AdminRole::FinanceOfficer => "finance_officer",
            AdminRole::ComplianceOfficer => "compliance_officer",
            AdminRole::PlatformAdmin => "platform_admin",
        }
    }

    /// Whether a role may hold a permission.
    pub open spec fn may_hold(self, permission: Seq<char>) -> bool {
        match self {
            AdminRole::SupportAgent => permission == "user_support"@,
            AdminRole::ContentModerator => permission == "content_moderation"@ || permission
                == "user_support"@,
            AdminRole::WaqfManager => permission == "waqf_management"@ || permission
                == "cause_management"@,
            AdminRole::FinanceOfficer => permission == "financial_oversight"@ || permission
                == "audit_compliance"@,
            AdminRole::ComplianceOfficer => permission == "audit_compliance"@ || permission
                == "financial_oversight"@ || permission == "cause_approval"@ || permission
                == "admin_request_creation"@,
            AdminRole::PlatformAdmin => permission == "platform_governance"@ || permission
                == "system_administration"@ || permission == "audit_compliance"@ || permission
                == "financial_oversight"@ || permission == "waqf_management"@ || permission
                == "cause_management"@ || permission == "cause_approval"@ || permission
                == "content_moderation"@ || permission == "user_support"@ || permission
                == "admin_request_creation"@ || permission == "admin_request_approval"@,
        }
    }

    /// Whether a role may hold a permission.
    pub fn allows(self, permission: &String) -> (r: bool)
        ensures
            r == self.may_hold(permission@),
    {
        match self {
            AdminRole::SupportAgent => is_text(permission, "user_support"),
            AdminRole::ContentModerator => is_text(permission, "content_moderation") || is_text(
                permission,
                "user_support",
            ),
            AdminRole::WaqfManager => is_text(permission, "waqf_management") || is_text(
                permission,
                "cause_management",
            ),
            AdminRole::FinanceOfficer => is_text(permission, "financial_oversight") || is_text(
                permission,
                "audit_compliance",
            ),
            AdminRole::ComplianceOfficer => is_text(permission, "audit_compliance") || is_text(
                permission,
                "financial_oversight",
            ) || is_text(permission, "cause_approval") || is_text(
                permission,
                "admin_request_creation",
            ),
            AdminRole::PlatformAdmin => is_text(permission, "platform_governance") || is_text(
                permission,
                "system_administration",
            ) || is_text(permission, "audit_compliance") || is_text(
                permission,
                "financial_oversight",
            ) || is_text(permission, "waqf_management") || is_text(permission, "cause_management")
                || is_text(permission, "cause_approval") || is_text(
                permission,
                "content_moderation",
            ) || is_text(permission, "user_support") || is_text(
                permission,
                "admin_request_creation",
            ) || is_text(permission, "admin_request_approval"),
        }
    }

    /// The greatest number of administrators that may hold a role.
    pub open spec fn limit(self) -> u32 {
        match self {
            AdminRole::PlatformAdmin => 3,
            AdminRole::ComplianceOfficer => 5,
            AdminRole::FinanceOfficer => 10,
            AdminRole::WaqfManager => 20,
            AdminRole::ContentModerator => 50,
            AdminRole::SupportAgent => 100,
        }
    }

    /// The greatest number of administrators that may hold a role.
    pub fn max_count(self) -> (n: u32)
        ensures
            n == self.limit(),
    {
        match self {
            AdminRole::PlatformAdmin => 3,
            AdminRole::ComplianceOfficer => 5,
            AdminRole::FinanceOfficer => 10,
            AdminRole::WaqfManager => 20,
            AdminRole::ContentModerator => 50,
            AdminRole::SupportAgent => 100,
        }
    }

    /// Whether holders of a role must be active from the start: platform
    /// administrators and compliance officers.
    pub open spec fn is_sensitive(self) -> bool {
        self == AdminRole::PlatformAdmin || self == AdminRole::ComplianceOfficer
    }
}

/// An administrator of the platform.
#[derive(Debug, Clone, PartialEq)]
pub struct AdminUser {
    pub email: String,
    pub role: AdminRole,
    pub permissions: Vec<String>,
    pub created_by: String,
    pub active: bool,
    pub user_id: Option<String>,
    pub name: Option<String>,
    pub created_at: Option<u64>,
    pub last_active: Option<u64>,
    pub updated_at: Option<u64>,
    pub updated_by: Option<String>,
    pub deleted: Option<bool>,
    pub deleted_at: Option<u64>,
    pub deleted_by: Option<String>,
}

/// Mathematical model of [`AdminUser`].
pub ghost struct AdminUserView {
    pub email: Seq<char>,
    pub role: AdminRole,
    pub permissions: Seq<Seq<char>>,
    pub created_by: Seq<char>,
    pub active: bool,
    pub user_id: Option<Seq<char>>,
    pub name: Option<Seq<char>>,
    pub created_at: Option<u64>,
    pub last_active: Option<u64>,
    pub updated_at: Option<u64>,
    pub updated_by: Option<Seq<char>>,
    pub deleted: Option<bool>,
    pub deleted_at: Option<u64>,
    pub deleted_by: Option<Seq<char>>,
}

impl View for AdminUser {
    type V = AdminUserView;

    open spec fn view(&self) -> AdminUserView {
        AdminUserView {
            email: self.email@,
            role: self.role,
            permissions: views_of(self.permissions@),
            created_by: self.created_by@,
            active: self.active,
            user_id: view_of(self.user_id),
            name: view_of(self.name),
            created_at: self.created_at,
            last_active: self.last_active,
            updated_at: self.updated_at,
            updated_by: view_of(self.updated_by),
            deleted: self.deleted,
            deleted_at: self.deleted_at,
            deleted_by: view_of(self.deleted_by),
        }
    }
}

/// Why a write to the collection of administrators was rejected.
#[derive(Debug, Clone, PartialEq)]
pub enum AdminError {
    /// The email address is malformed.
    InvalidEmail,
    /// The administrator holds a permission that the role may not hold.
    PermissionNotAllowed { permission: String, role: AdminRole },
    /// A platform administrator lacks a permission that the role requires.
    PermissionRequired(String),
    /// A holder of a sensitive role is not active.
    SensitiveRoleInactive,
    /// There is no stored administrator to delete.
    NoCurrentDocument,
}

/// Mathematical model of [`AdminError`].
pub ghost enum AdminErrorView {
    InvalidEmail,
    PermissionNotAllowed { permission: Seq<char>, role: AdminRole },
    PermissionRequired(Seq<char>),
    SensitiveRoleInactive,
    NoCurrentDocument,
}

impl View for AdminError {
    type V = AdminErrorView;

    open spec fn view(&self) -> AdminErrorView {
        match self {
            AdminError::InvalidEmail => AdminErrorView::InvalidEmail,
            AdminError::PermissionNotAllowed {
                permission,
                role,
            } => AdminErrorView::PermissionNotAllowed { permission: permission@, role: *role },
            AdminError::PermissionRequired(p) => AdminErrorView::PermissionRequired(p@),
            AdminError::SensitiveRoleInactive => AdminErrorView::SensitiveRoleInactive,
            AdminError::NoCurrentDocument => AdminErrorView::NoCurrentDocument,
        }
    }
}

impl AdminErrorView {
    /// The message that describes the error.
    pub open spec fn text(self) -> Seq<char> {
        match self {
            AdminErrorView::InvalidEmail => "Invalid admin email format"@,
            AdminErrorView::PermissionNotAllowed { permission, role } => "Permission '"@
                + permission + "' not allowed for role "@ + role.text(),
            AdminErrorView::PermissionRequired(p) => "Platform admin must have permission: "@ + p,
            AdminErrorView::SensitiveRoleInactive => "Sensitive roles must be active upon creation"@,
            AdminErrorView::NoCurrentDocument => "No current document found for deletion"@,
        }
    }
}

impl AdminError {
    /// Describes the error in words, with the values that caused it.
    pub fn message(&self) -> (s: String)
        ensures
            s@ == self@.text(),
    {
        match self {
            AdminError::InvalidEmail => String::from_str("Invalid admin email format"),
            AdminError::PermissionNotAllowed { permission, role } => {
                let mut s = String::from_str("Permission '");
                s.append(permission.as_str());
                s.append("' not allowed for role ");
                s.append(role.as_str());
                s
            },
            AdminError::PermissionRequired(p) => {
                let mut s = String::from_str("Platform admin must have permission: ");
                s.append(p.as_str());
                s
            },
            AdminError::SensitiveRoleInactive => String::from_str(
                "Sensitive roles must be active upon creation",
            ),
            AdminError::NoCurrentDocument => String::from_str(
                "No current document found for deletion",
            ),
        }
    }
}

/// Whether the outcome of a check is the one its rules prescribe: success
/// where no rule is violated, else the error of the first violated rule.
pub open spec fn admin_verdict_is(r: Result<(), AdminError>, verdict: Option<AdminErrorView>) -> bool {
    match verdict {
        None => r is Ok,
        Some(e) => r is Err && r->Err_0@ == e,
    }
}

/// Whether a character may occur before the `@` of an email address.
pub open spec fn local_character(c: char) -> bool {
    char_is_alphanumeric(c) || ".!#$%&'*+/=?^_`{|}~-"@.contains(c)
}

/// Whether a character may occur after the `@` of an email address.
pub open spec fn domain_character(c: char) -> bool {
    char_is_alphanumeric(c) || c == '.' || c == '-'
}

/// The position of the first `@` of a text.
pub open spec fn at_position(email: Seq<char>) -> int {
    choose|i: int| is_first_occurrence(email, '@', i)
}

/// Whether a text is an email address: 5 to 254 bytes with exactly one `@`,
/// before it 1 to 64 bytes of characters allowed there, after it 1 to 255
/// bytes of letters, digits, dots and hyphens with at least one dot.
pub open spec fn valid_admin_email(email: Seq<char>) -> bool {
    let local = email.take(at_position(email));
    let domain = email.skip(at_position(email) + 1);
    &&& 5 <= utf8_len(email) <= 254
    &&& occurrences(email, '@') == 1
    &&& local.len() > 0 && utf8_len(local) <= 64
    &&& domain.len() > 0 && utf8_len(domain) <= 255
    &&& domain.contains('.')
    &&& forall|i: int| 0 <= i < local.len() ==> local_character(#[trigger] local[i])
    &&& forall|i: int| 0 <= i < domain.len() ==> domain_character(#[trigger] domain[i])
}

fn all_local_characters(part: &str) -> (r: bool)
    ensures
        r == (forall|i: int| 0 <= i < part@.len() ==> local_character(#[trigger] part@[i])),
{
    let chars = chars_of(part);
    let mut i: usize = 0;
    while i < chars.len()
        invariant
            i <= chars@.len(),
            chars@ == part@,
            forall|j: int| 0 <= j < i ==> local_character(#[trigger] part@[j]),
        decreases chars@.len() - i,
    {
        if !is_alphanumeric(chars[i]) && !contains_char(".!#$%&'*+/=?^_`{|}~-", chars[i]) {
            return false;
        }
        i = i + 1;
    }
    true
}

fn all_domain_characters(part: &str) -> (r: bool)
    ensures
        r == (forall|i: int| 0 <= i < part@.len() ==> domain_character(#[trigger] part@[i])),
{
    let chars = chars_of(part);
    let mut i: usize = 0;
    while i < chars.len()
        invariant
            i <= chars@.len(),
            chars@ == part@,
            forall|j: int| 0 <= j < i ==> domain_character(#[trigger] part@[j]),
        decreases chars@.len() - i,
    {
        if !is_alphanumeric(chars[i]) && chars[i] != '.' && chars[i] != '-' {
            return false;
        }
        i = i + 1;
    }
    true
}

/// Whether a text is an email address.
pub fn is_valid_email(email: &str) -> (r: bool)
    ensures
        r == valid_admin_email(email@),
{
    if email.len() < 5 || email.len() > 254 {
        return false;
    }
    if count_char(email, '@') != 1 {
        return false;
    }
    let at = match find_char(email, '@') {
        Some(i) => i,
        None => {
            proof {
                lemma_absent_occurs_never(email@, '@');
            }
            return false;
        },
    };
    proof {
        let chosen = at_position(email@);
        assert(is_first_occurrence(email@, '@', at as int));
        assert(is_first_occurrence(email@, '@', chosen));
        if chosen < at {
            assert(email@[chosen] != '@');
        }
        if at < chosen {
            assert(email@[at as int] != '@');
        }
    }
    let n = email.unicode_len();
    let local = email.substring_char(0, at);
    let domain = email.substring_char(at + 1, n);
    assert(local@ =~= email@.take(at as int));
    assert(domain@ =~= email@.skip(at + 1));
    if local.is_empty() || local.len() > 64 {
        return false;
    }
    if domain.is_empty() || domain.len() > 255 {
        return false;
    }
    if !contains_char(domain, '.') {
        return false;
    }
    all_local_characters(local) && all_domain_characters(domain)
}

/// The first permission of a list that a role may not hold, if any.
pub open spec fn first_forbidden(role: AdminRole, permissions: Seq<Seq<char>>) -> Option<Seq<char>>
    decreases permissions.len(),
{
    if permissions.len() == 0 {
        None
    } else if !role.may_hold(permissions[0]) {
        Some(permissions[0])
    } else {
        first_forbidden(role, permissions.drop_first())
    }
}

/// The first rule that an administrator record violates, if any: the email
/// address is well formed, every permission is one that the role may hold,
/// and a platform administrator holds the permissions to govern the
/// platform and to approve requests.
pub open spec fn admin_data_error(a: AdminUserView) -> Option<AdminErrorView> {
    if !valid_admin_email(a.email) {
        Some(AdminErrorView::InvalidEmail)
    } else if first_forbidden(a.role, a.permissions) is Some {
        Some(
            AdminErrorView::PermissionNotAllowed {
                permission: first_forbidden(a.role, a.permissions)->0,
                role: a.role,
            },
        )
    } else if a.role == AdminRole::PlatformAdmin && !a.permissions.contains(
        "platform_governance"@,
    ) {
        Some(AdminErrorView::PermissionRequired("platform_governance"@))
    } else if a.role == AdminRole::PlatformAdmin && !a.permissions.contains(
        "admin_request_approval"@,
    ) {
        Some(AdminErrorView::PermissionRequired("admin_request_approval"@))
    } else {
        None
    }
}

fn find_forbidden(role: AdminRole, permissions: &Vec<String>) -> (r: Option<String>)
    ensures
        view_of(r) == first_forbidden(role, views_of(permissions@)),
{
    let ghost all = views_of(permissions@);
    let mut i: usize = 0;
    assert(all.subrange(0, all.len() as int) =~= all);
    while i < permissions.len()
        invariant
            i <= permissions@.len(),
            all == views_of(permissions@),
            first_forbidden(role, all) == first_forbidden(
                role,
                all.subrange(i as int, all.len() as int),
            ),
        decreases permissions@.len() - i,
    {
        let ghost rest = all.subrange(i as int, all.len() as int);
        assert(rest[0] == permissions@[i as int]@);
        assert(rest.drop_first() =~= all.subrange(i as int + 1, all.len() as int));
        if !role.allows(&permissions[i]) {
            return Some(permissions[i].clone());
        }
        i = i + 1;
    }
    None
}

fn holds_permission(permissions: &Vec<String>, wanted: &str) -> (r: bool)
    ensures
        r == views_of(permissions@).contains(wanted@),
{
    let mut i: usize = 0;
    while i < permissions.len()
        invariant
            i <= permissions@.len(),
            forall|j: int| 0 <= j < i ==> views_of(permissions@)[j] != wanted@,
        decreases permissions@.len() - i,
    {
        if is_text(&permissions[i], wanted) {
            assert(views_of(permissions@)[i as int] == wanted@);
            return true;
        }
        i = i + 1;
    }
    false
}

/// Validates an administrator record.
pub fn validate_admin_data(admin: &AdminUser) -> (r: Result<(), AdminError>)
    ensures
        admin_verdict_is(r, admin_data_error(admin@)),
{
    if !is_valid_email(admin.email.as_str()) {
        return Err(AdminError::InvalidEmail);
    }
    match find_forbidden(admin.role, &admin.permissions) {
        Some(permission) => {
            return Err(AdminError::PermissionNotAllowed { permission, role: admin.role });
        },
        None => {},
    }
    match admin.role {
        AdminRole::PlatformAdmin => {
            if !holds_permission(&admin.permissions, "platform_governance") {
                return Err(
                    AdminError::PermissionRequired(String::from_str("platform_governance")),
                );
            }
            if !holds_permission(&admin.permissions, "admin_request_approval") {
                return Err(
                    AdminError::PermissionRequired(String::from_str("admin_request_approval")),
                );
            }
        },
        _ => {},
    }
    Ok(())
}

/// The business rule that an administrator record violates, if any: the
/// holder of a sensitive role is active.
pub open spec fn admin_business_error(a: AdminUserView) -> Option<AdminErrorView> {
    if a.role.is_sensitive() && !a.active {
        Some(AdminErrorView::SensitiveRoleInactive)
    } else {
        None
    }
}

/// Checks that the holder of a sensitive role is active.
pub fn validate_sensitive_role_requirements(admin: &AdminUser) -> (r: Result<(), AdminError>)
    ensures
        admin_verdict_is(
            r,
            if !admin@.active {
                Some(AdminErrorView::SensitiveRoleInactive)
            } else {
                None
            },
        ),
{
    if !admin.active {
        return Err(AdminError::SensitiveRoleInactive);
    }
    Ok(())
}

/// Checks the business rules on an administrator record.
pub fn validate_admin_business_rules(admin: &AdminUser) -> (r: Result<(), AdminError>)
    ensures
        admin_verdict_is(r, admin_business_error(admin@)),
{
    match admin.role {
        AdminRole::PlatformAdmin | AdminRole::ComplianceOfficer => {
            validate_sensitive_role_requirements(admin)
        },
        _ => Ok(()),
    }
}

/// The first rule that a proposed administrator record violates, if any:
/// the rules on the record, then the business rules.
pub open spec fn admin_assertion_error(a: AdminUserView) -> Option<AdminErrorView> {
    if admin_data_error(a) is Some {
        admin_data_error(a)
    } else {
        admin_business_error(a)
    }
}

/// Checks a proposed write to the collection of administrators.
pub fn assert_admin_operations(admin: &AdminUser) -> (r: Result<(), AdminError>)
    ensures
        admin_verdict_is(r, admin_assertion_error(admin@)),
{
    validate_admin_data(admin)?;
    validate_admin_business_rules(admin)
}

/// Checks the deletion of an administrator: there must be one to delete.
pub fn assert_admin_deletion(current: Option<&AdminUser>) -> (r: Result<(), AdminError>)
    ensures
        admin_verdict_is(
            r,
            if current is None {
                Some(AdminErrorView::NoCurrentDocument)
            } else {
                None
            },
        ),
{
    match current {
        Some(_) => Ok(()),
        None => Err(AdminError::NoCurrentDocument),
    }
}

} // verus!
