use waqf_satellite::waqf_types::{
    CauseEntry, DeedDocument, DonorProfile, FinancialMetrics, InvestmentStrategy,
    NotificationPreferences, ReportingPreferences, WaqfData, WaqfType,
};
use waqf_satellite::waqf_utils::{
    is_confined_to_financial, is_transition_allowed, is_valid_email, is_valid_text_character,
    join_messages, leaves_all_but_figures, validate_waqf_data, validate_waqf_data_detailed,
    validate_waqf_status_transition, validate_waqf_update_permissions, WaqfValidationError,
    WaqfValidationResult,
};

const UNIT: i64 = 1_000_000;

fn waqf() -> WaqfData {
    WaqfData {
        id: "waqf-1".to_string(),
        name: "Water wells".to_string(),
        description: "Wells for three villages".to_string(),
        waqf_asset: 500 * UNIT,
        donor: DonorProfile {
            name: "Amina Yusuf".to_string(),
            email: "amina@example.org".to_string(),
            phone: "+2348012345678".to_string(),
            address: "12 Market Road, Kano".to_string(),
        },
        selected_causes: vec!["water".to_string()],
        cause_allocation: vec![],
        status: "active".to_string(),
        is_donated: Some(true),
        notifications: NotificationPreferences {
            contribution_reminders: true,
            impact_reports: true,
            financial_updates: false,
        },
        reporting_preferences: ReportingPreferences {
            frequency: "yearly".to_string(),
            report_types: vec!["impact".to_string(), "financial".to_string()],
            delivery_method: "both".to_string(),
        },
        financial: FinancialMetrics {
            total_donations: 500 * UNIT,
            total_distributed: 100 * UNIT,
            current_balance: 450 * UNIT,
            investment_returns: vec![50 * UNIT],
            total_investment_return: 50 * UNIT,
            growth_rate: 0,
            cause_allocations: vec![],
        },
        waqf_type: WaqfType::Permanent,
        is_hybrid: false,
        hybrid_allocations: None,
        consumable_details: None,
        revolving_details: None,
        investment_strategy: None,
        deed_document: None,
        created_by: "creator".to_string(),
        created_at: "2024-01-01T00:00:00Z".to_string(),
        updated_at: Some("2024-02-01T00:00:00Z".to_string()),
        last_contribution_date: None,
        next_contribution_date: None,
        next_report_date: None,
    }
}

fn errors_of(w: &WaqfData) -> Vec<WaqfValidationError> {
    validate_waqf_data_detailed(w, None).errors
}

#[test]
fn valid_record_has_no_errors_or_warnings() {
    let report = validate_waqf_data_detailed(&waqf(), None);
    assert!(report.is_valid);
    assert!(report.errors.is_empty());
    assert!(report.warnings.is_empty());
    assert_eq!(validate_waqf_data(&waqf()), Ok(()));
}

#[test]
fn result_collects_errors_and_warnings() {
    let mut r = WaqfValidationResult::new();
    assert!(r.is_valid && r.errors.is_empty() && r.warnings.is_empty());
    r.add_warning("careful".to_string());
    assert!(r.is_valid);
    r.add_error(WaqfValidationError::IdEmpty);
    r.add_error(WaqfValidationError::NameEmpty);
    assert!(!r.is_valid);
    assert_eq!(r.errors, vec![WaqfValidationError::IdEmpty, WaqfValidationError::NameEmpty]);
    assert_eq!(r.warnings, vec!["careful".to_string()]);
}

#[test]
fn identifier_name_and_description_rules() {
    let mut w = waqf();
    w.id = " \t".to_string();
    assert_eq!(errors_of(&w), vec![WaqfValidationError::IdEmpty]);

    let mut w = waqf();
    w.name = "   ".to_string();
    assert_eq!(errors_of(&w), vec![WaqfValidationError::NameEmpty]);
    w.name = "  W ".to_string();
    assert_eq!(errors_of(&w), vec![WaqfValidationError::NameTooShort { min_length: 2, actual: 1 }]);
    w.name = "W".repeat(101);
    assert_eq!(
        errors_of(&w),
        vec![WaqfValidationError::NameTooLong { max_length: 100, actual: 101 }]
    );
    w.name = "W".repeat(100);
    assert!(errors_of(&w).is_empty());
    w.name = "Wells\u{0}for\u{7}all".to_string();
    assert_eq!(
        errors_of(&w),
        vec![WaqfValidationError::NameContainsInvalidCharacters("\u{0}\u{7}".to_string())]
    );
    w.name = "\u{1}".to_string();
    assert_eq!(
        errors_of(&w),
        vec![
            WaqfValidationError::NameTooShort { min_length: 2, actual: 1 },
            WaqfValidationError::NameContainsInvalidCharacters("\u{1}".to_string())
        ]
    );
    w.name = "\u{e9}".to_string();
    assert!(errors_of(&w).is_empty());

    let mut w = waqf();
    w.description = "\n".to_string();
    assert_eq!(errors_of(&w), vec![WaqfValidationError::DescriptionEmpty]);
    w.description = " too short ".to_string();
    assert_eq!(
        errors_of(&w),
        vec![WaqfValidationError::DescriptionTooShort { min_length: 10, actual: 9 }]
    );
    w.description = "d".repeat(2001);
    assert_eq!(
        errors_of(&w),
        vec![WaqfValidationError::DescriptionTooLong { max_length: 2000, actual: 2001 }]
    );
}

#[test]
fn principal_rules_and_precision_warning() {
    let mut w = waqf();
    w.waqf_asset = 100 * UNIT - 1;
    let report = validate_waqf_data_detailed(&w, None);
    assert_eq!(
        report.errors,
        vec![WaqfValidationError::InitialCapitalTooLow {
            min_amount: 100 * UNIT,
            actual: 100 * UNIT - 1
        }]
    );
    assert_eq!(
        report.warnings,
        vec!["Initial capital has more than 2 decimal places - will be rounded".to_string()]
    );
    w.waqf_asset = 1_000_000_000 * UNIT + 10_000;
    assert_eq!(
        errors_of(&w),
        vec![WaqfValidationError::InitialCapitalTooHigh {
            max_amount: 1_000_000_000 * UNIT,
            actual: 1_000_000_000 * UNIT + 10_000
        }]
    );
    w.waqf_asset = 1_000_000_000 * UNIT;
    assert!(validate_waqf_data_detailed(&w, None).is_valid);
    w.waqf_asset = 100 * UNIT + 10_000;
    assert!(validate_waqf_data_detailed(&w, None).warnings.is_empty());
    w.waqf_asset = -25 * UNIT - 1;
    w.status = "paused".to_string();
    assert_eq!(
        validate_waqf_data_detailed(&w, None).warnings,
        vec!["Initial capital has more than 2 decimal places - will be rounded".to_string()]
    );
}

#[test]
fn donor_rules() {
    let mut w = waqf();
    w.donor = DonorProfile {
        name: " ".to_string(),
        email: String::new(),
        phone: "\t".to_string(),
        address: String::new(),
    };
    assert_eq!(
        errors_of(&w),
        vec![
            WaqfValidationError::DonorNameEmpty,
            WaqfValidationError::DonorEmailEmpty,
            WaqfValidationError::DonorPhoneEmpty,
            WaqfValidationError::DonorAddressEmpty
        ]
    );
    w.donor = DonorProfile {
        name: "A".to_string(),
        email: "a@b.c".to_string(),
        phone: " 123456789 ".to_string(),
        address: "too short".to_string(),
    };
    assert_eq!(
        errors_of(&w),
        vec![
            WaqfValidationError::DonorNameTooShort { min_length: 2, actual: 1 },
            WaqfValidationError::DonorEmailInvalidFormat("a@b.c".to_string()),
            WaqfValidationError::DonorPhoneInvalidLength { min: 10, max: 20, actual: 9 },
            WaqfValidationError::DonorAddressTooShort { min_length: 10, actual: 9 }
        ]
    );
    w.donor = DonorProfile {
        name: "Al".to_string(),
        email: "amina.example.org".to_string(),
        phone: "1".repeat(21),
        address: "a".repeat(201),
    };
    assert_eq!(
        errors_of(&w),
        vec![
            WaqfValidationError::DonorEmailInvalidFormat("amina.example.org".to_string()),
            WaqfValidationError::DonorPhoneInvalidLength { min: 10, max: 20, actual: 21 },
            WaqfValidationError::DonorAddressTooLong { max_length: 200, actual: 201 }
        ]
    );
}

#[test]
fn email_shape() {
    assert!(is_valid_email("ab@c.de"));
    assert!(is_valid_email("a@b.cd"));
    assert!(!is_valid_email("a@b.c"));
    assert!(!is_valid_email("abcdef.gh"));
    assert!(!is_valid_email("abcdef@gh"));
    assert!(!is_valid_email(""));
}

#[test]
fn text_characters() {
    for c in ['a', 'Z', '7', ' ', '\n', '.', '\\', '"', '\'', '`', '\u{b0}', '\u{a7}', '\u{e9}'] {
        assert!(is_valid_text_character(c), "{:?}", c);
    }
    for c in ['\u{0}', '\u{7f}', '\u{20ac}', '\u{1f600}'] {
        assert!(!is_valid_text_character(c), "{:?}", c);
    }
}

#[test]
fn causes_status_and_reporting_rules() {
    let mut w = waqf();
    w.selected_causes = vec![];
    assert_eq!(errors_of(&w), vec![WaqfValidationError::NoCausesSelected]);
    w.selected_causes = vec!["water".to_string(), " ".to_string(), String::new()];
    assert_eq!(
        errors_of(&w),
        vec![
            WaqfValidationError::InvalidCauseId(" ".to_string()),
            WaqfValidationError::InvalidCauseId(String::new())
        ]
    );

    let mut w = waqf();
    w.status = "terminated".to_string();
    assert_eq!(
        errors_of(&w),
        vec![WaqfValidationError::InvalidStatus { status: "terminated".to_string() }]
    );
    for status in ["active", "paused", "completed", "inactive", "archived"] {
        w.status = status.to_string();
        assert!(errors_of(&w).is_empty());
    }

    let mut w = waqf();
    w.reporting_preferences = ReportingPreferences {
        frequency: "monthly".to_string(),
        report_types: vec!["impact".to_string(), "audit".to_string(), "tax".to_string()],
        delivery_method: "post".to_string(),
    };
    assert_eq!(
        errors_of(&w),
        vec![
            WaqfValidationError::InvalidReportingFrequency { frequency: "monthly".to_string() },
            WaqfValidationError::InvalidReportType { report_type: "audit".to_string() },
            WaqfValidationError::InvalidReportType { report_type: "tax".to_string() },
            WaqfValidationError::InvalidDeliveryMethod { method: "post".to_string() }
        ]
    );
}

#[test]
fn financial_rules() {
    let mut w = waqf();
    w.financial.current_balance = 450 * UNIT + 10_000;
    assert!(errors_of(&w).is_empty());
    w.financial.current_balance = 450 * UNIT - 10_000;
    assert!(errors_of(&w).is_empty());
    w.financial.current_balance = 450 * UNIT + 10_001;
    assert_eq!(
        errors_of(&w),
        vec![WaqfValidationError::InconsistentFinancialData(
            "Current balance doesn't match calculated balance".to_string()
        )]
    );
    w.financial.total_donations = -UNIT;
    w.financial.total_distributed = -2 * UNIT;
    w.financial.current_balance = -3 * UNIT;
    w.financial.total_investment_return = 0;
    assert_eq!(
        errors_of(&w),
        vec![
            WaqfValidationError::NegativeFinancialValue {
                field: "total_donations".to_string(),
                value: -UNIT
            },
            WaqfValidationError::NegativeFinancialValue {
                field: "total_distributed".to_string(),
                value: -2 * UNIT
            },
            WaqfValidationError::NegativeFinancialValue {
                field: "current_balance".to_string(),
                value: -3 * UNIT
            },
            WaqfValidationError::InconsistentFinancialData(
                "Current balance doesn't match calculated balance".to_string()
            )
        ]
    );
}

#[test]
fn timestamp_and_creator_rules() {
    let mut w = waqf();
    w.created_at = " ".to_string();
    w.updated_at = Some(String::new());
    w.created_by = String::new();
    assert_eq!(
        errors_of(&w),
        vec![
            WaqfValidationError::CreatedAtEmpty,
            WaqfValidationError::InvalidTimestampFormat("Updated timestamp is empty".to_string()),
            WaqfValidationError::CreatedByEmpty
        ]
    );
}

#[test]
fn transition_graph() {
    let statuses = ["active", "paused", "completed", "inactive", "archived"];
    let edges = [
        ("active", "paused"),
        ("active", "completed"),
        ("active", "inactive"),
        ("active", "archived"),
        ("paused", "active"),
        ("paused", "inactive"),
        ("paused", "archived"),
        ("inactive", "active"),
        ("inactive", "archived"),
        ("completed", "archived"),
    ];
    for from in statuses {
        for to in statuses {
            let expected = from == to || edges.contains(&(from, to));
            assert_eq!(is_transition_allowed(from, to), expected, "{} -> {}", from, to);
        }
    }
    assert!(!is_transition_allowed("completed", "active"));
    assert!(is_transition_allowed("paused", "active"));
    assert!(is_transition_allowed("matured", "matured"));
    assert!(!is_transition_allowed("matured", "active"));
    assert!(!is_transition_allowed("active", "terminated"));
}

#[test]
fn archived_and_completed_waqfs() {
    let mut archived = waqf();
    archived.status = "archived".to_string();
    let same = archived.clone();
    assert_eq!(
        validate_waqf_data_detailed(&same, Some(&archived)).errors,
        vec![WaqfValidationError::ArchivedWaqfModification]
    );
    let mut revived = archived.clone();
    revived.status = "active".to_string();
    assert_eq!(
        validate_waqf_data_detailed(&revived, Some(&archived)).errors,
        vec![
            WaqfValidationError::InvalidStatusTransition {
                from: "archived".to_string(),
                to: "active".to_string()
            },
            WaqfValidationError::ArchivedWaqfModification
        ]
    );

    let mut completed = waqf();
    completed.status = "completed".to_string();
    let mut posted = completed.clone();
    posted.financial.total_investment_return += 10 * UNIT;
    posted.financial.current_balance += 10 * UNIT;
    assert!(validate_waqf_data_detailed(&posted, Some(&completed)).is_valid);
    let mut renamed = completed.clone();
    renamed.name = "Other name".to_string();
    assert_eq!(
        validate_waqf_data_detailed(&renamed, Some(&completed)).errors,
        vec![WaqfValidationError::CompletedWaqfModification]
    );
    renamed.status = "archived".to_string();
    assert_eq!(
        validate_waqf_data_detailed(&renamed, Some(&completed)).errors,
        vec![WaqfValidationError::CompletedWaqfModification]
    );
    let mut shelved = completed.clone();
    shelved.status = "archived".to_string();
    assert!(validate_waqf_data_detailed(&shelved, Some(&completed)).is_valid);
    shelved.financial.total_investment_return += UNIT;
    shelved.financial.current_balance += UNIT;
    assert!(validate_waqf_data_detailed(&shelved, Some(&completed)).is_valid);
}

fn completed_waqf() -> WaqfData {
    let mut w = waqf();
    w.status = "completed".to_string();
    w.cause_allocation = vec![entry("water", 60 * UNIT), entry("schools", 40 * UNIT)];
    w.financial.cause_allocations = vec![entry("water", 300 * UNIT), entry("schools", 200 * UNIT)];
    w
}

fn entry(cause: &str, value: i64) -> CauseEntry {
    CauseEntry { cause_id: cause.to_string(), value }
}

fn refused_on_completed(new: &WaqfData) {
    let current = completed_waqf();
    let report = validate_waqf_data_detailed(new, Some(&current));
    assert!(!report.is_valid);
    assert_eq!(report.errors, vec![WaqfValidationError::CompletedWaqfModification]);
    assert!(!leaves_all_but_figures(&current, new));
    assert!(!is_confined_to_financial(&current, new));
    let mut sink = WaqfValidationResult::new();
    validate_waqf_update_permissions(&current, new, &mut sink);
    assert_eq!(sink.errors, vec![WaqfValidationError::CompletedWaqfModification]);
}

#[test]
fn completed_waqf_refuses_change_of_notifications() {
    let mut new = completed_waqf();
    new.notifications.financial_updates = true;
    refused_on_completed(&new);
}

#[test]
fn completed_waqf_refuses_change_of_reporting_preferences() {
    let mut new = completed_waqf();
    new.reporting_preferences.frequency = "quarterly".to_string();
    refused_on_completed(&new);
    let mut new = completed_waqf();
    new.reporting_preferences.report_types = vec!["impact".to_string()];
    refused_on_completed(&new);
}

#[test]
fn completed_waqf_refuses_change_of_stamps_and_flags() {
    let mut new = completed_waqf();
    new.updated_at = Some("2024-03-01T00:00:00Z".to_string());
    refused_on_completed(&new);
    let mut new = completed_waqf();
    new.last_contribution_date = Some("2024-03-01T00:00:00Z".to_string());
    refused_on_completed(&new);
    let mut new = completed_waqf();
    new.next_report_date = Some("2025-01-01T00:00:00Z".to_string());
    refused_on_completed(&new);
    let mut new = completed_waqf();
    new.is_donated = None;
    refused_on_completed(&new);
    let mut new = completed_waqf();
    new.is_hybrid = true;
    refused_on_completed(&new);
}

#[test]
fn completed_waqf_refuses_change_of_donor_and_causes() {
    let mut new = completed_waqf();
    new.donor.phone = "+2348000000000".to_string();
    refused_on_completed(&new);
    let mut new = completed_waqf();
    new.selected_causes.push("schools".to_string());
    refused_on_completed(&new);
    let mut new = completed_waqf();
    new.cause_allocation = vec![entry("water", 50 * UNIT), entry("schools", 50 * UNIT)];
    refused_on_completed(&new);
    let mut new = completed_waqf();
    new.cause_allocation = vec![entry("water", 60 * UNIT)];
    refused_on_completed(&new);
}

#[test]
fn completed_waqf_refuses_change_of_kind_details() {
    let mut new = completed_waqf();
    new.investment_strategy = Some(InvestmentStrategy {
        asset_allocation: "balanced".to_string(),
        expected_annual_return: 5 * UNIT,
        distribution_frequency: "yearly".to_string(),
    });
    refused_on_completed(&new);
    let mut new = completed_waqf();
    new.deed_document = Some(DeedDocument {
        signed_at: "2024-01-01T00:00:00Z".to_string(),
        donor_signature: "Amina Yusuf".to_string(),
        document_version: "1".to_string(),
    });
    refused_on_completed(&new);
    let mut new = completed_waqf();
    new.hybrid_allocations = Some(vec![]);
    refused_on_completed(&new);
}

#[test]
fn completed_waqf_takes_postings_to_its_figures() {
    let current = completed_waqf();
    let mut new = completed_waqf();
    new.financial.total_investment_return += 10 * UNIT;
    new.financial.current_balance += 10 * UNIT;
    new.financial.investment_returns.push(10 * UNIT);
    new.financial.cause_allocations = vec![entry("water", 306 * UNIT), entry("schools", 204 * UNIT)];
    assert!(leaves_all_but_figures(&current, &new));
    assert!(is_confined_to_financial(&current, &new));
    let report = validate_waqf_data_detailed(&new, Some(&current));
    assert!(report.is_valid);
    assert!(report.errors.is_empty());
    new.status = "archived".to_string();
    assert!(is_confined_to_financial(&current, &new));
    assert!(validate_waqf_data_detailed(&new, Some(&current)).is_valid);
}

#[test]
fn completed_waqf_may_not_return_to_other_states() {
    let current = completed_waqf();
    for status in ["active", "paused", "inactive"] {
        let mut new = completed_waqf();
        new.status = status.to_string();
        assert!(leaves_all_but_figures(&current, &new));
        assert!(!is_confined_to_financial(&current, &new));
        assert_eq!(
            validate_waqf_data_detailed(&new, Some(&current)).errors,
            vec![
                WaqfValidationError::InvalidStatusTransition {
                    from: "completed".to_string(),
                    to: status.to_string()
                },
                WaqfValidationError::CompletedWaqfModification
            ]
        );
    }
}

#[test]
fn layout_of_a_table_is_no_change() {
    let current = completed_waqf();
    let mut new = completed_waqf();
    new.cause_allocation.reverse();
    new.financial.cause_allocations.reverse();
    assert!(leaves_all_but_figures(&current, &new));
    assert!(validate_waqf_data_detailed(&new, Some(&current)).is_valid);
}

#[test]
fn active_waqf_is_not_bound_by_the_completed_rule() {
    let mut current = completed_waqf();
    current.status = "active".to_string();
    let mut new = current.clone();
    new.notifications.financial_updates = true;
    new.name = "Other name".to_string();
    assert!(!leaves_all_but_figures(&current, &new));
    assert!(validate_waqf_data_detailed(&new, Some(&current)).is_valid);
    let mut sink = WaqfValidationResult::new();
    validate_waqf_update_permissions(&current, &new, &mut sink);
    assert!(sink.errors.is_empty());
    assert!(sink.is_valid);
}

#[test]
fn status_transition_is_checked_on_its_own() {
    let mut sink = WaqfValidationResult::new();
    validate_waqf_status_transition("completed", "active", &mut sink);
    assert_eq!(
        sink.errors,
        vec![WaqfValidationError::InvalidStatusTransition {
            from: "completed".to_string(),
            to: "active".to_string()
        }]
    );
    assert!(!sink.is_valid);
    let graph = [
        ("active", vec!["paused", "completed", "inactive", "archived"]),
        ("paused", vec!["active", "inactive", "archived"]),
        ("inactive", vec!["active", "archived"]),
        ("completed", vec!["archived"]),
        ("archived", vec![]),
    ];
    let states = ["active", "paused", "completed", "inactive", "archived"];
    for (from, targets) in graph.iter() {
        for to in states.iter() {
            let mut sink = WaqfValidationResult::new();
            validate_waqf_status_transition(from, to, &mut sink);
            let allowed = from == to || targets.contains(to);
            assert_eq!(sink.is_valid, allowed, "{} -> {}", from, to);
            assert_eq!(sink.errors.is_empty(), allowed);
            assert_eq!(is_transition_allowed(from, to), allowed);
        }
    }
}

#[test]
fn business_warnings() {
    let mut current = waqf();
    current.waqf_asset = 999_999;
    let report = validate_waqf_data_detailed(&current, None);
    assert_eq!(
        report.warnings,
        vec![
            "Initial capital has more than 2 decimal places - will be rounded".to_string(),
            "Active waqf with very low initial capital".to_string()
        ]
    );
    let stored = waqf();
    let mut proposed = waqf();
    proposed.name = "Other name".to_string();
    proposed.waqf_asset = 600 * UNIT;
    proposed.status = "paused".to_string();
    assert_eq!(
        validate_waqf_data_detailed(&proposed, Some(&stored)).warnings,
        vec![
            "Changing name of active waqf requires additional approval".to_string(),
            "Changing initial capital of active waqf requires financial audit".to_string()
        ]
    );
    let mut paused = waqf();
    paused.status = "paused".to_string();
    assert!(validate_waqf_data_detailed(&proposed, Some(&paused)).warnings.is_empty());
}

#[test]
fn violated_rules_are_joined_in_one_message() {
    let mut w = waqf();
    w.id = String::new();
    w.name = "W".to_string();
    w.waqf_asset = 50 * UNIT + 500_000;
    w.status = "done".to_string();
    assert_eq!(
        validate_waqf_data(&w),
        Err("Waqf ID cannot be empty; Name too short: minimum 2 characters, got 1; \
             Initial capital too low: minimum 100.00, got 50.50; \
             Invalid status 'done'. Valid statuses: active, paused, completed, inactive, archived"
            .to_string())
    );
    assert_eq!(join_messages(&vec![]), "");
    assert_eq!(join_messages(&vec![WaqfValidationError::NameEmpty]), "Name cannot be empty");
}

#[test]
fn messages_of_violated_rules() {
    let cases: Vec<(WaqfValidationError, &str)> = vec![
        (WaqfValidationError::IdEmpty, "Waqf ID cannot be empty"),
        (
            WaqfValidationError::NameTooLong { max_length: 100, actual: 120 },
            "Name too long: maximum 100 characters, got 120",
        ),
        (
            WaqfValidationError::NameContainsInvalidCharacters("\u{1}".to_string()),
            "Name contains invalid characters: \u{1}",
        ),
        (
            WaqfValidationError::DescriptionTooShort { min_length: 10, actual: 0 },
            "Description too short: minimum 10 characters, got 0",
        ),
        (WaqfValidationError::DescriptionEmpty, "Description cannot be empty"),
        (
            WaqfValidationError::InitialCapitalTooHigh {
                max_amount: 1_000_000_000 * UNIT,
                actual: 1_000_000_000 * UNIT + 5_000,
            },
            "Initial capital too high: maximum 1000000000.00, got 1000000000.01",
        ),
        (
            WaqfValidationError::InitialCapitalInvalid("Amount cannot be NaN".to_string()),
            "Invalid initial capital: Amount cannot be NaN",
        ),
        (
            WaqfValidationError::DonorPhoneInvalidLength { min: 10, max: 20, actual: 3 },
            "Donor phone invalid length: expected 10-20 characters, got 3",
        ),
        (
            WaqfValidationError::InvalidStatusTransition {
                from: "completed".to_string(),
                to: "active".to_string(),
            },
            "Invalid status transition from 'completed' to 'active'",
        ),
        (
            WaqfValidationError::InvalidReportingFrequency { frequency: "daily".to_string() },
            "Invalid reporting frequency 'daily'. Valid frequencies: quarterly, semiannually, yearly",
        ),
        (
            WaqfValidationError::InvalidReportType { report_type: "tax".to_string() },
            "Invalid report type 'tax'. Valid types: financial, impact",
        ),
        (
            WaqfValidationError::InvalidDeliveryMethod { method: "post".to_string() },
            "Invalid delivery method 'post'. Valid methods: email, platform, both",
        ),
        (WaqfValidationError::NoCausesSelected, "At least one cause must be selected"),
        (WaqfValidationError::InvalidCauseId(" ".to_string()), "Invalid cause ID:  "),
        (
            WaqfValidationError::NegativeFinancialValue {
                field: "current_balance".to_string(),
                value: -1_005_000,
            },
            "Financial field 'current_balance' cannot be negative: -1.01",
        ),
        (WaqfValidationError::ArchivedWaqfModification, "Cannot modify archived waqf"),
        (WaqfValidationError::CompletedWaqfModification, "Cannot modify completed waqf"),
        (WaqfValidationError::CreatedByEmpty, "Created by field cannot be empty"),
        (WaqfValidationError::CreatedAtEmpty, "Created timestamp cannot be empty"),
    ];
    for (error, text) in cases {
        assert_eq!(error.message(), text);
    }
}
