use waqf_satellite::tranche_error::TrancheError;
use waqf_satellite::tranche_creation::{append_tranche, lock_tranche};
use waqf_satellite::tranche_hooks::{
    add_notices, assert_tranche_return_deletion, assert_tranche_return_operations, find_tranche,
    TrancheReturnRequest,
    expiration_preference_violations, mark_tranche_as_returned, tranche_data_violations,
    validate_expiration_preference, validate_tranche_conversion, validate_tranche_data,
    validate_tranche_rollover,
};
use waqf_satellite::waqf_types::{
    ContributionTranche, ConversionDetails, DonorProfile, ExpirationAction, FinancialMetrics,
    InstallmentPayment, InstallmentSchedule, NotificationPreferences, ReportingPreferences,
    RevolvingWaqfDetails, TrancheExpirationPreference, WaqfData, WaqfType,
};

const UNIT: i64 = 1_000_000;
const DAY: u64 = 86_400_000_000_000;
const MONTH: u64 = 30 * DAY;

fn tranche(id: &str, amount: i64, maturity: u64) -> ContributionTranche {
    ContributionTranche {
        id: id.to_string(),
        amount,
        contribution_date: "1000".to_string(),
        maturity_date: maturity.to_string(),
        is_returned: false,
        returned_date: None,
        status: Some("locked".to_string()),
        penalty_applied: None,
        rollover_origin_id: None,
        rollover_target_id: None,
        installment_payments: None,
        expiration_preference: None,
        conversion_details: None,
    }
}

fn details(tranches: Vec<ContributionTranche>) -> RevolvingWaqfDetails {
    RevolvingWaqfDetails {
        lock_period_months: 6,
        maturity_date: "0".to_string(),
        principal_return_method: "lump_sum".to_string(),
        installment_schedule: None,
        early_withdrawal_penalty: None,
        early_withdrawal_allowed: false,
        contribution_tranches: Some(tranches),
        auto_rollover_preference: None,
        auto_rollover_target_cause: None,
        pending_notifications: None,
        default_expiration_preference: None,
    }
}

fn revolving_waqf(balance: i64, d: RevolvingWaqfDetails) -> WaqfData {
    WaqfData {
        id: "waqf-1".to_string(),
        name: "Water wells".to_string(),
        description: "Wells for three villages".to_string(),
        waqf_asset: 500 * UNIT,
        donor: DonorProfile {
            name: "Amina Yusuf".to_string(),
            email: "amina@example.org".to_string(),
            phone: "+2348012345678".to_string(),
            address: "12 Market Road, Kano".to_string(),
        },
        selected_causes: vec!["water".to_string()],
        cause_allocation: vec![],
        status: "active".to_string(),
        is_donated: Some(true),
        notifications: NotificationPreferences {
            contribution_reminders: true,
            impact_reports: true,
            financial_updates: false,
        },
        reporting_preferences: ReportingPreferences {
            frequency: "yearly".to_string(),
            report_types: vec!["impact".to_string()],
            delivery_method: "email".to_string(),
        },
        financial: FinancialMetrics {
            total_donations: balance,
            total_distributed: 0,
            current_balance: balance,
            investment_returns: vec![],
            total_investment_return: 0,
            growth_rate: 0,
            cause_allocations: vec![],
        },
        waqf_type: WaqfType::TemporaryRevolving,
        is_hybrid: false,
        hybrid_allocations: None,
        consumable_details: None,
        revolving_details: Some(d),
        investment_strategy: None,
        deed_document: None,
        created_by: "creator".to_string(),
        created_at: "1".to_string(),
        updated_at: None,
        last_contribution_date: None,
        next_contribution_date: None,
        next_report_date: None,
    }
}

fn tranches(w: &WaqfData) -> &Vec<ContributionTranche> {
    w.revolving_details.as_ref().unwrap().contribution_tranches.as_ref().unwrap()
}

#[test]
fn matured_tranche_is_paid_out() {
    let mut w = revolving_waqf(500 * UNIT, details(vec![tranche("t1", 200 * UNIT, 5_000)]));
    let r = mark_tranche_as_returned(&mut w, "t1", 7_000, 6_000);
    assert!(r.is_ok());
    let t = &tranches(&w)[0];
    assert!(t.is_returned);
    assert_eq!(t.status.as_deref(), Some("returned"));
    assert_eq!(t.returned_date.as_deref(), Some("7000"));
    assert_eq!(t.penalty_applied, None);
    assert_eq!(w.financial.current_balance, 300 * UNIT);
    assert!(w.revolving_details.as_ref().unwrap().pending_notifications.is_none());
}

#[test]
fn second_return_fails_as_already_returned() {
    let mut w = revolving_waqf(500 * UNIT, details(vec![tranche("t1", 200 * UNIT, 5_000)]));
    assert!(mark_tranche_as_returned(&mut w, "t1", 7_000, 6_000).is_ok());
    let again = mark_tranche_as_returned(&mut w, "t1", 8_000, 8_000);
    assert!(matches!(again, Err(TrancheError::AlreadyReturned)));
    assert_eq!(w.financial.current_balance, 300 * UNIT);
}

#[test]
fn early_withdrawal_is_refused_when_not_allowed() {
    let mut w = revolving_waqf(500 * UNIT, details(vec![tranche("t1", 200 * UNIT, 5_000)]));
    let r = mark_tranche_as_returned(&mut w, "t1", 100, 100);
    match r {
        Err(TrancheError::EarlyWithdrawalNotAllowed(date)) => assert_eq!(date, "5000"),
        other => panic!("unexpected outcome: {:?}", other),
    }
    assert!(!tranches(&w)[0].is_returned);
    assert_eq!(w.financial.current_balance, 500 * UNIT);
}

#[test]
fn early_withdrawal_applies_penalty_rate() {
    let mut d = details(vec![tranche("t1", 200 * UNIT, 5_000)]);
    d.early_withdrawal_allowed = true;
    d.early_withdrawal_penalty = Some(UNIT / 10);
    let mut w = revolving_waqf(500 * UNIT, d);
    assert!(mark_tranche_as_returned(&mut w, "t1", 100, 100).is_ok());
    let t = &tranches(&w)[0];
    assert_eq!(t.penalty_applied, Some(20 * UNIT));
    assert_eq!(t.status.as_deref(), Some("returned"));
    assert_eq!(w.financial.current_balance, 320 * UNIT);
    let notes = w.revolving_details.as_ref().unwrap().pending_notifications.as_ref().unwrap();
    assert_eq!(
        notes,
        &vec!["Early withdrawal processed for tranche t1. Penalty applied: 20.00".to_string()]
    );
}

#[test]
fn matured_tranche_rolls_over_into_new_tranche() {
    let mut first = tranche("t1", 200 * UNIT, 5_000);
    first.expiration_preference = Some(TrancheExpirationPreference {
        action: ExpirationAction::Rollover,
        rollover_months: Some(12),
        rollover_cause_id: None,
        consumable_schedule: None,
        consumable_duration: None,
    });
    let mut d = details(vec![first]);
    d.auto_rollover_preference = Some("same_cause".to_string());
    let mut w = revolving_waqf(500 * UNIT, d);
    assert!(mark_tranche_as_returned(&mut w, "t1", 6_000, 6_000).is_ok());
    let ts = tranches(&w);
    assert_eq!(ts.len(), 2);
    assert_eq!(ts[0].status.as_deref(), Some("rolled_over"));
    assert_eq!(ts[0].rollover_target_id.as_deref(), Some("tranche_rollover_t1_6000"));
    assert!(ts[0].is_returned);
    assert_eq!(ts[1].id, "tranche_rollover_t1_6000");
    assert_eq!(ts[1].rollover_origin_id.as_deref(), Some("t1"));
    assert_eq!(ts[1].amount, 200 * UNIT);
    assert_eq!(ts[1].status.as_deref(), Some("locked"));
    assert_eq!(ts[1].contribution_date, "6000");
    assert_eq!(ts[1].maturity_date, (6_000 + 6 * MONTH).to_string());
    assert_eq!(
        ts[1].expiration_preference.as_ref().map(|p| p.rollover_months),
        Some(Some(12))
    );
    assert_eq!(w.financial.current_balance, 500 * UNIT);
    let notes = w.revolving_details.as_ref().unwrap().pending_notifications.as_ref().unwrap();
    assert_eq!(
        notes,
        &vec![
            "Matured tranche t1 rolled over into tranche_rollover_t1_6000 (strategy: same_cause)"
                .to_string()
        ]
    );
}

#[test]
fn installments_schedule_payments_without_releasing_funds() {
    let mut d = details(vec![tranche("t1", 100 * UNIT, 5_000)]);
    d.principal_return_method = "installments".to_string();
    d.installment_schedule =
        Some(InstallmentSchedule { frequency: "quarterly".to_string(), number_of_installments: 3 });
    let mut w = revolving_waqf(500 * UNIT, d);
    assert!(mark_tranche_as_returned(&mut w, "t1", 6_000, 6_000).is_ok());
    let t = &tranches(&w)[0];
    assert!(!t.is_returned);
    assert_eq!(t.returned_date, None);
    assert_eq!(t.status.as_deref(), Some("return_scheduled"));
    let plan = t.installment_payments.as_ref().unwrap();
    assert_eq!(plan.len(), 3);
    assert_eq!(plan[0].id, "inst_t1_1");
    assert_eq!(plan[2].id, "inst_t1_3");
    assert_eq!(plan[0].amount, 33_333_334);
    assert_eq!(plan[1].amount, 33_333_333);
    assert_eq!(plan[2].amount, 33_333_333);
    assert_eq!(plan.iter().map(|p| p.amount).sum::<i64>(), 100 * UNIT);
    assert_eq!(plan[0].due_date, (6_000 + 90 * DAY).to_string());
    assert_eq!(plan[2].due_date, (6_000 + 270 * DAY).to_string());
    assert_eq!(plan[1].status, "scheduled");
    assert_eq!(w.financial.current_balance, 500 * UNIT);
    let notes = w.revolving_details.as_ref().unwrap().pending_notifications.as_ref().unwrap();
    assert_eq!(
        notes,
        &vec!["Installment schedule created for tranche t1. Total to return: 100.00".to_string()]
    );
}

#[test]
fn unknown_tranche_and_missing_details_are_reported() {
    let mut w = revolving_waqf(500 * UNIT, details(vec![tranche("t1", 200 * UNIT, 5_000)]));
    match mark_tranche_as_returned(&mut w, "t9", 6_000, 6_000) {
        Err(TrancheError::TrancheNotFound(id)) => assert_eq!(id, "t9"),
        other => panic!("unexpected outcome: {:?}", other),
    }
    w.revolving_details = None;
    assert!(matches!(
        mark_tranche_as_returned(&mut w, "t1", 6_000, 6_000),
        Err(TrancheError::NotRevolving)
    ));
}

#[test]
fn unreadable_maturity_date_is_reported() {
    let mut bad = tranche("t1", 200 * UNIT, 5_000);
    bad.maturity_date = "soon".to_string();
    let mut w = revolving_waqf(500 * UNIT, details(vec![bad]));
    assert!(matches!(
        mark_tranche_as_returned(&mut w, "t1", 6_000, 6_000),
        Err(TrancheError::InvalidMaturityDate)
    ));
}

#[test]
fn payout_never_makes_balance_negative() {
    let mut w = revolving_waqf(50 * UNIT, details(vec![tranche("t1", 200 * UNIT, 5_000)]));
    assert!(mark_tranche_as_returned(&mut w, "t1", 6_000, 6_000).is_ok());
    assert_eq!(w.financial.current_balance, 0);
}

#[test]
fn expiration_preference_rules() {
    let mut p = TrancheExpirationPreference {
        action: ExpirationAction::Refund,
        rollover_months: None,
        rollover_cause_id: None,
        consumable_schedule: None,
        consumable_duration: None,
    };
    assert!(validate_expiration_preference(&p).is_ok());
    p.action = ExpirationAction::ConvertPermanent;
    assert!(validate_expiration_preference(&p).is_ok());
    p.action = ExpirationAction::Rollover;
    assert!(matches!(validate_expiration_preference(&p), Err(TrancheError::RolloverMonthsMissing)));
    p.rollover_months = Some(0);
    assert!(matches!(validate_expiration_preference(&p), Err(TrancheError::RolloverTooShort)));
    p.rollover_months = Some(241);
    assert!(matches!(validate_expiration_preference(&p), Err(TrancheError::RolloverTooLong)));
    p.rollover_months = Some(240);
    assert!(validate_expiration_preference(&p).is_ok());
    p.action = ExpirationAction::ConvertConsumable;
    assert!(validate_expiration_preference(&p).is_ok());
    p.consumable_schedule = Some("weekly".to_string());
    match validate_expiration_preference(&p) {
        Err(TrancheError::InvalidConsumableSchedule(s)) => assert_eq!(s, "weekly"),
        other => panic!("unexpected outcome: {:?}", other),
    }
    p.consumable_schedule = Some("milestone-based".to_string());
    p.consumable_duration = Some(0);
    assert!(matches!(
        validate_expiration_preference(&p),
        Err(TrancheError::ConsumableDurationTooShort)
    ));
    p.consumable_duration = Some(61);
    assert!(matches!(
        validate_expiration_preference(&p),
        Err(TrancheError::ConsumableDurationTooLong)
    ));
    p.consumable_duration = Some(60);
    assert!(validate_expiration_preference(&p).is_ok());
}

#[test]
fn conversion_eligibility() {
    let w = revolving_waqf(500 * UNIT, details(vec![]));
    let t = tranche("t1", 200 * UNIT, 10 * DAY);
    assert!(validate_tranche_conversion(&t, &w, 10 * DAY).is_ok());
    assert!(matches!(
        validate_tranche_conversion(&t, &w, 7 * DAY + 5),
        Err(TrancheError::NotMatured { days_until: 2 })
    ));
    let poor = revolving_waqf(100 * UNIT, details(vec![]));
    assert!(matches!(
        validate_tranche_conversion(&t, &poor, 10 * DAY),
        Err(TrancheError::InsufficientBalance { required, available })
            if required == 200 * UNIT && available == 100 * UNIT
    ));
    let mut returned = tranche("t1", 200 * UNIT, 10 * DAY);
    returned.is_returned = true;
    assert!(matches!(
        validate_tranche_conversion(&returned, &w, 10 * DAY),
        Err(TrancheError::ConvertReturned)
    ));
    let mut rolled = tranche("t1", 200 * UNIT, 10 * DAY);
    rolled.status = Some("rolled_over".to_string());
    assert!(matches!(
        validate_tranche_conversion(&rolled, &w, 10 * DAY),
        Err(TrancheError::ConvertRolledOver)
    ));
}

#[test]
fn rollover_eligibility() {
    let t = tranche("t1", 200 * UNIT, 5_000);
    assert!(validate_tranche_rollover(&t, 12, 5_000).is_ok());
    assert!(matches!(
        validate_tranche_rollover(&t, 12, 4_999),
        Err(TrancheError::RolloverNotMatured)
    ));
    assert!(matches!(validate_tranche_rollover(&t, 0, 5_000), Err(TrancheError::RolloverTooShort)));
    assert!(matches!(validate_tranche_rollover(&t, 241, 5_000), Err(TrancheError::RolloverTooLong)));
    let mut rolled = tranche("t1", 200 * UNIT, 5_000);
    rolled.status = Some("rolled_over".to_string());
    assert!(matches!(
        validate_tranche_rollover(&rolled, 12, 5_000),
        Err(TrancheError::AlreadyRolledOver)
    ));
}

#[test]
fn tranche_field_rules() {
    let good = tranche("t1", 200 * UNIT, 5_000);
    assert!(validate_tranche_data(&good).is_ok());
    let mut t = tranche("", 200 * UNIT, 5_000);
    assert!(matches!(validate_tranche_data(&t), Err(TrancheError::EmptyId)));
    t = tranche("t1", 0, 5_000);
    assert!(matches!(validate_tranche_data(&t), Err(TrancheError::NonPositiveAmount)));
    t = tranche("t1", 1, 5_000);
    t.contribution_date = "12a".to_string();
    assert!(matches!(validate_tranche_data(&t), Err(TrancheError::InvalidContributionDate)));
    t = tranche("t1", 1, 5_000);
    t.maturity_date = "18446744073709551616".to_string();
    assert!(matches!(validate_tranche_data(&t), Err(TrancheError::InvalidMaturityDate)));
    t.maturity_date = "18446744073709551615".to_string();
    assert!(validate_tranche_data(&t).is_ok());
    t.maturity_date = "+42".to_string();
    assert!(validate_tranche_data(&t).is_ok());
    t.status = Some("frozen".to_string());
    match validate_tranche_data(&t) {
        Err(TrancheError::InvalidStatus(s)) => assert_eq!(s, "frozen"),
        other => panic!("unexpected outcome: {:?}", other),
    }
    t.status = None;
    t.penalty_applied = Some(-1);
    assert!(matches!(validate_tranche_data(&t), Err(TrancheError::NegativePenalty)));
}

#[test]
fn every_violated_tranche_rule_is_listed() {
    let mut t = tranche("", -5, 5_000);
    t.contribution_date = String::new();
    t.maturity_date = "tomorrow".to_string();
    t.returned_date = Some("x".to_string());
    t.status = Some("frozen".to_string());
    t.penalty_applied = Some(-1);
    t.installment_payments = Some(vec![
        InstallmentPayment {
            id: "inst_1".to_string(),
            amount: 10,
            due_date: "100".to_string(),
            status: "paid".to_string(),
            paid_date: Some(String::new()),
        },
        InstallmentPayment {
            id: "inst_2".to_string(),
            amount: 0,
            due_date: String::new(),
            status: "late".to_string(),
            paid_date: Some("never".to_string()),
        },
        InstallmentPayment {
            id: "inst_3".to_string(),
            amount: 1,
            due_date: "1e9".to_string(),
            status: "missed".to_string(),
            paid_date: None,
        },
    ]);
    t.expiration_preference = Some(TrancheExpirationPreference {
        action: ExpirationAction::ConvertConsumable,
        rollover_months: None,
        rollover_cause_id: None,
        consumable_schedule: Some("weekly".to_string()),
        consumable_duration: Some(61),
    });
    t.conversion_details = Some(ConversionDetails {
        converted_at: String::new(),
        new_waqf_id: String::new(),
        target_waqf_type: "hybrid".to_string(),
        notes: None,
    });
    let expected = vec![
        TrancheError::EmptyId,
        TrancheError::NonPositiveAmount,
        TrancheError::ContributionDateMissing,
        TrancheError::InvalidMaturityDate,
        TrancheError::InvalidReturnedDate,
        TrancheError::InvalidStatus("frozen".to_string()),
        TrancheError::NegativePenalty,
        TrancheError::InstallmentNonPositive,
        TrancheError::InstallmentDueDateMissing,
        TrancheError::InvalidInstallmentPaidDate,
        TrancheError::InvalidInstallmentStatus("late".to_string()),
        TrancheError::InvalidInstallmentDueDate,
        TrancheError::InvalidConsumableSchedule("weekly".to_string()),
        TrancheError::ConsumableDurationTooLong,
        TrancheError::ConversionTimestampEmpty,
        TrancheError::ConversionWaqfIdEmpty,
        TrancheError::InvalidConversionType("hybrid".to_string()),
    ];
    assert_eq!(tranche_data_violations(&t), expected);
    assert_eq!(validate_tranche_data(&t), Err(TrancheError::EmptyId));
    assert!(tranche_data_violations(&tranche("t1", 1, 5_000)).is_empty());
    let mut c = tranche("t1", 1, 5_000);
    c.conversion_details = Some(ConversionDetails {
        converted_at: "1".to_string(),
        new_waqf_id: "w2".to_string(),
        target_waqf_type: String::new(),
        notes: None,
    });
    assert_eq!(tranche_data_violations(&c), vec![TrancheError::ConversionTypeEmpty]);
    c.conversion_details.as_mut().unwrap().target_waqf_type = "temporary_consumable".to_string();
    assert!(validate_tranche_data(&c).is_ok());
}

#[test]
fn every_violated_preference_rule_is_listed() {
    let p = TrancheExpirationPreference {
        action: ExpirationAction::ConvertConsumable,
        rollover_months: Some(0),
        rollover_cause_id: None,
        consumable_schedule: Some("yearly".to_string()),
        consumable_duration: Some(0),
    };
    assert_eq!(
        expiration_preference_violations(&p),
        vec![
            TrancheError::InvalidConsumableSchedule("yearly".to_string()),
            TrancheError::ConsumableDurationTooShort
        ]
    );
    let r = TrancheExpirationPreference { action: ExpirationAction::Rollover, ..p.clone() };
    assert_eq!(expiration_preference_violations(&r), vec![TrancheError::RolloverTooShort]);
    let f = TrancheExpirationPreference { action: ExpirationAction::Refund, ..p };
    assert!(expiration_preference_violations(&f).is_empty());
}

#[test]
fn messages_of_tranche_errors() {
    let cases: Vec<(TrancheError, &str)> = vec![
        (TrancheError::NotRevolving, "Waqf is not a revolving waqf"),
        (TrancheError::TrancheNotFound("t9".to_string()), "Tranche t9 not found"),
        (TrancheError::AlreadyReturned, "Tranche has already been returned"),
        (TrancheError::InvalidMaturityDate, "Invalid maturity date format"),
        (
            TrancheError::EarlyWithdrawalNotAllowed("5000".to_string()),
            "Early withdrawals are not allowed for this waqf. Tranche matures at: 5000",
        ),
        (TrancheError::RolloverTooLong, "Rollover period cannot exceed 240 months (20 years)"),
        (
            TrancheError::RolloverMonthsMissing,
            "Rollover action requires rollover_months to be specified",
        ),
        (
            TrancheError::NotMatured { days_until: 12 },
            "Tranche has not matured yet. Matures in 12 days",
        ),
        (
            TrancheError::InsufficientBalance { required: 200 * UNIT, available: 150_500_000 },
            "Insufficient waqf balance for conversion. Required: 200.00, Available: 150.50",
        ),
        (TrancheError::ConvertRolledOver, "Cannot convert a rolled-over tranche"),
        (TrancheError::EmptyId, "Tranche ID cannot be empty"),
        (TrancheError::InvalidStatus("x".to_string()), "Invalid tranche status: x"),
        (
            TrancheError::InvalidConversionType("hybrid".to_string()),
            "Invalid target waqf type in conversion: hybrid",
        ),
        (
            TrancheError::ReturnRecordDeletion,
            "Tranche return records cannot be deleted for audit purposes",
        ),
    ];
    for (error, text) in cases {
        assert_eq!(error.message(), text);
    }
}

#[test]
fn values_beyond_range_are_refused_and_leave_the_waqf_alone() {
    let mut d = details(vec![tranche("t1", i64::MAX, 5_000)]);
    d.early_withdrawal_allowed = true;
    d.early_withdrawal_penalty = Some(2 * UNIT);
    let mut w = revolving_waqf(500 * UNIT, d);
    let before = w.clone();
    assert_eq!(
        mark_tranche_as_returned(&mut w, "t1", 100, 100),
        Err(TrancheError::PenaltyOutOfRange)
    );
    assert_eq!(w, before);

    let mut d = details(vec![tranche("t1", 200 * UNIT, 5_000)]);
    d.auto_rollover_preference = Some("cause_pool".to_string());
    d.lock_period_months = u32::MAX;
    let mut w = revolving_waqf(500 * UNIT, d);
    let before = w.clone();
    assert_eq!(
        mark_tranche_as_returned(&mut w, "t1", 6_000, 6_000),
        Err(TrancheError::TimestampOutOfRange)
    );
    assert_eq!(w, before);

    let mut d = details(vec![tranche("t1", 200 * UNIT, 5_000)]);
    d.principal_return_method = "installments".to_string();
    d.installment_schedule =
        Some(InstallmentSchedule { frequency: "annually".to_string(), number_of_installments: 600 });
    let mut w = revolving_waqf(500 * UNIT, d);
    let before = w.clone();
    assert_eq!(
        mark_tranche_as_returned(&mut w, "t1", 6_000, 6_000),
        Err(TrancheError::TimestampOutOfRange)
    );
    assert_eq!(w, before);
}

#[test]
fn penalty_and_net_return_never_fall_below_zero() {
    let mut d = details(vec![tranche("t1", 200 * UNIT, 5_000), tranche("t2", -7, 5_000)]);
    d.early_withdrawal_allowed = true;
    d.early_withdrawal_penalty = Some(-UNIT);
    let mut w = revolving_waqf(500 * UNIT, d);
    assert!(mark_tranche_as_returned(&mut w, "t1", 100, 100).is_ok());
    assert_eq!(tranches(&w)[0].penalty_applied, None);
    assert_eq!(w.financial.current_balance, 300 * UNIT);
    assert!(mark_tranche_as_returned(&mut w, "t2", 100, 100).is_ok());
    assert_eq!(tranches(&w)[1].penalty_applied, Some(7));
    assert_eq!(w.financial.current_balance, 300 * UNIT);
    let notes = w.revolving_details.as_ref().unwrap().pending_notifications.as_ref().unwrap();
    assert_eq!(notes.len(), 2);
    assert_eq!(notes[1], "Early withdrawal processed for tranche t2. Penalty applied: 0.00");
}

#[test]
fn installments_once_planned_are_kept() {
    let mut d = details(vec![tranche("t1", 100 * UNIT, 5_000)]);
    d.principal_return_method = "installments".to_string();
    d.early_withdrawal_allowed = true;
    d.early_withdrawal_penalty = Some(UNIT / 4);
    d.installment_schedule =
        Some(InstallmentSchedule { frequency: "fortnightly".to_string(), number_of_installments: 0 });
    d.pending_notifications = Some(vec!["earlier".to_string()]);
    d.auto_rollover_preference = Some("same_cause".to_string());
    let mut w = revolving_waqf(500 * UNIT, d);
    assert!(mark_tranche_as_returned(&mut w, "t1", 100, 100).is_ok());
    let first = tranches(&w)[0].installment_payments.clone().unwrap();
    assert_eq!(first.len(), 1);
    assert_eq!(first[0].amount, 75 * UNIT);
    assert_eq!(first[0].due_date, (100 + 30 * DAY).to_string());
    assert_eq!(tranches(&w)[0].penalty_applied, Some(25 * UNIT));
    assert_eq!(
        w.revolving_details.as_ref().unwrap().pending_notifications,
        Some(vec![
            "earlier".to_string(),
            "Installment schedule created for tranche t1. Total to return: 75.00".to_string(),
            "Early withdrawal processed for tranche t1. Penalty applied: 25.00".to_string()
        ])
    );
    assert!(mark_tranche_as_returned(&mut w, "t1", 9_000, 9_000).is_ok());
    assert_eq!(tranches(&w)[0].installment_payments.as_ref(), Some(&first));
    assert_eq!(tranches(&w)[0].status.as_deref(), Some("return_scheduled"));
    assert_eq!(tranches(&w)[0].penalty_applied, None);
    assert_eq!(tranches(&w).len(), 1);
    assert_eq!(w.financial.current_balance, 500 * UNIT);
}

#[test]
fn rollover_names_the_target_cause() {
    let mut d = details(vec![tranche("a", 1, 9), tranche("t1", 200 * UNIT, 5_000), tranche("t1", 3, 9)]);
    d.auto_rollover_preference = Some("cause_pool".to_string());
    d.auto_rollover_target_cause = Some("schools".to_string());
    let mut w = revolving_waqf(500 * UNIT, d);
    assert!(mark_tranche_as_returned(&mut w, "t1", 6_000, 6_000).is_ok());
    let ts = tranches(&w);
    assert_eq!(ts.len(), 4);
    assert_eq!(ts[1].status.as_deref(), Some("rolled_over"));
    assert_eq!(ts[2].status.as_deref(), Some("locked"));
    assert_eq!(ts[3].rollover_origin_id.as_deref(), Some("t1"));
    assert_eq!(
        w.revolving_details.as_ref().unwrap().pending_notifications,
        Some(vec![
            "Matured tranche t1 rolled over into tranche_rollover_t1_6000 for cause schools"
                .to_string()
        ])
    );
    let mut none = details(vec![tranche("t1", 200 * UNIT, 5_000)]);
    none.auto_rollover_preference = Some("none".to_string());
    let mut w = revolving_waqf(500 * UNIT, none);
    assert!(mark_tranche_as_returned(&mut w, "t1", 6_000, 6_000).is_ok());
    assert_eq!(tranches(&w).len(), 1);
    assert_eq!(tranches(&w)[0].status.as_deref(), Some("returned"));
}

#[test]
fn return_at_the_moment_of_maturity_is_not_early() {
    let mut w = revolving_waqf(500 * UNIT, details(vec![tranche("t1", 200 * UNIT, 5_000)]));
    assert!(mark_tranche_as_returned(&mut w, "t1", 1, 5_000).is_ok());
    assert_eq!(tranches(&w)[0].returned_date.as_deref(), Some("1"));
}

#[test]
fn remaining_eligibility_errors() {
    let w = revolving_waqf(500 * UNIT, details(vec![]));
    let mut converted = tranche("t1", 200 * UNIT, 5_000);
    converted.conversion_details = Some(ConversionDetails {
        converted_at: "1".to_string(),
        new_waqf_id: "w2".to_string(),
        target_waqf_type: "permanent".to_string(),
        notes: None,
    });
    assert_eq!(
        validate_tranche_conversion(&converted, &w, 5_000),
        Err(TrancheError::AlreadyConverted)
    );
    let mut returned = tranche("t1", 200 * UNIT, 5_000);
    returned.is_returned = true;
    assert_eq!(validate_tranche_rollover(&returned, 12, 5_000), Err(TrancheError::RolloverReturned));
    let mut unreadable = tranche("t1", 200 * UNIT, 5_000);
    unreadable.maturity_date = String::new();
    assert_eq!(
        validate_tranche_rollover(&unreadable, 12, 5_000),
        Err(TrancheError::InvalidMaturityDate)
    );
    assert_eq!(
        validate_tranche_conversion(&unreadable, &w, 5_000),
        Err(TrancheError::InvalidMaturityDate)
    );
    assert_eq!(validate_tranche_data(&unreadable), Err(TrancheError::MaturityDateMissing));
}

#[test]
fn return_requests_are_kept() {
    let request = TrancheReturnRequest {
        waqf_id: "waqf-1".to_string(),
        tranche_id: "t1".to_string(),
        requested_by: "creator".to_string(),
        timestamp: 6_000,
    };
    assert_eq!(assert_tranche_return_operations(&request), Ok(()));
    let refusal = assert_tranche_return_deletion().unwrap_err();
    assert_eq!(refusal, TrancheError::ReturnRecordDeletion);
    assert_eq!(refusal.message(), "Tranche return records cannot be deleted for audit purposes");
}

#[test]
fn tranche_building_blocks() {
    let ts = vec![tranche("a", 1, 9), tranche("b", 2, 9), tranche("a", 3, 9)];
    assert_eq!(find_tranche(&ts, "a"), Some(0));
    assert_eq!(find_tranche(&ts, "b"), Some(1));
    assert_eq!(find_tranche(&ts, "c"), None);
    assert_eq!(find_tranche(&vec![], "a"), None);
    let locked = lock_tranche("x".to_string(), 5, 10, 2, None).unwrap();
    assert_eq!(locked.maturity_date, (10 + 2 * MONTH).to_string());
    assert_eq!(locked.contribution_date, "10");
    assert_eq!(locked.status.as_deref(), Some("locked"));
    assert!(validate_tranche_data(&locked).is_ok());
    assert_eq!(lock_tranche("x".to_string(), 5, u64::MAX, 1, None), None);
    assert!(lock_tranche("x".to_string(), 5, u64::MAX, 0, None).is_some());
    let mut d = details(vec![]);
    d.contribution_tranches = None;
    append_tranche(&mut d, locked.clone());
    append_tranche(&mut d, tranche("y", 1, 9));
    assert_eq!(d.contribution_tranches.as_ref().map(|t| t.len()), Some(2));
    assert_eq!(d.contribution_tranches.as_ref().unwrap()[0], locked);
    add_notices(&mut d, vec![]);
    assert_eq!(d.pending_notifications, None);
    add_notices(&mut d, vec!["one".to_string()]);
    add_notices(&mut d, vec!["two".to_string(), "three".to_string()]);
    assert_eq!(
        d.pending_notifications,
        Some(vec!["one".to_string(), "two".to_string(), "three".to_string()])
    );
}
