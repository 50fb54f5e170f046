use waqf_satellite::donation_hooks::{
    assert_donation_operations, donation_updates_waqf, DonationError, handle_donation_changes,
    update_waqf_financials, validate_donation_data,
};
use waqf_satellite::tranche_creation::revolving_slice_of;
use waqf_satellite::waqf_hooks::assert_waqf_write;
use waqf_satellite::waqf_type_rules::WaqfPolicy;
use waqf_satellite::waqf_types::{
    ContributionTranche, DonationData, DonorProfile, ExpirationAction, FinancialMetrics,
    HybridAllocation, HybridCauseAllocation, NotificationPreferences, ReportingPreferences,
    RevolvingWaqfDetails, TrancheExpirationPreference, WaqfData, WaqfType,
};

const UNIT: i64 = 1_000_000;
const DAY: u64 = 86_400_000_000_000;
const NOW: u64 = 1_700_000_000_000_000_000;

fn waqf(kind: WaqfType, asset: i64) -> WaqfData {
    WaqfData {
        id: "waqf-1".to_string(),
        name: "Water wells".to_string(),
        description: "Wells for three villages".to_string(),
        waqf_asset: asset,
        donor: DonorProfile {
            name: "Amina Yusuf".to_string(),
            email: "amina@example.org".to_string(),
            phone: "+2348012345678".to_string(),
            address: "12 Market Road, Kano".to_string(),
        },
        selected_causes: vec!["water".to_string()],
        cause_allocation: vec![],
        status: "active".to_string(),
        is_donated: Some(true),
        notifications: NotificationPreferences {
            contribution_reminders: true,
            impact_reports: true,
            financial_updates: false,
        },
        reporting_preferences: ReportingPreferences {
            frequency: "yearly".to_string(),
            report_types: vec!["impact".to_string()],
            delivery_method: "email".to_string(),
        },
        financial: FinancialMetrics {
            total_donations: asset,
            total_distributed: 0,
            current_balance: asset,
            investment_returns: vec![],
            total_investment_return: 0,
            growth_rate: 0,
            cause_allocations: vec![],
        },
        waqf_type: kind,
        is_hybrid: kind == WaqfType::Hybrid,
        hybrid_allocations: None,
        consumable_details: None,
        revolving_details: None,
        investment_strategy: None,
        deed_document: None,
        created_by: "creator".to_string(),
        created_at: "2024-01-01T00:00:00Z".to_string(),
        updated_at: None,
        last_contribution_date: None,
        next_contribution_date: None,
        next_report_date: None,
    }
}

fn details(months: u32) -> RevolvingWaqfDetails {
    RevolvingWaqfDetails {
        lock_period_months: months,
        maturity_date: "0".to_string(),
        principal_return_method: "lump_sum".to_string(),
        installment_schedule: None,
        early_withdrawal_penalty: None,
        early_withdrawal_allowed: false,
        contribution_tranches: None,
        auto_rollover_preference: None,
        auto_rollover_target_cause: None,
        pending_notifications: None,
        default_expiration_preference: None,
    }
}

fn tranche(id: &str, amount: i64) -> ContributionTranche {
    ContributionTranche {
        id: id.to_string(),
        amount,
        contribution_date: "1".to_string(),
        maturity_date: "2".to_string(),
        is_returned: false,
        returned_date: None,
        status: Some("locked".to_string()),
        penalty_applied: None,
        rollover_origin_id: None,
        rollover_target_id: None,
        installment_payments: None,
        expiration_preference: None,
        conversion_details: None,
    }
}

fn donation(amount: i64) -> DonationData {
    DonationData {
        id: "don-1".to_string(),
        waqf_id: "waqf-1".to_string(),
        date: "2024-03-01T00:00:00Z".to_string(),
        amount,
        currency: "USD".to_string(),
        status: "completed".to_string(),
        transaction_id: None,
        donor_name: None,
        lock_period_months: None,
    }
}

fn share(revolving: Option<i64>) -> HybridCauseAllocation {
    HybridCauseAllocation {
        cause_id: "water".to_string(),
        allocations: HybridAllocation {
            permanent: None,
            temporary_consumable: None,
            temporary_revolving: revolving,
        },
    }
}

fn tranches(w: &WaqfData) -> &Vec<ContributionTranche> {
    w.revolving_details.as_ref().unwrap().contribution_tranches.as_ref().unwrap()
}

#[test]
fn donation_to_revolving_waqf_adds_second_tranche() {
    let mut proposed = waqf(WaqfType::TemporaryRevolving, 500 * UNIT);
    let mut d = details(6);
    d.default_expiration_preference = Some(TrancheExpirationPreference {
        action: ExpirationAction::Rollover,
        rollover_months: Some(6),
        rollover_cause_id: Some("water".to_string()),
        consumable_schedule: None,
        consumable_duration: None,
    });
    proposed.revolving_details = Some(d);
    let created = assert_waqf_write(
        proposed,
        None,
        "creator",
        NOW,
        &WaqfPolicy { enforce_hybrid_sums: false },
    ).unwrap().waqf;
    assert_eq!(tranches(&created).len(), 1);
    assert_eq!(created.financial.current_balance, 500 * UNIT);

    let later = NOW + 3 * DAY;
    let updated = update_waqf_financials(Some(created), &donation(200 * UNIT), later).unwrap();
    let ts = tranches(&updated);
    assert_eq!(ts.len(), 2);
    assert_eq!(ts[0].amount, 500 * UNIT);
    assert_eq!(ts[1].amount, 200 * UNIT);
    assert_eq!(ts[1].id, format!("tranche_waqf-1_{}", later));
    assert_eq!(ts[1].status.as_deref(), Some("locked"));
    assert_eq!(ts[1].contribution_date, later.to_string());
    assert_eq!(ts[1].maturity_date, (later + 6 * 30 * DAY).to_string());
    assert_eq!(
        ts[1].expiration_preference.as_ref().and_then(|p| p.rollover_cause_id.clone()),
        Some("water".to_string())
    );
    assert_eq!(updated.financial.current_balance, 700 * UNIT);
    assert_eq!(updated.financial.total_donations, 700 * UNIT);
    assert_eq!(updated.waqf_asset, 500 * UNIT);
    assert_eq!(updated.updated_at, Some(later.to_string()));
    assert_eq!(updated.last_contribution_date, Some(later.to_string()));
}

#[test]
fn donation_lock_period_overrides_waqf_default() {
    let mut w = waqf(WaqfType::TemporaryRevolving, 500 * UNIT);
    w.revolving_details = Some(details(6));
    let mut d = donation(10 * UNIT);
    d.lock_period_months = Some(2);
    let updated = update_waqf_financials(Some(w), &d, NOW).unwrap();
    assert_eq!(tranches(&updated)[0].maturity_date, (NOW + 2 * 30 * DAY).to_string());
}

#[test]
fn donation_to_permanent_waqf_adds_no_tranche() {
    let w = waqf(WaqfType::Permanent, 500 * UNIT);
    let updated = update_waqf_financials(Some(w), &donation(200 * UNIT), NOW).unwrap();
    assert!(updated.revolving_details.is_none());
    assert_eq!(updated.financial.current_balance, 700 * UNIT);
}

#[test]
fn hybrid_slice_follows_existing_tranches() {
    let mut w = waqf(WaqfType::Hybrid, 1000 * UNIT);
    let mut d = details(12);
    d.contribution_tranches = Some(vec![tranche("a", 150 * UNIT), tranche("b", 100 * UNIT)]);
    w.revolving_details = Some(d);
    w.hybrid_allocations = Some(vec![share(Some(90 * UNIT))]);
    assert_eq!(revolving_slice_of(&w, 200 * UNIT), Some(50 * UNIT));
    let updated = update_waqf_financials(Some(w), &donation(200 * UNIT), NOW).unwrap();
    assert_eq!(tranches(&updated).len(), 3);
    assert_eq!(tranches(&updated)[2].amount, 50 * UNIT);
}

#[test]
fn hybrid_slice_falls_back_to_average_percentage() {
    let mut w = waqf(WaqfType::Hybrid, 1000 * UNIT);
    w.revolving_details = Some(details(12));
    w.hybrid_allocations = Some(vec![
        share(Some(50 * UNIT)),
        share(None),
        share(Some(50 * UNIT)),
    ]);
    assert_eq!(revolving_slice_of(&w, 300 * UNIT), Some(99_999_999));
    w.hybrid_allocations = Some(vec![share(Some(50 * UNIT)), share(Some(25 * UNIT))]);
    assert_eq!(revolving_slice_of(&w, 300 * UNIT), Some(112_500_000));
    w.hybrid_allocations = Some(vec![]);
    assert_eq!(revolving_slice_of(&w, 300 * UNIT), Some(0));
    w.hybrid_allocations = None;
    assert_eq!(revolving_slice_of(&w, 300 * UNIT), Some(0));
    let updated = update_waqf_financials(Some(w), &donation(300 * UNIT), NOW).unwrap();
    assert!(updated.revolving_details.as_ref().unwrap().contribution_tranches.is_none());
}

#[test]
fn slices_of_other_kinds() {
    assert_eq!(revolving_slice_of(&waqf(WaqfType::TemporaryRevolving, UNIT), 7), Some(7));
    assert_eq!(revolving_slice_of(&waqf(WaqfType::Permanent, UNIT), 7), Some(0));
    assert_eq!(revolving_slice_of(&waqf(WaqfType::TemporaryConsumable, UNIT), 7), Some(0));
}

#[test]
fn slice_beyond_range_is_refused() {
    let mut w = waqf(WaqfType::Hybrid, 1);
    let mut d = details(12);
    d.contribution_tranches = Some(vec![tranche("a", i64::MAX)]);
    w.revolving_details = Some(d);
    assert_eq!(revolving_slice_of(&w, 2), None);
    assert_eq!(
        update_waqf_financials(Some(w), &donation(2), NOW),
        Err(DonationError::AmountOutOfRange)
    );
}

#[test]
fn missing_waqf_and_overflow_are_reported() {
    let e = update_waqf_financials(None, &donation(UNIT), NOW).unwrap_err();
    assert_eq!(e, DonationError::WaqfNotFound("waqf-1".to_string()));
    assert_eq!(e.message(), "Waqf not found: waqf-1");
    let mut w = waqf(WaqfType::Permanent, 500 * UNIT);
    w.financial.total_donations = i64::MAX;
    assert_eq!(
        update_waqf_financials(Some(w), &donation(UNIT), NOW),
        Err(DonationError::AmountOutOfRange)
    );
    let mut r = waqf(WaqfType::TemporaryRevolving, 500 * UNIT);
    r.revolving_details = Some(details(u32::MAX));
    assert_eq!(
        update_waqf_financials(Some(r), &donation(UNIT), NOW),
        Err(DonationError::TimestampOutOfRange)
    );
}

#[test]
fn only_new_completed_donations_change_the_waqf() {
    let w = waqf(WaqfType::Permanent, 500 * UNIT);
    let mut pending = donation(UNIT);
    pending.status = "pending".to_string();
    assert!(donation_updates_waqf(&donation(UNIT), true));
    assert!(!donation_updates_waqf(&donation(UNIT), false));
    assert!(!donation_updates_waqf(&pending, true));
    assert_eq!(handle_donation_changes(&pending, true, Some(w.clone()), NOW), Ok(None));
    assert_eq!(handle_donation_changes(&donation(UNIT), false, None, NOW), Ok(None));
    let updated = handle_donation_changes(&donation(UNIT), true, Some(w), NOW).unwrap().unwrap();
    assert_eq!(updated.financial.current_balance, 501 * UNIT);
    assert_eq!(
        handle_donation_changes(&donation(UNIT), true, None, NOW),
        Err(DonationError::WaqfNotFound("waqf-1".to_string()))
    );
}

#[test]
fn donation_record_rules() {
    assert!(validate_donation_data(&donation(10_000)).is_ok());
    assert!(assert_donation_operations(&donation(1_000_000 * UNIT)).is_ok());
    let mut d = donation(UNIT);
    d.waqf_id = " ".to_string();
    assert_eq!(validate_donation_data(&d), Err(DonationError::WaqfIdEmpty));
    assert_eq!(
        validate_donation_data(&donation(9_999)),
        Err(DonationError::AmountTooLow("USD".to_string()))
    );
    assert_eq!(
        validate_donation_data(&donation(1_000_000 * UNIT + 1)),
        Err(DonationError::AmountTooHigh("USD".to_string()))
    );
    d = donation(UNIT);
    d.currency = "usd".to_string();
    let e = validate_donation_data(&d).unwrap_err();
    assert_eq!(e, DonationError::InvalidCurrency("usd".to_string()));
    assert_eq!(
        e.message(),
        "Invalid currency: usd. Valid currencies: USD, EUR, GBP, SAR, AED, NGN, KES, GHS, ZAR, INR"
    );
    d = donation(UNIT);
    d.status = "refunded".to_string();
    assert_eq!(
        validate_donation_data(&d),
        Err(DonationError::InvalidStatus("refunded".to_string()))
    );
    d = donation(UNIT);
    d.date = String::new();
    assert_eq!(validate_donation_data(&d), Err(DonationError::DateEmpty));
    d = donation(UNIT);
    d.donor_name = Some("  ".to_string());
    assert_eq!(validate_donation_data(&d), Err(DonationError::DonorNameEmpty));
    d.donor_name = Some("n".repeat(101));
    assert_eq!(validate_donation_data(&d), Err(DonationError::DonorNameTooLong));
    d.donor_name = Some("n".repeat(100));
    assert!(validate_donation_data(&d).is_ok());
}
