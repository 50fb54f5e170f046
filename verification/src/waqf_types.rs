//! The records of the platform and their mathematical models.

use vstd::prelude::*;

verus! {

/// The view of an optional value.
pub open spec fn view_of<T: View>(o: Option<T>) -> Option<T::V> {
    match o {
        Some(x) => Some(x@),
        None => None,
    }
}

/// The views of a sequence of values, in order.
pub open spec fn views_of<T: View>(s: Seq<T>) -> Seq<T::V> {
    Seq::new(s.len(), |i: int| s[i]@)
}

/// The views of an optional list of values.
pub open spec fn views_of_opt<T: View>(o: Option<Vec<T>>) -> Option<Seq<T::V>> {
    match o {
        Some(v) => Some(views_of(v@)),
        None => None,
    }
}

/// Notification switches of a waqf.
#[derive(Clone, Copy, Debug, PartialEq, Eq, Structural)]
pub struct NotificationPreferences {
    pub contribution_reminders: bool,
    pub impact_reports: bool,
    pub financial_updates: bool,
}

/// The four kinds of endowment.
#[derive(Clone, Copy, Debug, PartialEq, Eq, Structural)]
pub enum WaqfType {
    /// Principal preserved forever, returns distributed.
    Permanent,
    /// Principal and returns spent over time.
    TemporaryConsumable,
    /// Principal returned to the donor, returns distributed.
    TemporaryRevolving,
    /// Principal split across the other three by percentage.
    Hybrid,
}

/// What happens to a tranche when it matures.
#[derive(Clone, Copy, Debug, PartialEq, Eq, Structural)]
pub enum ExpirationAction {
    /// Return the principal to the donor.
    Refund,
    /// Lock the principal for another period.
    Rollover,
    /// Convert the tranche into a permanent waqf.
    ConvertPermanent,
    /// Convert the tranche into a consumable waqf.
    ConvertConsumable,
}

/// Percentages of one cause's share that go to each treatment, fixed-point.
#[derive(Clone, Copy, Debug, PartialEq, Eq, Structural)]
pub struct HybridAllocation {
    pub permanent: Option<i64>,
    pub temporary_consumable: Option<i64>,
    pub temporary_revolving: Option<i64>,
}

/// Contact details of the donor who endowed a waqf.
#[derive(Debug, Clone, PartialEq)]
pub struct DonorProfile {
    /// Full name.
    pub name: String,
    /// Email address.
    pub email: String,
    /// Phone number.
    pub phone: String,
    /// Postal address.
    pub address: String,
}

/// Mathematical model of [`DonorProfile`].
pub ghost struct DonorProfileView {
    pub name: Seq<char>,
    pub email: Seq<char>,
    pub phone: Seq<char>,
    pub address: Seq<char>,
}

impl View for DonorProfile {
    type V = DonorProfileView;

    open spec fn view(&self) -> DonorProfileView {
        DonorProfileView {
            name: self.name@,
            email: self.email@,
            phone: self.phone@,
            address: self.address@,
        }
    }
}

/// How and how often the donor wants reports.
#[derive(Debug, Clone, PartialEq)]
pub struct ReportingPreferences {
    /// `quarterly`, `semiannually` or `yearly`.
    pub frequency: String,
    /// Each `financial` or `impact`.
    pub report_types: Vec<String>,
    /// `email`, `platform` or `both`.
    pub delivery_method: String,
}

/// Mathematical model of [`ReportingPreferences`].
pub ghost struct ReportingPreferencesView {
    pub frequency: Seq<char>,
    pub report_types: Seq<Seq<char>>,
    pub delivery_method: Seq<char>,
}

impl View for ReportingPreferences {
    type V = ReportingPreferencesView;

    open spec fn view(&self) -> ReportingPreferencesView {
        ReportingPreferencesView {
            frequency: self.frequency@,
            report_types: views_of(self.report_types@),
            delivery_method: self.delivery_method@,
        }
    }
}

/// One entry of a per-cause table: a cause and the percentage or amount recorded for it.
#[derive(Debug, Clone, PartialEq)]
pub struct CauseEntry {
    /// Identifier of the cause.
    pub cause_id: String,
    /// Fixed-point percentage or amount.
    pub value: i64,
}

/// Mathematical model of [`CauseEntry`].
pub ghost struct CauseEntryView {
    pub cause_id: Seq<char>,
    pub value: i64,
}

impl View for CauseEntry {
    type V = CauseEntryView;

    open spec fn view(&self) -> CauseEntryView {
        CauseEntryView {
            cause_id: self.cause_id@,
            value: self.value,
        }
    }
}

/// Aggregate financial figures of a waqf, all fixed-point.
#[derive(Debug, Clone, PartialEq)]
pub struct FinancialMetrics {
    /// Sum of all completed donations.
    pub total_donations: i64,
    /// Sum of all distributions.
    pub total_distributed: i64,
    /// Funds currently held.
    pub current_balance: i64,
    /// Individual investment returns, oldest first.
    pub investment_returns: Vec<i64>,
    /// Sum of investment returns.
    pub total_investment_return: i64,
    /// Growth rate.
    pub growth_rate: i64,
    /// Amount allocated to each cause, keyed by cause.
    pub cause_allocations: Vec<CauseEntry>,
}

/// Mathematical model of [`FinancialMetrics`].
pub ghost struct FinancialMetricsView {
    pub total_donations: i64,
    pub total_distributed: i64,
    pub current_balance: i64,
    pub investment_returns: Seq<i64>,
    pub total_investment_return: i64,
    pub growth_rate: i64,
    pub cause_allocations: Seq<CauseEntryView>,
}

impl View for FinancialMetrics {
    type V = FinancialMetricsView;

    open spec fn view(&self) -> FinancialMetricsView {
        FinancialMetricsView {
            total_donations: self.total_donations,
            total_distributed: self.total_distributed,
            current_balance: self.current_balance,
            investment_returns: self.investment_returns@,
            total_investment_return: self.total_investment_return,
            growth_rate: self.growth_rate,
            cause_allocations: views_of(self.cause_allocations@),
        }
    }
}

/// A spending milestone of a consumable waqf.
#[derive(Debug, Clone, PartialEq)]
pub struct Milestone {
    /// What is to be reached.
    pub description: String,
    /// When.
    pub target_date: String,
    /// How much.
    pub target_amount: i64,
}

/// Mathematical model of [`Milestone`].
pub ghost struct MilestoneView {
    pub description: Seq<char>,
    pub target_date: Seq<char>,
    pub target_amount: i64,
}

impl View for Milestone {
    type V = MilestoneView;

    open spec fn view(&self) -> MilestoneView {
        MilestoneView {
            description: self.description@,
            target_date: self.target_date@,
            target_amount: self.target_amount,
        }
    }
}

/// Type details of a waqf whose principal is spent over time.
#[derive(Debug, Clone, PartialEq)]
pub struct ConsumableWaqfDetails {
    /// `immediate`, `phased`, `milestone-based` or `ongoing`.
    pub spending_schedule: String,
    /// Start of spending.
    pub start_date: Option<String>,
    /// Time by which all funds are spent.
    pub end_date: Option<String>,
    /// Amount to distribute before completion.
    pub target_amount: Option<i64>,
    /// Number of beneficiaries to support.
    pub target_beneficiaries: Option<u32>,
    /// Milestones of milestone-based spending.
    pub milestones: Option<Vec<Milestone>>,
    /// Least amount to distribute each month.
    pub minimum_monthly_distribution: Option<i64>,
}

/// Mathematical model of [`ConsumableWaqfDetails`].
pub ghost struct ConsumableWaqfDetailsView {
    pub spending_schedule: Seq<char>,
    pub start_date: Option<Seq<char>>,
    pub end_date: Option<Seq<char>>,
    pub target_amount: Option<i64>,
    pub target_beneficiaries: Option<u32>,
    pub milestones: Option<Seq<MilestoneView>>,
    pub minimum_monthly_distribution: Option<i64>,
}

impl View for ConsumableWaqfDetails {
    type V = ConsumableWaqfDetailsView;

    open spec fn view(&self) -> ConsumableWaqfDetailsView {
        ConsumableWaqfDetailsView {
            spending_schedule: self.spending_schedule@,
            start_date: view_of(self.start_date),
            end_date: view_of(self.end_date),
            target_amount: self.target_amount,
            target_beneficiaries: self.target_beneficiaries,
            milestones: views_of_opt(self.milestones),
            minimum_monthly_distribution: self.minimum_monthly_distribution,
        }
    }
}

/// Cadence and count of installment returns.
#[derive(Debug, Clone, PartialEq)]
pub struct InstallmentSchedule {
    /// `monthly`, `quarterly` or `annually`.
    pub frequency: String,
    /// How many payments.
    pub number_of_installments: u32,
}

/// Mathematical model of [`InstallmentSchedule`].
pub ghost struct InstallmentScheduleView {
    pub frequency: Seq<char>,
    pub number_of_installments: u32,
}

impl View for InstallmentSchedule {
    type V = InstallmentScheduleView;

    open spec fn view(&self) -> InstallmentScheduleView {
        InstallmentScheduleView {
            frequency: self.frequency@,
            number_of_installments: self.number_of_installments,
        }
    }
}

/// One scheduled partial return of a tranche.
#[derive(Debug, Clone, PartialEq)]
pub struct InstallmentPayment {
    /// Identifier of the payment.
    pub id: String,
    /// Amount due.
    pub amount: i64,
    /// Due time, nanoseconds as decimal text.
    pub due_date: String,
    /// `scheduled`, `paid` or `missed`.
    pub status: String,
    /// Time of payment, if paid.
    pub paid_date: Option<String>,
}

/// Mathematical model of [`InstallmentPayment`].
pub ghost struct InstallmentPaymentView {
    pub id: Seq<char>,
    pub amount: i64,
    pub due_date: Seq<char>,
    pub status: Seq<char>,
    pub paid_date: Option<Seq<char>>,
}

impl View for InstallmentPayment {
    type V = InstallmentPaymentView;

    open spec fn view(&self) -> InstallmentPaymentView {
        InstallmentPaymentView {
            id: self.id@,
            amount: self.amount,
            due_date: self.due_date@,
            status: self.status@,
            paid_date: view_of(self.paid_date),
        }
    }
}

/// The donor's chosen action when a tranche matures.
#[derive(Debug, PartialEq)]
pub struct TrancheExpirationPreference {
    /// What to do at maturity.
    pub action: ExpirationAction,
    /// New lock period of a rollover.
    pub rollover_months: Option<u32>,
    /// Cause to roll over into.
    pub rollover_cause_id: Option<String>,
    /// Spending schedule after conversion to consumable.
    pub consumable_schedule: Option<String>,
    /// Months over which a converted tranche is spent.
    pub consumable_duration: Option<u32>,
}

/// Mathematical model of [`TrancheExpirationPreference`].
pub ghost struct TrancheExpirationPreferenceView {
    pub action: ExpirationAction,
    pub rollover_months: Option<u32>,
    pub rollover_cause_id: Option<Seq<char>>,
    pub consumable_schedule: Option<Seq<char>>,
    pub consumable_duration: Option<u32>,
}

impl View for TrancheExpirationPreference {
    type V = TrancheExpirationPreferenceView;

    open spec fn view(&self) -> TrancheExpirationPreferenceView {
        TrancheExpirationPreferenceView {
            action: self.action,
            rollover_months: self.rollover_months,
            rollover_cause_id: view_of(self.rollover_cause_id),
            consumable_schedule: view_of(self.consumable_schedule),
            consumable_duration: self.consumable_duration,
        }
    }
}

/// Record of a tranche converted into a new waqf.
#[derive(Debug, Clone, PartialEq)]
pub struct ConversionDetails {
    /// Time of conversion.
    pub converted_at: String,
    /// The waqf created.
    pub new_waqf_id: String,
    /// `permanent` or `temporary_consumable`.
    pub target_waqf_type: String,
    /// Free text.
    pub notes: Option<String>,
}

/// Mathematical model of [`ConversionDetails`].
pub ghost struct ConversionDetailsView {
    pub converted_at: Seq<char>,
    pub new_waqf_id: Seq<char>,
    pub target_waqf_type: Seq<char>,
    pub notes: Option<Seq<char>>,
}

impl View for ConversionDetails {
    type V = ConversionDetailsView;

    open spec fn view(&self) -> ConversionDetailsView {
        ConversionDetailsView {
            converted_at: self.converted_at@,
            new_waqf_id: self.new_waqf_id@,
            target_waqf_type: self.target_waqf_type@,
            notes: view_of(self.notes),
        }
    }
}

/// One separately maturing contribution to a revolving waqf's principal.
#[derive(Debug, Clone, PartialEq)]
pub struct ContributionTranche {
    /// Identifier of the tranche.
    pub id: String,
    /// Revolving part of the contribution.
    pub amount: i64,
    /// Time of contribution, nanoseconds as decimal text.
    pub contribution_date: String,
    /// Time of maturity, nanoseconds as decimal text.
    pub maturity_date: String,
    /// Whether the principal has left the tranche.
    pub is_returned: bool,
    /// Time of return.
    pub returned_date: Option<String>,
    /// `locked`, `matured`, `return_scheduled`, `returned` or `rolled_over`.
    pub status: Option<String>,
    /// Penalty deducted on early withdrawal.
    pub penalty_applied: Option<i64>,
    /// The tranche this one continues.
    pub rollover_origin_id: Option<String>,
    /// The tranche that continues this one.
    pub rollover_target_id: Option<String>,
    /// Scheduled partial returns.
    pub installment_payments: Option<Vec<InstallmentPayment>>,
    /// Action at maturity.
    pub expiration_preference: Option<TrancheExpirationPreference>,
    /// Set once the tranche is converted.
    pub conversion_details: Option<ConversionDetails>,
}

/// Mathematical model of [`ContributionTranche`].
pub ghost struct ContributionTrancheView {
    pub id: Seq<char>,
    pub amount: i64,
    pub contribution_date: Seq<char>,
    pub maturity_date: Seq<char>,
    pub is_returned: bool,
    pub returned_date: Option<Seq<char>>,
    pub status: Option<Seq<char>>,
    pub penalty_applied: Option<i64>,
    pub rollover_origin_id: Option<Seq<char>>,
    pub rollover_target_id: Option<Seq<char>>,
    pub installment_payments: Option<Seq<InstallmentPaymentView>>,
    pub expiration_preference: Option<TrancheExpirationPreferenceView>,
    pub conversion_details: Option<ConversionDetailsView>,
}

impl View for ContributionTranche {
    type V = ContributionTrancheView;

    open spec fn view(&self) -> ContributionTrancheView {
        ContributionTrancheView {
            id: self.id@,
            amount: self.amount,
            contribution_date: self.contribution_date@,
            maturity_date: self.maturity_date@,
            is_returned: self.is_returned,
            returned_date: view_of(self.returned_date),
            status: view_of(self.status),
            penalty_applied: self.penalty_applied,
            rollover_origin_id: view_of(self.rollover_origin_id),
            rollover_target_id: view_of(self.rollover_target_id),
            installment_payments: views_of_opt(self.installment_payments),
            expiration_preference: view_of(self.expiration_preference),
            conversion_details: view_of(self.conversion_details),
        }
    }
}

/// Type details of a waqf whose principal returns to the donor.
#[derive(Debug, Clone, PartialEq)]
pub struct RevolvingWaqfDetails {
    /// Lock period in months of thirty days.
    pub lock_period_months: u32,
    /// Maturity of the initial contribution.
    pub maturity_date: String,
    /// `lump_sum` or `installments`.
    pub principal_return_method: String,
    /// Schedule of installment returns.
    pub installment_schedule: Option<InstallmentSchedule>,
    /// Penalty rate, a fixed-point fraction of the amount.
    pub early_withdrawal_penalty: Option<i64>,
    /// Whether a tranche may be returned before maturity.
    pub early_withdrawal_allowed: bool,
    /// Every contribution, oldest first.
    pub contribution_tranches: Option<Vec<ContributionTranche>>,
    /// `none`, `same_cause` or `cause_pool`.
    pub auto_rollover_preference: Option<String>,
    /// Cause that rollovers target.
    pub auto_rollover_target_cause: Option<String>,
    /// Messages waiting for the donor.
    pub pending_notifications: Option<Vec<String>>,
    /// Preference given to new tranches.
    pub default_expiration_preference: Option<TrancheExpirationPreference>,
}

/// Mathematical model of [`RevolvingWaqfDetails`].
pub ghost struct RevolvingWaqfDetailsView {
    pub lock_period_months: u32,
    pub maturity_date: Seq<char>,
    pub principal_return_method: Seq<char>,
    pub installment_schedule: Option<InstallmentScheduleView>,
    pub early_withdrawal_penalty: Option<i64>,
    pub early_withdrawal_allowed: bool,
    pub contribution_tranches: Option<Seq<ContributionTrancheView>>,
    pub auto_rollover_preference: Option<Seq<char>>,
    pub auto_rollover_target_cause: Option<Seq<char>>,
    pub pending_notifications: Option<Seq<Seq<char>>>,
    pub default_expiration_preference: Option<TrancheExpirationPreferenceView>,
}

impl View for RevolvingWaqfDetails {
    type V = RevolvingWaqfDetailsView;

    open spec fn view(&self) -> RevolvingWaqfDetailsView {
        RevolvingWaqfDetailsView {
            lock_period_months: self.lock_period_months,
            maturity_date: self.maturity_date@,
            principal_return_method: self.principal_return_method@,
            installment_schedule: view_of(self.installment_schedule),
            early_withdrawal_penalty: self.early_withdrawal_penalty,
            early_withdrawal_allowed: self.early_withdrawal_allowed,
            contribution_tranches: views_of_opt(self.contribution_tranches),
            auto_rollover_preference: view_of(self.auto_rollover_preference),
            auto_rollover_target_cause: view_of(self.auto_rollover_target_cause),
            pending_notifications: views_of_opt(self.pending_notifications),
            default_expiration_preference: view_of(self.default_expiration_preference),
        }
    }
}

/// How the permanent part of a waqf is invested.
#[derive(Debug, Clone, PartialEq)]
pub struct InvestmentStrategy {
    /// Description of the allocation.
    pub asset_allocation: String,
    /// Expected yearly return.
    pub expected_annual_return: i64,
    /// `monthly`, `quarterly` or `annually`.
    pub distribution_frequency: String,
}

/// Mathematical model of [`InvestmentStrategy`].
pub ghost struct InvestmentStrategyView {
    pub asset_allocation: Seq<char>,
    pub expected_annual_return: i64,
    pub distribution_frequency: Seq<char>,
}

impl View for InvestmentStrategy {
    type V = InvestmentStrategyView;

    open spec fn view(&self) -> InvestmentStrategyView {
        InvestmentStrategyView {
            asset_allocation: self.asset_allocation@,
            expected_annual_return: self.expected_annual_return,
            distribution_frequency: self.distribution_frequency@,
        }
    }
}

/// One cause's split of a hybrid waqf.
#[derive(Debug, Clone, PartialEq)]
pub struct HybridCauseAllocation {
    /// Identifier of the cause.
    pub cause_id: String,
    /// Percentages per treatment.
    pub allocations: HybridAllocation,
}

/// Mathematical model of [`HybridCauseAllocation`].
pub ghost struct HybridCauseAllocationView {
    pub cause_id: Seq<char>,
    pub allocations: HybridAllocation,
}

impl View for HybridCauseAllocation {
    type V = HybridCauseAllocationView;

    open spec fn view(&self) -> HybridCauseAllocationView {
        HybridCauseAllocationView {
            cause_id: self.cause_id@,
            allocations: self.allocations,
        }
    }
}

/// The signed deed of a waqf.
#[derive(Debug, Clone, PartialEq)]
pub struct DeedDocument {
    /// Time of signature.
    pub signed_at: String,
    /// Signature.
    pub donor_signature: String,
    /// Version of the deed text.
    pub document_version: String,
}

/// Mathematical model of [`DeedDocument`].
pub ghost struct DeedDocumentView {
    pub signed_at: Seq<char>,
    pub donor_signature: Seq<char>,
    pub document_version: Seq<char>,
}

impl View for DeedDocument {
    type V = DeedDocumentView;

    open spec fn view(&self) -> DeedDocumentView {
        DeedDocumentView {
            signed_at: self.signed_at@,
            donor_signature: self.donor_signature@,
            document_version: self.document_version@,
        }
    }
}

/// The endowment record.
#[derive(Debug, Clone, PartialEq)]
pub struct WaqfData {
    /// Unique identifier.
    pub id: String,
    /// Display name.
    pub name: String,
    /// Purpose of the endowment.
    pub description: String,
    /// Principal at creation; never changes afterwards.
    pub waqf_asset: i64,
    /// The donor.
    pub donor: DonorProfile,
    /// Causes the waqf supports.
    pub selected_causes: Vec<String>,
    /// Percentage per cause, keyed by cause.
    pub cause_allocation: Vec<CauseEntry>,
    /// `active`, `paused`, `completed`, `inactive` or `archived`.
    pub status: String,
    /// Whether the principal has been received.
    pub is_donated: Option<bool>,
    /// Notification switches.
    pub notifications: NotificationPreferences,
    /// Reporting choices.
    pub reporting_preferences: ReportingPreferences,
    /// Aggregate figures.
    pub financial: FinancialMetrics,
    /// Kind of endowment.
    pub waqf_type: WaqfType,
    /// Whether the principal is split across treatments.
    pub is_hybrid: bool,
    /// Split per cause of a hybrid waqf.
    pub hybrid_allocations: Option<Vec<HybridCauseAllocation>>,
    /// Details of a consumable waqf.
    pub consumable_details: Option<ConsumableWaqfDetails>,
    /// Details of a revolving waqf.
    pub revolving_details: Option<RevolvingWaqfDetails>,
    /// Strategy for the permanent part.
    pub investment_strategy: Option<InvestmentStrategy>,
    /// The signed deed.
    pub deed_document: Option<DeedDocument>,
    /// Identity of the creator; never changes.
    pub created_by: String,
    /// Time of creation; never changes.
    pub created_at: String,
    /// Time of the last change.
    pub updated_at: Option<String>,
    /// Time of the last donation.
    pub last_contribution_date: Option<String>,
    /// Time of the next planned donation.
    pub next_contribution_date: Option<String>,
    /// Time of the next report.
    pub next_report_date: Option<String>,
}

/// Mathematical model of [`WaqfData`].
pub ghost struct WaqfDataView {
    pub id: Seq<char>,
    pub name: Seq<char>,
    pub description: Seq<char>,
    pub waqf_asset: i64,
    pub donor: DonorProfileView,
    pub selected_causes: Seq<Seq<char>>,
    pub cause_allocation: Seq<CauseEntryView>,
    pub status: Seq<char>,
    pub is_donated: Option<bool>,
    pub notifications: NotificationPreferences,
    pub reporting_preferences: ReportingPreferencesView,
    pub financial: FinancialMetricsView,
    pub waqf_type: WaqfType,
    pub is_hybrid: bool,
    pub hybrid_allocations: Option<Seq<HybridCauseAllocationView>>,
    pub consumable_details: Option<ConsumableWaqfDetailsView>,
    pub revolving_details: Option<RevolvingWaqfDetailsView>,
    pub investment_strategy: Option<InvestmentStrategyView>,
    pub deed_document: Option<DeedDocumentView>,
    pub created_by: Seq<char>,
    pub created_at: Seq<char>,
    pub updated_at: Option<Seq<char>>,
    pub last_contribution_date: Option<Seq<char>>,
    pub next_contribution_date: Option<Seq<char>>,
    pub next_report_date: Option<Seq<char>>,
}

impl View for WaqfData {
    type V = WaqfDataView;

    open spec fn view(&self) -> WaqfDataView {
        WaqfDataView {
            id: self.id@,
            name: self.name@,
            description: self.description@,
            waqf_asset: self.waqf_asset,
            donor: self.donor@,
            selected_causes: views_of(self.selected_causes@),
            cause_allocation: views_of(self.cause_allocation@),
            status: self.status@,
            is_donated: self.is_donated,
            notifications: self.notifications,
            reporting_preferences: self.reporting_preferences@,
            financial: self.financial@,
            waqf_type: self.waqf_type,
            is_hybrid: self.is_hybrid,
            hybrid_allocations: views_of_opt(self.hybrid_allocations),
            consumable_details: view_of(self.consumable_details),
            revolving_details: view_of(self.revolving_details),
            investment_strategy: view_of(self.investment_strategy),
            deed_document: view_of(self.deed_document),
            created_by: self.created_by@,
            created_at: self.created_at@,
            updated_at: view_of(self.updated_at),
            last_contribution_date: view_of(self.last_contribution_date),
            next_contribution_date: view_of(self.next_contribution_date),
            next_report_date: view_of(self.next_report_date),
        }
    }
}

/// A stored waqf document.
#[derive(Debug, Clone, PartialEq)]
pub struct WaqfDoc {
    /// The record.
    pub data: WaqfData,
}

/// Mathematical model of [`WaqfDoc`].
pub ghost struct WaqfDocView {
    pub data: WaqfDataView,
}

impl View for WaqfDoc {
    type V = WaqfDocView;

    open spec fn view(&self) -> WaqfDocView {
        WaqfDocView {
            data: self.data@,
        }
    }
}

/// A settled donation.
#[derive(Debug, Clone, PartialEq)]
pub struct DonationData {
    /// Identifier.
    pub id: String,
    /// The waqf donated to.
    pub waqf_id: String,
    /// Time of the donation.
    pub date: String,
    /// Amount donated.
    pub amount: i64,
    /// Currency code.
    pub currency: String,
    /// `completed`, `pending` or `failed`.
    pub status: String,
    /// Payment reference.
    pub transaction_id: Option<String>,
    /// Name of the donor.
    pub donor_name: Option<String>,
    /// Lock period for this contribution, overriding the waqf default.
    pub lock_period_months: Option<u32>,
}

/// Mathematical model of [`DonationData`].
pub ghost struct DonationDataView {
    pub id: Seq<char>,
    pub waqf_id: Seq<char>,
    pub date: Seq<char>,
    pub amount: i64,
    pub currency: Seq<char>,
    pub status: Seq<char>,
    pub transaction_id: Option<Seq<char>>,
    pub donor_name: Option<Seq<char>>,
    pub lock_period_months: Option<u32>,
}

impl View for DonationData {
    type V = DonationDataView;

    open spec fn view(&self) -> DonationDataView {
        DonationDataView {
            id: self.id@,
            waqf_id: self.waqf_id@,
            date: self.date@,
            amount: self.amount,
            currency: self.currency@,
            status: self.status@,
            transaction_id: view_of(self.transaction_id),
            donor_name: view_of(self.donor_name),
            lock_period_months: self.lock_period_months,
        }
    }
}

/// A stored donation document.
#[derive(Debug, Clone, PartialEq)]
pub struct DonationDoc {
    /// The record.
    pub data: DonationData,
}

/// Mathematical model of [`DonationDoc`].
pub ghost struct DonationDocView {
    pub data: DonationDataView,
}

impl View for DonationDoc {
    type V = DonationDocView;

    open spec fn view(&self) -> DonationDocView {
        DonationDocView {
            data: self.data@,
        }
    }
}

/// A distribution from a waqf to a cause.
#[derive(Debug, Clone, PartialEq)]
pub struct AllocationData {
    /// Identifier.
    pub id: String,
    /// The waqf distributing.
    pub waqf_id: String,
    /// The cause receiving.
    pub cause_id: String,
    /// Amount allocated.
    pub amount: i64,
    /// Why.
    pub rationale: String,
    /// When.
    pub allocated_at: String,
}

/// Mathematical model of [`AllocationData`].
pub ghost struct AllocationDataView {
    pub id: Seq<char>,
    pub waqf_id: Seq<char>,
    pub cause_id: Seq<char>,
    pub amount: i64,
    pub rationale: Seq<char>,
    pub allocated_at: Seq<char>,
}

impl View for AllocationData {
    type V = AllocationDataView;

    open spec fn view(&self) -> AllocationDataView {
        AllocationDataView {
            id: self.id@,
            waqf_id: self.waqf_id@,
            cause_id: self.cause_id@,
            amount: self.amount,
            rationale: self.rationale@,
            allocated_at: self.allocated_at@,
        }
    }
}

/// A stored allocation document.
#[derive(Debug, Clone, PartialEq)]
pub struct AllocationDoc {
    /// The record.
    pub data: AllocationData,
}

/// Mathematical model of [`AllocationDoc`].
pub ghost struct AllocationDocView {
    pub data: AllocationDataView,
}

impl View for AllocationDoc {
    type V = AllocationDocView;

    open spec fn view(&self) -> AllocationDocView {
        AllocationDocView {
            data: self.data@,
        }
    }
}

/// An audit entry about a waqf.
#[derive(Debug, Clone, PartialEq)]
pub struct WaqfAuditData {
    /// The waqf concerned.
    pub waqf_id: String,
    /// What was done.
    pub action: String,
    /// Free text.
    pub details: String,
    /// When, in nanoseconds.
    pub timestamp: u64,
    /// Who.
    pub performed_by: String,
}

/// Mathematical model of [`WaqfAuditData`].
pub ghost struct WaqfAuditDataView {
    pub waqf_id: Seq<char>,
    pub action: Seq<char>,
    pub details: Seq<char>,
    pub timestamp: u64,
    pub performed_by: Seq<char>,
}

impl View for WaqfAuditData {
    type V = WaqfAuditDataView;

    open spec fn view(&self) -> WaqfAuditDataView {
        WaqfAuditDataView {
            waqf_id: self.waqf_id@,
            action: self.action@,
            details: self.details@,
            timestamp: self.timestamp,
            performed_by: self.performed_by@,
        }
    }
}

/// A stored audit document.
#[derive(Debug, Clone, PartialEq)]
pub struct WaqfAudit {
    /// The entry.
    pub data: WaqfAuditData,
}

/// Mathematical model of [`WaqfAudit`].
pub ghost struct WaqfAuditView {
    pub data: WaqfAuditDataView,
}

impl View for WaqfAudit {
    type V = WaqfAuditView;

    open spec fn view(&self) -> WaqfAuditView {
        WaqfAuditView {
            data: self.data@,
        }
    }
}

/// A copy of an optional text.
pub fn clone_text(o: &Option<String>) -> (r: Option<String>)
    ensures
        view_of(r) == view_of(*o),
{
    match o {
        Some(s) => Some(s.clone()),
        None => None,
    }
}

impl Clone for TrancheExpirationPreference {
    fn clone(&self) -> (r: Self)
        ensures
            r@ == self@,
    {
        TrancheExpirationPreference {
            action: self.action,
            rollover_months: self.rollover_months,
            rollover_cause_id: clone_text(&self.rollover_cause_id),
            consumable_schedule: clone_text(&self.consumable_schedule),
            consumable_duration: self.consumable_duration,
        }
    }
}

/// A copy of an optional expiration preference.
pub fn clone_preference(o: &Option<TrancheExpirationPreference>) -> (r: Option<
    TrancheExpirationPreference,
>)
    ensures
        view_of(r) == view_of(*o),
{
    match o {
        Some(p) => Some(p.clone()),
        None => None,
    }
}

/// Whether two optional texts are the same.
pub fn same_optional_text(a: &Option<String>, b: &Option<String>) -> (r: bool)
    ensures
        r == (view_of(*a) == view_of(*b)),
{
    match (a, b) {
        (Some(x), Some(y)) => *x == *y,
        (None, None) => true,
        _ => false,
    }
}

/// Whether two lists of texts are the same.
pub fn same_texts(a: &Vec<String>, b: &Vec<String>) -> (r: bool)
    ensures
        r == (views_of(a@) == views_of(b@)),
{
    if a.len() != b.len() {
        assert(views_of(a@).len() != views_of(b@).len());
        return false;
    }
    let mut i: usize = 0;
    while i < a.len()
        invariant
            i <= a@.len(),
            a@.len() == b@.len(),
            forall|j: int| 0 <= j < i ==> (#[trigger] a@[j])@ == b@[j]@,
        decreases a@.len() - i,
    {
        if a[i] != b[i] {
            assert(views_of(a@)[i as int] != views_of(b@)[i as int]);
            return false;
        }
        i = i + 1;
    }
    assert(views_of(a@) =~= views_of(b@));
    true
}

/// Whether two lists of amounts are the same.
pub fn same_amounts(a: &Vec<i64>, b: &Vec<i64>) -> (r: bool)
    ensures
        r == (a@ == b@),
{
    if a.len() != b.len() {
        return false;
    }
    let mut i: usize = 0;
    while i < a.len()
        invariant
            i <= a@.len(),
            a@.len() == b@.len(),
            forall|j: int| 0 <= j < i ==> a@[j] == b@[j],
        decreases a@.len() - i,
    {
        if a[i] != b[i] {
            return false;
        }
        i = i + 1;
    }
    assert(a@ =~= b@);
    true
}

} // verus!
