//! Donations: the rules on the record, and what a completed donation does
//! to its waqf.

use vstd::prelude::*;
use crate::fixed::fits_i64;
use crate::text::{decimal, is_blank, is_blank_text, is_text, u64_to_string, utf8_len};
use crate::tranche_creation::{
    append_tranche, lock_tranche, locked_tranche, maturity_after, revolving_slice,
    revolving_slice_of, slice_representable, waqf_tranches, with_tranche,
};
use crate::waqf_types::{
    clone_preference, DonationData, DonationDataView, FinancialMetricsView,
    RevolvingWaqfDetailsView, view_of, WaqfData, WaqfDataView,
};
use crate::waqf_utils::balance_consistent;

verus! {

/// Why a donation could not be applied to its waqf.
#[derive(Debug, Clone, PartialEq)]
pub enum DonationError {
    /// The store holds no waqf with the donation's waqf identifier.
    WaqfNotFound(String),
    /// A total, a balance or the revolving part of the donation cannot be
    /// represented.
    AmountOutOfRange,
    /// The maturity of the new tranche lies beyond the last representable
    /// nanosecond.
    TimestampOutOfRange,
    /// The donation names no waqf.
    WaqfIdEmpty,
    /// The amount is below one hundredth; holds the currency.
    AmountTooLow(String),
    /// The amount is above one million; holds the currency.
    AmountTooHigh(String),
    /// The currency is not one of the accepted currencies.
    InvalidCurrency(String),
    /// The status is not `completed`, `pending` or `failed`.
    InvalidStatus(String),
    /// The donation has no date.
    DateEmpty,
    /// A donor name is given but blank.
    DonorNameEmpty,
    /// The donor name is longer than 100 bytes.
    DonorNameTooLong,
}

/// Mathematical model of [`DonationError`].
pub ghost enum DonationErrorView {
    WaqfNotFound(Seq<char>),
    AmountOutOfRange,
    TimestampOutOfRange,
    WaqfIdEmpty,
    AmountTooLow(Seq<char>),
    AmountTooHigh(Seq<char>),
    InvalidCurrency(Seq<char>),
    InvalidStatus(Seq<char>),
    DateEmpty,
    DonorNameEmpty,
    DonorNameTooLong,
}

impl View for DonationError {
    type V = DonationErrorView;

    open spec fn view(&self) -> DonationErrorView {
        match self {
            DonationError::WaqfNotFound(id) => DonationErrorView::WaqfNotFound(id@),
            DonationError::AmountOutOfRange => DonationErrorView::AmountOutOfRange,
            DonationError::TimestampOutOfRange => DonationErrorView::TimestampOutOfRange,
            DonationError::WaqfIdEmpty => DonationErrorView::WaqfIdEmpty,
            DonationError::AmountTooLow(c) => DonationErrorView::AmountTooLow(c@),
            DonationError::AmountTooHigh(c) => DonationErrorView::AmountTooHigh(c@),
            DonationError::InvalidCurrency(c) => DonationErrorView::InvalidCurrency(c@),
            DonationError::InvalidStatus(c) => DonationErrorView::InvalidStatus(c@),
            DonationError::DateEmpty => DonationErrorView::DateEmpty,
            DonationError::DonorNameEmpty => DonationErrorView::DonorNameEmpty,
            DonationError::DonorNameTooLong => DonationErrorView::DonorNameTooLong,
        }
    }
}

/// Identifier of the tranche that a donation made at `now` adds to a waqf.
pub open spec fn contribution_id(waqf_id: Seq<char>, now: u64) -> Seq<char> {
    "tranche_"@ + waqf_id + "_"@ + decimal(now as nat)
}

/// The lock period of a donation's tranche: the donation's own where it
/// names one, else the waqf's.
pub open spec fn effective_lock_months(d: RevolvingWaqfDetailsView, donation: DonationDataView) -> u32 {
    match donation.lock_period_months {
        Some(months) => months,
        None => d.lock_period_months,
    }
}

/// Whether a donation adds a tranche: its revolving part is positive and the
/// waqf has revolving details to hold it.
pub open spec fn adds_tranche(w: WaqfDataView, donation: DonationDataView) -> bool {
    revolving_slice(w, donation.amount) > 0 && w.revolving_details is Some
}

/// The reason, if any, why a completed donation cannot be applied at `now`
/// to the waqf found for it: there is no such waqf, or a value to be written
/// cannot be represented.
pub open spec fn donation_error(w: Option<WaqfDataView>, donation: DonationDataView, now: u64) -> Option<
    DonationErrorView,
> {
    match w {
        None => Some(DonationErrorView::WaqfNotFound(donation.waqf_id)),
        Some(w) => {
            if !fits_i64(w.financial.total_donations + donation.amount) || !fits_i64(
                w.financial.current_balance + donation.amount,
            ) || !slice_representable(w, donation.amount) {
                Some(DonationErrorView::AmountOutOfRange)
            } else if adds_tranche(w, donation) && maturity_after(
                now,
                effective_lock_months(w.revolving_details->0, donation),
            ) > u64::MAX {
                Some(DonationErrorView::TimestampOutOfRange)
            } else {
                None
            }
        },
    }
}

/// The waqf after a completed donation has been applied at `now`.
///
/// The amount is added to the total of donations and to the balance; the
/// waqf is stamped as updated and contributed to at `now`; and where the
/// donation has a revolving part, a tranche of that amount, locked from `now`
/// with the waqf's default expiration preference, is appended.
pub open spec fn waqf_after_donation(w: WaqfDataView, donation: DonationDataView, now: u64) -> WaqfDataView {
    WaqfDataView {
        financial: FinancialMetricsView {
            total_donations: (w.financial.total_donations + donation.amount) as i64,
            current_balance: (w.financial.current_balance + donation.amount) as i64,
            ..w.financial
        },
        updated_at: Some(decimal(now as nat)),
        last_contribution_date: Some(decimal(now as nat)),
        revolving_details: if adds_tranche(w, donation) {
            let d = w.revolving_details->0;
            Some(
                with_tranche(
                    d,
                    locked_tranche(
                        contribution_id(donation.waqf_id, now),
                        revolving_slice(w, donation.amount) as i64,
                        now,
                        effective_lock_months(d, donation),
                        d.default_expiration_preference,
                    ),
                ),
            )
        } else {
            w.revolving_details
        },
        ..w
    }
}

/// Applies a completed donation to the waqf it names: `waqf` is what the
/// store holds under the donation's waqf identifier, `now` the current time.
///
/// Fails for the reason that [`donation_error`] gives, else returns the waqf
/// that [`waqf_after_donation`] describes, to be written back.
pub fn update_waqf_financials(waqf: Option<WaqfData>, donation: &DonationData, now: u64) -> (r:
    Result<WaqfData, DonationError>)
    ensures
        match donation_error(view_of(waqf), donation@, now) {
            Some(e) => r is Err && r->Err_0@ == e,
            None => r is Ok && r->Ok_0@ == waqf_after_donation(waqf->0@, donation@, now),
        },
{
    let mut waqf = match waqf {
        Some(w) => w,
        None => {
            return Err(DonationError::WaqfNotFound(donation.waqf_id.clone()));
        },
    };
    let ghost w = waqf@;
    let total = match waqf.financial.total_donations.checked_add(donation.amount) {
        Some(v) => v,
        None => {
            return Err(DonationError::AmountOutOfRange);
        },
    };
    let balance = match waqf.financial.current_balance.checked_add(donation.amount) {
        Some(v) => v,
        None => {
            return Err(DonationError::AmountOutOfRange);
        },
    };
    let slice = match revolving_slice_of(&waqf, donation.amount) {
        Some(v) => v,
        None => {
            return Err(DonationError::AmountOutOfRange);
        },
    };
    if slice > 0 {
        match &mut waqf.revolving_details {
            Some(details) => {
                let months: u32 = match donation.lock_period_months {
                    Some(m) => m,
                    None => details.lock_period_months,
                };
                let mut id = String::from_str("tranche_");
                id.append(donation.waqf_id.as_str());
                id.append("_");
                id.append(u64_to_string(now).as_str());
                let tranche = match lock_tranche(
                    id,
                    slice,
                    now,
                    months,
                    clone_preference(&details.default_expiration_preference),
                ) {
                    Some(t) => t,
                    None => {
                        return Err(DonationError::TimestampOutOfRange);
                    },
                };
                append_tranche(details, tranche);
            },
            None => {},
        }
    }
    waqf.financial.total_donations = total;
    waqf.financial.current_balance = balance;
    waqf.updated_at = Some(u64_to_string(now));
    waqf.last_contribution_date = Some(u64_to_string(now));
    Ok(waqf)
}

/// Whether a written donation changes its waqf: only a newly created
/// donation whose status is `completed` does.
pub open spec fn donation_counts(donation: DonationDataView, is_new: bool) -> bool {
    is_new && donation.status == "completed"@
}

/// Whether a written donation changes its waqf, so that the waqf has to be
/// loaded and handed to [`handle_donation_changes`].
pub fn donation_updates_waqf(donation: &DonationData, is_new: bool) -> (r: bool)
    ensures
        r == donation_counts(donation@, is_new),
{
    is_new && is_text(&donation.status, "completed")
}

/// Handles a written donation: a newly completed one is applied to its waqf
/// and the updated waqf returned for writing; any other leaves the waqf
/// alone and returns nothing.
pub fn handle_donation_changes(
    donation: &DonationData,
    is_new: bool,
    waqf: Option<WaqfData>,
    now: u64,
) -> (r: Result<Option<WaqfData>, DonationError>)
    ensures
        !donation_counts(donation@, is_new) ==> r is Ok && r->Ok_0 is None,
        donation_counts(donation@, is_new) ==> match donation_error(
            view_of(waqf),
            donation@,
            now,
        ) {
            Some(e) => r is Err && r->Err_0@ == e,
            None => r is Ok && r->Ok_0 is Some && r->Ok_0->0@ == waqf_after_donation(
                waqf->0@,
                donation@,
                now,
            ),
        },
{
    if donation_updates_waqf(donation, is_new) {
        match update_waqf_financials(waqf, donation, now) {
            Ok(updated) => Ok(Some(updated)),
            Err(e) => Err(e),
        }
    } else {
        Ok(None)
    }
}

/// A donation that is applied raises the total of donations and the balance
/// by its amount, leaves the principal alone, and adds at most one tranche.
pub proof fn law_donation_raises_balance(w: WaqfDataView, donation: DonationDataView, now: u64)
    requires
        donation_error(Some(w), donation, now) is None,
    ensures
        ({
            let after = waqf_after_donation(w, donation, now);
            &&& after.financial.current_balance == w.financial.current_balance + donation.amount
            &&& after.financial.total_donations == w.financial.total_donations + donation.amount
            &&& after.waqf_asset == w.waqf_asset
            &&& after.created_by == w.created_by
            &&& after.created_at == w.created_at
            &&& adds_tranche(w, donation) ==> waqf_tranches(after)
                == waqf_tranches(w).push(
                waqf_tranches(after).last(),
            ) && waqf_tranches(after).last().amount == revolving_slice(
                w,
                donation.amount,
            )
            &&& !adds_tranche(w, donation) ==> after.revolving_details == w.revolving_details
        }),
{
    if adds_tranche(w, donation) {
        let after = waqf_after_donation(w, donation, now);
        let before = waqf_tranches(w);
        assert(waqf_tranches(after) =~= before.push(
            waqf_tranches(after).last(),
        ));
    }
}

/// Where a waqf's balance agrees with its other figures, it still does
/// after a donation.
pub proof fn law_donation_keeps_books_consistent(
    w: WaqfDataView,
    donation: DonationDataView,
    now: u64,
)
    requires
        donation_error(Some(w), donation, now) is None,
        balance_consistent(w.financial),
    ensures
        balance_consistent(waqf_after_donation(w, donation, now).financial),
{
}

/// Least amount of a donation: one hundredth of a whole unit.
pub const MIN_DONATION_AMOUNT: i64 = 10_000;

/// Greatest amount of a donation: one million whole units.
pub const MAX_DONATION_AMOUNT: i64 = 1_000_000_000_000;

/// Greatest length of a donor name, in bytes.
pub const MAX_DONOR_NAME_LENGTH: usize = 100;

/// Whether a text is an accepted currency code.
pub open spec fn valid_currency(s: Seq<char>) -> bool {
    s == "USD"@ || s == "EUR"@ || s == "GBP"@ || s == "SAR"@ || s == "AED"@ || s == "NGN"@ || s
        == "KES"@ || s == "GHS"@ || s == "ZAR"@ || s == "INR"@
}

/// Whether a text is a donation status.
pub open spec fn valid_donation_status(s: Seq<char>) -> bool {
    s == "completed"@ || s == "pending"@ || s == "failed"@
}

/// The first rule that a donation record violates, if any: it names a waqf,
/// its amount lies between one hundredth and one million, currency and
/// status are known, it has a date, and a donor name that is given is not
/// blank and at most 100 bytes long.
pub open spec fn donation_data_error(d: DonationDataView) -> Option<DonationErrorView> {
    if is_blank(d.waqf_id) {
        Some(DonationErrorView::WaqfIdEmpty)
    } else if d.amount < MIN_DONATION_AMOUNT {
        Some(DonationErrorView::AmountTooLow(d.currency))
    } else if d.amount > MAX_DONATION_AMOUNT {
        Some(DonationErrorView::AmountTooHigh(d.currency))
    } else if !valid_currency(d.currency) {
        Some(DonationErrorView::InvalidCurrency(d.currency))
    } else if !valid_donation_status(d.status) {
        Some(DonationErrorView::InvalidStatus(d.status))
    } else if is_blank(d.date) {
        Some(DonationErrorView::DateEmpty)
    } else if d.donor_name is Some && is_blank(d.donor_name->0) {
        Some(DonationErrorView::DonorNameEmpty)
    } else if d.donor_name is Some && utf8_len(d.donor_name->0) > MAX_DONOR_NAME_LENGTH {
        Some(DonationErrorView::DonorNameTooLong)
    } else {
        None
    }
}

fn is_currency(s: &String) -> (r: bool)
    ensures
        r == valid_currency(s@),
{
    is_text(s, "USD") || is_text(s, "EUR") || is_text(s, "GBP") || is_text(s, "SAR") || is_text(
        s,
        "AED",
    ) || is_text(s, "NGN") || is_text(s, "KES") || is_text(s, "GHS") || is_text(s, "ZAR")
        || is_text(s, "INR")
}

/// Validates a donation record.
pub fn validate_donation_data(donation: &DonationData) -> (r: Result<(), DonationError>)
    ensures
        match donation_data_error(donation@) {
            None => r is Ok,
            Some(e) => r is Err && r->Err_0@ == e,
        },
{
    if is_blank_text(donation.waqf_id.as_str()) {
        return Err(DonationError::WaqfIdEmpty);
    }
    if donation.amount < MIN_DONATION_AMOUNT {
        return Err(DonationError::AmountTooLow(donation.currency.clone()));
    }
    if donation.amount > MAX_DONATION_AMOUNT {
        return Err(DonationError::AmountTooHigh(donation.currency.clone()));
    }
    if !is_currency(&donation.currency) {
        return Err(DonationError::InvalidCurrency(donation.currency.clone()));
    }
    if !is_text(&donation.status, "completed") && !is_text(&donation.status, "pending")
        && !is_text(&donation.status, "failed") {
        return Err(DonationError::InvalidStatus(donation.status.clone()));
    }
    if is_blank_text(donation.date.as_str()) {
        return Err(DonationError::DateEmpty);
    }
    match &donation.donor_name {
        Some(name) => {
            if is_blank_text(name.as_str()) {
                return Err(DonationError::DonorNameEmpty);
            }
            if name.as_str().len() > MAX_DONOR_NAME_LENGTH {
                return Err(DonationError::DonorNameTooLong);
            }
        },
        None => {},
    }
    Ok(())
}

/// Checks a proposed write to the donation collection.
pub fn assert_donation_operations(donation: &DonationData) -> (r: Result<(), DonationError>)
    ensures
        match donation_data_error(donation@) {
            None => r is Ok,
            Some(e) => r is Err && r->Err_0@ == e,
        },
{
    validate_donation_data(donation)
}

/// Checks the deletion of a donation, which is always allowed.
pub fn assert_donation_deletion() -> (r: Result<(), DonationError>)
    ensures
        r is Ok,
{
    Ok(())
}

impl DonationErrorView {
    /// The message that describes the error.
    pub open spec fn text(self) -> Seq<char> {
        match self {
            DonationErrorView::WaqfNotFound(x) => "Waqf not found: "@ + x,
            DonationErrorView::AmountOutOfRange => "Amount lies beyond the representable range"@,
            DonationErrorView::TimestampOutOfRange => "Timestamp lies beyond the representable range"@,
            DonationErrorView::WaqfIdEmpty => "Waqf ID cannot be empty"@,
            DonationErrorView::AmountTooLow(x) => "Donation amount too low: minimum 0.01 "@ + x,
            DonationErrorView::AmountTooHigh(x) => "Donation amount too high: maximum 1000000 "@ + x,
            DonationErrorView::InvalidCurrency(x) => "Invalid currency: "@ + x + ". Valid currencies: USD, EUR, GBP, SAR, AED, NGN, KES, GHS, ZAR, INR"@,
            DonationErrorView::InvalidStatus(x) => "Invalid donation status: "@ + x + ". Valid statuses: completed, pending, failed"@,
            DonationErrorView::DateEmpty => "Donation date cannot be empty"@,
            DonationErrorView::DonorNameEmpty => "Donor name cannot be empty if provided"@,
            DonationErrorView::DonorNameTooLong => "Donor name too long: maximum 100 characters"@,
        }
    }
}

impl DonationError {
    /// Describes the error in words, with the values that caused it.
    pub fn message(&self) -> (s: String)
        ensures
            s@ == self@.text(),
    {
        match self {
            DonationError::WaqfNotFound(x) => {
                let mut s = String::from_str("Waqf not found: ");
                s.append(x.as_str());
                s
            },
            DonationError::AmountOutOfRange => String::from_str("Amount lies beyond the representable range"),
            DonationError::TimestampOutOfRange => String::from_str("Timestamp lies beyond the representable range"),
            DonationError::WaqfIdEmpty => String::from_str("Waqf ID cannot be empty"),
            DonationError::AmountTooLow(x) => {
                let mut s = String::from_str("Donation amount too low: minimum 0.01 ");
                s.append(x.as_str());
                s
            },
            DonationError::AmountTooHigh(x) => {
                let mut s = String::from_str("Donation amount too high: maximum 1000000 ");
                s.append(x.as_str());
                s
            },
            DonationError::InvalidCurrency(x) => {
                let mut s = String::from_str("Invalid currency: ");
                s.append(x.as_str());
                s.append(". Valid currencies: USD, EUR, GBP, SAR, AED, NGN, KES, GHS, ZAR, INR");
                s
            },
            DonationError::InvalidStatus(x) => {
                let mut s = String::from_str("Invalid donation status: ");
                s.append(x.as_str());
                s.append(". Valid statuses: completed, pending, failed");
                s
            },
            DonationError::DateEmpty => String::from_str("Donation date cannot be empty"),
            DonationError::DonorNameEmpty => String::from_str("Donor name cannot be empty if provided"),
            DonationError::DonorNameTooLong => String::from_str("Donor name too long: maximum 100 characters"),
        }
    }
}

} // verus!
