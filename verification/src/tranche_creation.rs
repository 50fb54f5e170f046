//! New tranches: how much of a contribution revolves, and how it is locked.

use vstd::prelude::*;
use crate::fixed::{fits_i64, mul_div, mul_div_floor, NANOS_PER_MONTH, PERCENT_FULL};
use crate::text::{decimal, lemma_decimal_digits, lemma_parse_decimal, u64_to_string};
use crate::tranche_hooks::{preference_violations, tranche_violations};
use crate::vocabulary::{lemma_tranche_status_text, TrancheStatus};
use crate::waqf_types::{
    ContributionTranche, ContributionTrancheView, HybridCauseAllocation, HybridCauseAllocationView,
    RevolvingWaqfDetails, RevolvingWaqfDetailsView, TrancheExpirationPreference,
    TrancheExpirationPreferenceView, view_of, views_of, WaqfData, WaqfDataView, WaqfType,
};

verus! {

/// Maturity of a tranche locked at `now` for a number of thirty-day months.
pub open spec fn maturity_after(now: u64, months: u32) -> int {
    now + months * NANOS_PER_MONTH
}

/// A freshly created tranche: locked at `now` for a number of months, not
/// returned, with no penalty, rollover links, payments or conversion record.
pub open spec fn locked_tranche(
    id: Seq<char>,
    amount: i64,
    now: u64,
    months: u32,
    preference: Option<TrancheExpirationPreferenceView>,
) -> ContributionTrancheView {
    ContributionTrancheView {
        id,
        amount,
        contribution_date: decimal(now as nat),
        maturity_date: decimal(maturity_after(now, months) as nat),
        is_returned: false,
        returned_date: None,
        status: Some(TrancheStatus::Locked.text()),
        penalty_applied: None,
        rollover_origin_id: None,
        rollover_target_id: None,
        installment_payments: None,
        expiration_preference: preference,
        conversion_details: None,
    }
}

/// Creates a tranche locked at `now` for a number of months; `None` exactly
/// when its maturity is not representable.
pub fn lock_tranche(
    id: String,
    amount: i64,
    now: u64,
    months: u32,
    preference: Option<TrancheExpirationPreference>,
) -> (r: Option<ContributionTranche>)
    ensures
        match r {
            Some(t) => maturity_after(now, months) <= u64::MAX && t@ == locked_tranche(
                id@,
                amount,
                now,
                months,
                view_of(preference),
            ),
            None => maturity_after(now, months) > u64::MAX,
        },
{
    assert(months * NANOS_PER_MONTH <= 0xffff_ffff * 2_592_000_000_000_000) by (nonlinear_arith)
        requires
            0 <= months <= 0xffff_ffff,
            NANOS_PER_MONTH == 2_592_000_000_000_000,
    ;
    let lock: u128 = (months as u128) * (NANOS_PER_MONTH as u128);
    let matures: u128 = (now as u128) + lock;
    if matures > u64::MAX as u128 {
        return None;
    }
    Some(
        ContributionTranche {
            id,
            amount,
            contribution_date: u64_to_string(now),
            maturity_date: u64_to_string(matures as u64),
            is_returned: false,
            returned_date: None,
            status: Some(String::from_str(TrancheStatus::Locked.as_str())),
            penalty_applied: None,
            rollover_origin_id: None,
            rollover_target_id: None,
            installment_payments: None,
            expiration_preference: preference,
            conversion_details: None,
        },
    )
}

/// The tranches of a revolving waqf, oldest first.
pub open spec fn tranches_of(d: RevolvingWaqfDetailsView) -> Seq<ContributionTrancheView> {
    match d.contribution_tranches {
        Some(ts) => ts,
        None => Seq::empty(),
    }
}

/// The tranches that a waqf holds.
pub open spec fn waqf_tranches(w: WaqfDataView) -> Seq<ContributionTrancheView> {
    match w.revolving_details {
        Some(d) => tranches_of(d),
        None => Seq::empty(),
    }
}

/// The sum of the amounts of a list of tranches.
pub open spec fn tranche_total(ts: Seq<ContributionTrancheView>) -> int
    decreases ts.len(),
{
    if ts.len() == 0 {
        0
    } else {
        tranche_total(ts.drop_last()) + ts.last().amount
    }
}

/// The percentage of one cause's share that revolves; zero where none is set.
pub open spec fn revolving_percent(a: HybridCauseAllocationView) -> int {
    match a.allocations.temporary_revolving {
        Some(p) => p as int,
        None => 0,
    }
}

/// The sum of the revolving percentages of a list of hybrid allocations.
pub open spec fn revolving_percent_total(allocations: Seq<HybridCauseAllocationView>) -> int
    decreases allocations.len(),
{
    if allocations.len() == 0 {
        0
    } else {
        revolving_percent_total(allocations.drop_last()) + revolving_percent(allocations.last())
    }
}

/// The average revolving percentage over the causes of a hybrid waqf, rounded
/// down; zero where there is no cause.
pub open spec fn average_revolving_percent(allocations: Seq<HybridCauseAllocationView>) -> int {
    if allocations.len() == 0 {
        0
    } else {
        revolving_percent_total(allocations) / (allocations.len() as int)
    }
}

/// Whether the revolving part of a hybrid waqf is read off its tranches: it
/// is where the principal and the sum of the tranches are both positive.
pub open spec fn slice_follows_tranches(w: WaqfDataView) -> bool {
    w.waqf_asset > 0 && tranche_total(waqf_tranches(w)) > 0
}

/// The revolving-eligible part of an amount contributed to a waqf.
///
/// All of it for a revolving waqf and nothing for a permanent or consumable
/// one. For a hybrid waqf, the amount in the proportion of the existing
/// tranches to the principal, where both are positive; else the average
/// revolving percentage of the hybrid allocations; else nothing. Quotients
/// are rounded down.
pub open spec fn revolving_slice(w: WaqfDataView, amount: i64) -> int {
    match w.waqf_type {
        WaqfType::TemporaryRevolving => amount as int,
        WaqfType::Hybrid => {
            if slice_follows_tranches(w) {
                mul_div(amount as int, tranche_total(waqf_tranches(w)), w.waqf_asset as int)
            } else {
                match w.hybrid_allocations {
                    Some(allocations) => mul_div(
                        amount as int,
                        average_revolving_percent(allocations),
                        PERCENT_FULL as int,
                    ),
                    None => 0,
                }
            }
        },
        _ => 0,
    }
}

/// Whether the revolving part of an amount can be computed in 64 bits: the
/// part itself fits, and so does the sum of the tranches where it is used.
pub open spec fn slice_representable(w: WaqfDataView, amount: i64) -> bool {
    &&& fits_i64(revolving_slice(w, amount))
    &&& w.waqf_type == WaqfType::Hybrid && slice_follows_tranches(w) ==> tranche_total(
        waqf_tranches(w),
    ) <= i64::MAX
}

fn sum_tranches(tranches: &Vec<ContributionTranche>) -> (total: i128)
    ensures
        total == tranche_total(views_of(tranches@)),
{
    let ghost all = views_of(tranches@);
    let mut total: i128 = 0;
    let mut i: usize = 0;
    assert(all.take(0) =~= Seq::<ContributionTrancheView>::empty());
    while i < tranches.len()
        invariant
            i <= tranches@.len(),
            all == views_of(tranches@),
            total == tranche_total(all.take(i as int)),
            -0x8000_0000_0000_0000 * i <= total <= 0x7fff_ffff_ffff_ffff * i,
        decreases tranches@.len() - i,
    {
        assert(all.take(i + 1).drop_last() =~= all.take(i as int));
        assert(all.take(i + 1).last() == tranches@[i as int]@);
        total = total + tranches[i].amount as i128;
        i = i + 1;
    }
    assert(all.take(i as int) =~= all);
    total
}

fn average_percent(allocations: &Vec<HybridCauseAllocation>) -> (average: i64)
    ensures
        average == average_revolving_percent(views_of(allocations@)),
{
    let ghost all = views_of(allocations@);
    let n = allocations.len();
    if n == 0 {
        return 0;
    }
    let mut total: i128 = 0;
    let mut i: usize = 0;
    assert(all.take(0) =~= Seq::<HybridCauseAllocationView>::empty());
    while i < n
        invariant
            i <= n,
            n == allocations@.len(),
            all == views_of(allocations@),
            total == revolving_percent_total(all.take(i as int)),
            -0x8000_0000_0000_0000 * i <= total <= 0x7fff_ffff_ffff_ffff * i,
        decreases n - i,
    {
        assert(all.take(i + 1).drop_last() =~= all.take(i as int));
        assert(all.take(i + 1).last() == allocations@[i as int]@);
        let percent: i64 = match allocations[i].allocations.temporary_revolving {
            Some(p) => p,
            None => 0,
        };
        total = total + percent as i128;
        i = i + 1;
    }
    assert(all.take(i as int) =~= all);
    proof {
        let low = -0x8000_0000_0000_0000 * (n as int);
        let high = 0x7fff_ffff_ffff_ffff * (n as int);
        vstd::arithmetic::div_mod::lemma_div_is_ordered(low, total as int, n as int);
        vstd::arithmetic::div_mod::lemma_div_is_ordered(total as int, high, n as int);
        vstd::arithmetic::div_mod::lemma_div_multiples_vanish(-0x8000_0000_0000_0000, n as int);
        vstd::arithmetic::div_mod::lemma_div_multiples_vanish(0x7fff_ffff_ffff_ffff, n as int);
        assert(low == (n as int) * -0x8000_0000_0000_0000) by (nonlinear_arith)
            requires
                low == -0x8000_0000_0000_0000 * (n as int),
        ;
        assert(high == (n as int) * 0x7fff_ffff_ffff_ffff) by (nonlinear_arith)
            requires
                high == 0x7fff_ffff_ffff_ffff * (n as int),
        ;
    }
    match total.checked_div_euclid(n as i128) {
        Some(q) => q as i64,
        None => 0,
    }
}

/// Computes the revolving-eligible part of an amount contributed to a waqf;
/// `None` exactly when it cannot be computed in 64 bits.
pub fn revolving_slice_of(waqf: &WaqfData, amount: i64) -> (r: Option<i64>)
    ensures
        slice_representable(waqf@, amount) ==> r == Some(revolving_slice(waqf@, amount) as i64),
        !slice_representable(waqf@, amount) ==> r is None,
{
    match waqf.waqf_type {
        WaqfType::TemporaryRevolving => Some(amount),
        WaqfType::Hybrid => {
            let total: i128 = match &waqf.revolving_details {
                Some(details) => match &details.contribution_tranches {
                    Some(tranches) => sum_tranches(tranches),
                    None => 0,
                },
                None => 0,
            };
            proof {
                assert(tranche_total(Seq::<ContributionTrancheView>::empty()) == 0);
            }
            assert(total == tranche_total(waqf_tranches(waqf@)));
            if waqf.waqf_asset > 0 && total > 0 {
                if total > i64::MAX as i128 {
                    return None;
                }
                mul_div_floor(amount, total as i64, waqf.waqf_asset)
            } else {
                match &waqf.hybrid_allocations {
                    Some(allocations) => mul_div_floor(
                        amount,
                        average_percent(allocations),
                        PERCENT_FULL,
                    ),
                    None => Some(0),
                }
            }
        },
        _ => Some(0),
    }
}

/// A waqf's revolving details with one more tranche at the end of the list.
pub open spec fn with_tranche(d: RevolvingWaqfDetailsView, t: ContributionTrancheView) -> RevolvingWaqfDetailsView {
    RevolvingWaqfDetailsView { contribution_tranches: Some(tranches_of(d).push(t)), ..d }
}

/// Appends a tranche to the tranche list of a revolving waqf.
pub fn append_tranche(details: &mut RevolvingWaqfDetails, tranche: ContributionTranche)
    ensures
        final(details)@ == with_tranche(old(details)@, tranche@),
{
    match &mut details.contribution_tranches {
        Some(tranches) => {
            let ghost before = views_of(tranches@);
            tranches.push(tranche);
            assert(views_of(tranches@) =~= before.push(tranche@));
        },
        None => {
            let mut tranches: Vec<ContributionTranche> = Vec::new();
            tranches.push(tranche);
            assert(views_of(tranches@) =~= Seq::<ContributionTrancheView>::empty().push(tranche@));
            details.contribution_tranches = Some(tranches);
        },
    }
}

/// A tranche locked with a positive amount, an identifier and a preference
/// that is in order satisfies every rule of tranche data.
pub proof fn law_locked_tranche_is_valid(
    id: Seq<char>,
    amount: i64,
    now: u64,
    months: u32,
    preference: Option<TrancheExpirationPreferenceView>,
)
    requires
        id.len() > 0,
        amount > 0,
        maturity_after(now, months) <= u64::MAX,
        preference is Some ==> preference_violations(preference->0).len() == 0,
    ensures
        tranche_violations(locked_tranche(id, amount, now, months, preference)).len() == 0,
{
    lemma_parse_decimal(now);
    lemma_parse_decimal(maturity_after(now, months) as u64);
    lemma_decimal_digits(now as nat);
    lemma_decimal_digits(maturity_after(now, months) as nat);
    lemma_tranche_status_text(TrancheStatus::Locked);
}

} // verus!
