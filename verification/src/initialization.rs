//! What a new waqf receives at creation: an amount for each cause and a
//! first tranche.

use vstd::prelude::*;
use crate::cause_table::{
    entry_for, find_entry, lemma_absent_entry, lemma_entry_of_distinct, names_each_once,
};
use crate::fixed::{fits_i64, mul_div, mul_div_floor, PERCENT_FULL, TOLERANCE};
use crate::text::{decimal, u64_to_string};
use crate::tranche_creation::{
    append_tranche, lock_tranche, locked_tranche, maturity_after, revolving_slice,
    revolving_slice_of, slice_representable, tranches_of, with_tranche,
};
use crate::waqf_error::{verdict_matches, WaqfError, WaqfErrorView};
use crate::waqf_types::{
    CauseEntry, CauseEntryView, clone_preference, FinancialMetricsView, views_of, WaqfData,
    WaqfDataView, WaqfType,
};

verus! {

/// Whether per-cause amounts are still to be derived: none is recorded, or
/// all recorded amounts are zero.
pub open spec fn needs_allocations(w: WaqfDataView) -> bool {
    forall|i: int|
        0 <= i < w.financial.cause_allocations.len() ==> (
        #[trigger] w.financial.cause_allocations[i]).value == 0
}

/// The part of the principal that goes to a cause: the cause's percentage
/// of it where one is recorded, else an equal share among the selected
/// causes. Quotients are rounded down.
pub open spec fn cause_share(w: WaqfDataView, id: Seq<char>) -> int {
    match entry_for(w.cause_allocation, id) {
        Some(percentage) => mul_div(w.waqf_asset as int, percentage as int, PERCENT_FULL as int),
        None => w.waqf_asset as int / w.selected_causes.len() as int,
    }
}

/// The amounts derived for the first `n` selected causes: one entry for each
/// distinct cause, in the order of first selection.
pub open spec fn allocations_upto(w: WaqfDataView, n: int) -> Seq<CauseEntryView>
    decreases n,
{
    if n <= 0 {
        Seq::empty()
    } else if w.selected_causes.take(n - 1).contains(w.selected_causes[n - 1]) {
        allocations_upto(w, n - 1)
    } else {
        allocations_upto(w, n - 1).push(
            CauseEntryView {
                cause_id: w.selected_causes[n - 1],
                value: cause_share(w, w.selected_causes[n - 1]) as i64,
            },
        )
    }
}

/// The per-cause amounts derived at creation.
pub open spec fn initial_allocations(w: WaqfDataView) -> Seq<CauseEntryView> {
    allocations_upto(w, w.selected_causes.len() as int)
}

/// Whether every cause's share of the principal can be represented.
pub open spec fn shares_representable(w: WaqfDataView) -> bool {
    forall|i: int|
        0 <= i < w.selected_causes.len() ==> fits_i64(
            cause_share(w, #[trigger] w.selected_causes[i]),
        )
}

/// Whether a waqf is of a kind that holds tranches and has none yet.
pub open spec fn awaits_first_tranche(w: WaqfDataView) -> bool {
    &&& w.waqf_type == WaqfType::TemporaryRevolving || w.waqf_type == WaqfType::Hybrid
    &&& w.revolving_details is Some
    &&& tranches_of(w.revolving_details->0).len() == 0
}

/// Whether initialization creates the first tranche: the waqf awaits one and
/// the revolving part of its principal is positive.
pub open spec fn creates_first_tranche(w: WaqfDataView) -> bool {
    awaits_first_tranche(w) && revolving_slice(w, w.waqf_asset) > 0
}

/// Identifier of the first tranche of a waqf created at `now`.
pub open spec fn initial_tranche_id(now: u64) -> Seq<char> {
    "tranche_initial_"@ + decimal(now as nat)
}

/// The reason, if any, why a new waqf cannot be initialized at `now`: an
/// amount or a maturity to be written cannot be represented.
pub open spec fn initialization_error(w: WaqfDataView, now: u64) -> Option<WaqfErrorView> {
    if needs_allocations(w) && !shares_representable(w) {
        Some(WaqfErrorView::AmountOutOfRange)
    } else if awaits_first_tranche(w) && !slice_representable(w, w.waqf_asset) {
        Some(WaqfErrorView::AmountOutOfRange)
    } else if creates_first_tranche(w) && maturity_after(
        now,
        w.revolving_details->0.lock_period_months,
    ) > u64::MAX {
        Some(WaqfErrorView::TimestampOutOfRange)
    } else {
        None
    }
}

/// Whether initialization changes a new waqf.
pub open spec fn initialization_changes(w: WaqfDataView) -> bool {
    needs_allocations(w) || creates_first_tranche(w)
}

/// A new waqf after initialization at `now`.
///
/// Where no per-cause amounts are recorded they are derived from the
/// principal. Where the waqf awaits its first tranche and the revolving part
/// of its principal is positive, that part is locked in a first tranche with
/// the waqf's lock period and default expiration preference. Nothing else
/// changes, and a waqf already initialized is left as it is.
pub open spec fn initialized(w: WaqfDataView, now: u64) -> WaqfDataView {
    WaqfDataView {
        financial: if needs_allocations(w) {
            FinancialMetricsView { cause_allocations: initial_allocations(w), ..w.financial }
        } else {
            w.financial
        },
        revolving_details: if creates_first_tranche(w) {
            let d = w.revolving_details->0;
            Some(
                with_tranche(
                    d,
                    locked_tranche(
                        initial_tranche_id(now),
                        revolving_slice(w, w.waqf_asset) as i64,
                        now,
                        d.lock_period_months,
                        d.default_expiration_preference,
                    ),
                ),
            )
        } else {
            w.revolving_details
        },
        ..w
    }
}

fn all_zero(entries: &Vec<CauseEntry>) -> (r: bool)
    ensures
        r == (forall|i: int| 0 <= i < entries@.len() ==> (#[trigger] views_of(entries@)[i]).value == 0),
{
    let mut i: usize = 0;
    while i < entries.len()
        invariant
            i <= entries@.len(),
            forall|j: int| 0 <= j < i ==> (#[trigger] views_of(entries@)[j]).value == 0,
        decreases entries@.len() - i,
    {
        if entries[i].value != 0 {
            assert(views_of(entries@)[i as int].value != 0);
            return false;
        }
        i = i + 1;
    }
    true
}

fn selected_before(causes: &Vec<String>, n: usize) -> (r: bool)
    requires
        n < causes@.len(),
    ensures
        r == views_of(causes@).take(n as int).contains(views_of(causes@)[n as int]),
{
    let ghost all = views_of(causes@);
    let mut i: usize = 0;
    while i < n
        invariant
            i <= n,
            n < causes@.len(),
            all == views_of(causes@),
            forall|j: int| 0 <= j < i ==> all[j] != all[n as int],
        decreases n - i,
    {
        if causes[i] == causes[n] {
            assert(all.take(n as int)[i as int] == all[n as int]);
            return true;
        }
        i = i + 1;
    }
    assert forall|j: int| 0 <= j < all.take(n as int).len() implies all.take(n as int)[j]
        != all[n as int] by {
        assert(all.take(n as int)[j] == all[j]);
    }
    false
}

fn share_of(waqf: &WaqfData, id: &String) -> (r: Option<i64>)
    requires
        waqf.selected_causes@.len() > 0,
    ensures
        fits_i64(cause_share(waqf@, id@)) ==> r == Some(cause_share(waqf@, id@) as i64),
        !fits_i64(cause_share(waqf@, id@)) ==> r is None,
{
    match find_entry(&waqf.cause_allocation, id) {
        Some(percentage) => mul_div_floor(waqf.waqf_asset, percentage, PERCENT_FULL),
        None => {
            let count: i128 = waqf.selected_causes.len() as i128;
            let asset: i128 = waqf.waqf_asset as i128;
            proof {
                let q = asset as int / count as int;
                vstd::arithmetic::div_mod::lemma_fundamental_div_mod(asset as int, count as int);
                vstd::arithmetic::div_mod::lemma_mod_bound(asset as int, count as int);
                assert(-0x8000_0000_0000_0000 <= q <= 0x7fff_ffff_ffff_ffff) by (nonlinear_arith)
                    requires
                        asset == count * q + asset % count,
                        0 <= asset % count < count,
                        count >= 1,
                        -0x8000_0000_0000_0000 <= asset <= 0x7fff_ffff_ffff_ffff,
                ;
            }
            match asset.checked_div_euclid(count) {
                Some(q) => Some(q as i64),
                None => None,
            }
        },
    }
}

/// Derives the per-cause amounts of a new waqf from its principal; `None`
/// exactly when a share cannot be represented.
pub fn derive_allocations(waqf: &WaqfData) -> (r: Option<Vec<CauseEntry>>)
    ensures
        shares_representable(waqf@) ==> r is Some && views_of(r->0@) == initial_allocations(waqf@),
        !shares_representable(waqf@) ==> r is None,
{
    let ghost w = waqf@;
    let mut entries: Vec<CauseEntry> = Vec::new();
    let mut i: usize = 0;
    assert(views_of(entries@) =~= allocations_upto(w, 0));
    while i < waqf.selected_causes.len()
        invariant
            i <= waqf.selected_causes@.len(),
            w == waqf@,
            views_of(entries@) == allocations_upto(w, i as int),
            forall|j: int| 0 <= j < i ==> fits_i64(cause_share(w, #[trigger] w.selected_causes[j])),
        decreases waqf.selected_causes@.len() - i,
    {
        let id = &waqf.selected_causes[i];
        assert(id@ == w.selected_causes[i as int]);
        let value = match share_of(waqf, id) {
            Some(v) => v,
            None => {
                return None;
            },
        };
        let ghost before = views_of(entries@);
        if !selected_before(&waqf.selected_causes, i) {
            let entry = CauseEntry { cause_id: id.clone(), value };
            entries.push(entry);
            assert(views_of(entries@) =~= before.push(
                CauseEntryView { cause_id: id@, value: value },
            ));
        }
        i = i + 1;
    }
    Some(entries)
}

/// Initializes a new waqf at `now`: derives its per-cause amounts and locks
/// the revolving part of its principal in a first tranche, each only where
/// it has not been done. Returns whether the waqf changed.
pub fn ensure_initialized(waqf: &mut WaqfData, now: u64) -> (r: Result<bool, WaqfError>)
    ensures
        verdict_matches(r, initialization_error(old(waqf)@, now)),
        r is Ok ==> final(waqf)@ == initialized(old(waqf)@, now) && r->Ok_0
            == initialization_changes(old(waqf)@),
        r is Err ==> final(waqf)@ == old(waqf)@,
{
    let ghost w = waqf@;
    let zero = all_zero(&waqf.financial.cause_allocations);
    assert(w.financial.cause_allocations == views_of(waqf.financial.cause_allocations@));
    assert(zero == needs_allocations(w));
    let allocations: Option<Vec<CauseEntry>> = if zero {
        match derive_allocations(waqf) {
            Some(entries) => Some(entries),
            None => {
                return Err(WaqfError::AmountOutOfRange);
            },
        }
    } else {
        None
    };
    let awaits = match waqf.waqf_type {
        WaqfType::TemporaryRevolving | WaqfType::Hybrid => match &waqf.revolving_details {
            Some(details) => match &details.contribution_tranches {
                Some(tranches) => tranches.len() == 0,
                None => true,
            },
            None => false,
        },
        _ => false,
    };
    assert(awaits == awaits_first_tranche(w));
    let mut tranche = None;
    if awaits {
        let slice = match revolving_slice_of(waqf, waqf.waqf_asset) {
            Some(v) => v,
            None => {
                return Err(WaqfError::AmountOutOfRange);
            },
        };
        if slice > 0 {
            match &waqf.revolving_details {
                Some(details) => {
                    let mut id = String::from_str("tranche_initial_");
                    id.append(u64_to_string(now).as_str());
                    match lock_tranche(
                        id,
                        slice,
                        now,
                        details.lock_period_months,
                        clone_preference(&details.default_expiration_preference),
                    ) {
                        Some(t) => {
                            tranche = Some(t);
                        },
                        None => {
                            return Err(WaqfError::TimestampOutOfRange);
                        },
                    }
                },
                None => {},
            }
        }
    }
    assert(initialization_error(w, now) is None);
    assert(tranche is Some == creates_first_tranche(w));
    let mut changed = false;
    match allocations {
        Some(entries) => {
            waqf.financial.cause_allocations = entries;
            changed = true;
        },
        None => {},
    }
    assert(waqf@.financial == initialized(w, now).financial);
    match tranche {
        Some(t) => {
            match &mut waqf.revolving_details {
                Some(details) => {
                    append_tranche(details, t);
                },
                None => {},
            }
            changed = true;
        },
        None => {},
    }
    Ok(changed)
}

/// The sum of the values of a per-cause table.
pub open spec fn allocation_total(entries: Seq<CauseEntryView>) -> int
    decreases entries.len(),
{
    if entries.len() == 0 {
        0
    } else {
        allocation_total(entries.drop_last()) + entries.last().value
    }
}

/// Whether no cause is selected twice.
pub open spec fn causes_distinct(causes: Seq<Seq<char>>) -> bool {
    forall|i: int, j: int| 0 <= i < j < causes.len() ==> causes[i] != causes[j]
}

/// Whether no selected cause has a percentage of its own, so that the
/// principal is split in equal shares.
pub open spec fn split_is_uniform(w: WaqfDataView) -> bool {
    forall|i: int|
        0 <= i < w.selected_causes.len() ==> entry_for(
            w.cause_allocation,
            #[trigger] w.selected_causes[i],
        ) is None
}

/// The sum of the percentages recorded for the first `n` selected causes.
pub open spec fn percentage_total(w: WaqfDataView, n: int) -> int
    decreases n,
{
    if n <= 0 {
        0
    } else {
        percentage_total(w, n - 1) + match entry_for(w.cause_allocation, w.selected_causes[n - 1]) {
            Some(p) => p as int,
            None => 0,
        }
    }
}

/// Whether every selected cause has a percentage of its own and the
/// percentages add up to one hundred.
pub open spec fn split_is_explicit(w: WaqfDataView) -> bool {
    &&& forall|i: int|
        0 <= i < w.selected_causes.len() ==> entry_for(
            w.cause_allocation,
            #[trigger] w.selected_causes[i],
        ) is Some
    &&& percentage_total(w, w.selected_causes.len() as int) == PERCENT_FULL
}

/// The sum of the shares of the first `n` selected causes.
pub open spec fn share_total(w: WaqfDataView, n: int) -> int
    decreases n,
{
    if n <= 0 {
        0
    } else {
        share_total(w, n - 1) + cause_share(w, w.selected_causes[n - 1])
    }
}

/// What rounding down takes from the shares of the first `n` selected causes,
/// in hundred-millionths of a unit.
pub open spec fn remainder_total(w: WaqfDataView, n: int) -> int
    decreases n,
{
    if n <= 0 {
        0
    } else {
        remainder_total(w, n - 1) + match entry_for(w.cause_allocation, w.selected_causes[n - 1]) {
            Some(p) => (w.waqf_asset as int * p as int) % (PERCENT_FULL as int),
            None => 0,
        }
    }
}

proof fn lemma_distinct_allocations(w: WaqfDataView, n: int)
    requires
        0 <= n <= w.selected_causes.len(),
        causes_distinct(w.selected_causes),
        shares_representable(w),
    ensures
        allocations_upto(w, n).len() == n,
        allocation_total(allocations_upto(w, n)) == share_total(w, n),
    decreases n,
{
    if n > 0 {
        lemma_distinct_allocations(w, n - 1);
        let earlier = w.selected_causes.take(n - 1);
        let id = w.selected_causes[n - 1];
        if earlier.contains(id) {
            let j = choose|j: int| 0 <= j < earlier.len() && earlier[j] == id;
            assert(w.selected_causes[j] == id);
        }
        let all = allocations_upto(w, n);
        assert(all.drop_last() =~= allocations_upto(w, n - 1));
        assert(fits_i64(cause_share(w, w.selected_causes[n - 1])));
    }
}

proof fn lemma_uniform_shares(w: WaqfDataView, n: int)
    requires
        0 <= n <= w.selected_causes.len(),
        split_is_uniform(w),
    ensures
        share_total(w, n) == n * (w.waqf_asset as int / w.selected_causes.len() as int),
    decreases n,
{
    let q = w.waqf_asset as int / w.selected_causes.len() as int;
    if n > 0 {
        lemma_uniform_shares(w, n - 1);
        assert(entry_for(w.cause_allocation, w.selected_causes[n - 1]) is None);
        assert((n - 1) * q + q == n * q) by (nonlinear_arith);
    } else {
        assert(n * q == 0) by (nonlinear_arith)
            requires
                n == 0,
        ;
    }
}

proof fn lemma_explicit_shares(w: WaqfDataView, n: int)
    requires
        0 <= n <= w.selected_causes.len(),
        forall|i: int|
            0 <= i < w.selected_causes.len() ==> entry_for(
                w.cause_allocation,
                #[trigger] w.selected_causes[i],
            ) is Some,
    ensures
        PERCENT_FULL * share_total(w, n) + remainder_total(w, n) == w.waqf_asset
            * percentage_total(w, n),
        0 <= remainder_total(w, n) <= n * (PERCENT_FULL - 1),
    decreases n,
{
    if n > 0 {
        lemma_explicit_shares(w, n - 1);
        let id = w.selected_causes[n - 1];
        assert(entry_for(w.cause_allocation, id) is Some);
        let p = entry_for(w.cause_allocation, id)->0 as int;
        let x = w.waqf_asset as int * p;
        let full = PERCENT_FULL as int;
        vstd::arithmetic::div_mod::lemma_fundamental_div_mod(x, full);
        vstd::arithmetic::div_mod::lemma_mod_bound(x, full);
        assert(cause_share(w, id) == x / full);
        let s0 = share_total(w, n - 1);
        let r0 = remainder_total(w, n - 1);
        let t0 = percentage_total(w, n - 1);
        let asset = w.waqf_asset as int;
        assert(full * (s0 + x / full) + (r0 + x % full) == asset * (t0 + p)) by (nonlinear_arith)
            requires
                full * s0 + r0 == asset * t0,
                x == full * (x / full) + x % full,
                x == asset * p,
        ;
        assert(n * (full - 1) == (n - 1) * (full - 1) + (full - 1)) by (nonlinear_arith);
    }
}

/// The amounts derived for the causes of a waqf add up to its principal
/// within the tolerance of one hundredth, and each cause has one.
///
/// This holds where no cause is selected twice, the causes either have no
/// percentages or have percentages that add up to one hundred, the principal
/// is not negative, and there are no more causes than rounding can absorb:
/// each derived amount is rounded down by less than one millionth.
pub proof fn law_derived_amounts_add_up(w: WaqfDataView)
    requires
        shares_representable(w),
        causes_distinct(w.selected_causes),
        split_is_uniform(w) || split_is_explicit(w),
        0 < w.selected_causes.len() <= TOLERANCE,
        w.waqf_asset >= 0,
    ensures
        initial_allocations(w).len() == w.selected_causes.len(),
        w.waqf_asset - TOLERANCE <= allocation_total(initial_allocations(w)) <= w.waqf_asset,
{
    let n = w.selected_causes.len() as int;
    let asset = w.waqf_asset as int;
    lemma_distinct_allocations(w, n);
    if split_is_uniform(w) {
        lemma_uniform_shares(w, n);
        let q = asset / n;
        vstd::arithmetic::div_mod::lemma_fundamental_div_mod(asset, n);
        vstd::arithmetic::div_mod::lemma_mod_bound(asset, n);
    } else {
        lemma_explicit_shares(w, n);
        let full = PERCENT_FULL as int;
        let total = share_total(w, n);
        let lost = remainder_total(w, n);
        assert(asset - n < total <= asset) by (nonlinear_arith)
            requires
                full * total + lost == asset * full,
                0 <= lost <= n * (full - 1),
                full == 100_000_000,
                n > 0,
        ;
    }
}

/// Where every selected cause has a percentage of its own, the derived
/// amounts add up to the part of the principal that the percentages add up
/// to, less what rounding down takes: under one millionth for each cause.
pub proof fn law_derived_amounts_track_percentages(w: WaqfDataView)
    requires
        shares_representable(w),
        causes_distinct(w.selected_causes),
        forall|i: int|
            0 <= i < w.selected_causes.len() ==> entry_for(
                w.cause_allocation,
                #[trigger] w.selected_causes[i],
            ) is Some,
    ensures
        ({
            let n = w.selected_causes.len() as int;
            let total = allocation_total(initial_allocations(w));
            let owed = w.waqf_asset * percentage_total(w, n);
            PERCENT_FULL * total <= owed <= PERCENT_FULL * total + n * (PERCENT_FULL - 1)
        }),
{
    let n = w.selected_causes.len() as int;
    lemma_distinct_allocations(w, n);
    lemma_explicit_shares(w, n);
}

/// Where the percentages of the selected causes add up to one hundred
/// within the tolerance of one hundredth, the derived amounts differ from
/// the principal by no more than one ten-thousandth of it and one millionth
/// for each cause.
pub proof fn law_derived_amounts_near_principal(w: WaqfDataView)
    requires
        shares_representable(w),
        causes_distinct(w.selected_causes),
        forall|i: int|
            0 <= i < w.selected_causes.len() ==> entry_for(
                w.cause_allocation,
                #[trigger] w.selected_causes[i],
            ) is Some,
        PERCENT_FULL - TOLERANCE <= percentage_total(w, w.selected_causes.len() as int)
            <= PERCENT_FULL + TOLERANCE,
        w.waqf_asset >= 0,
    ensures
        ({
            let n = w.selected_causes.len() as int;
            let total = allocation_total(initial_allocations(w));
            &&& PERCENT_FULL * (total - w.waqf_asset) <= w.waqf_asset * TOLERANCE
            &&& PERCENT_FULL * (w.waqf_asset - total) <= w.waqf_asset * TOLERANCE + n * (
            PERCENT_FULL - 1)
        }),
{
    let n = w.selected_causes.len() as int;
    let total = allocation_total(initial_allocations(w));
    let asset = w.waqf_asset as int;
    let sum = percentage_total(w, n);
    let full = PERCENT_FULL as int;
    let slack = TOLERANCE as int;
    law_derived_amounts_track_percentages(w);
    assert(full * (total - asset) <= asset * slack && full * (asset - total) <= asset * slack + n
        * (full - 1)) by (nonlinear_arith)
        requires
            full * total <= asset * sum <= full * total + n * (full - 1),
            full - slack <= sum <= full + slack,
            asset >= 0,
    ;
}

proof fn lemma_allocations_depend_on_split(a: WaqfDataView, b: WaqfDataView, n: int)
    requires
        a.selected_causes == b.selected_causes,
        a.cause_allocation == b.cause_allocation,
        a.waqf_asset == b.waqf_asset,
    ensures
        allocations_upto(a, n) == allocations_upto(b, n),
    decreases n,
{
    if n > 0 {
        lemma_allocations_depend_on_split(a, b, n - 1);
    }
}

/// Initialization is idempotent: initializing an initialized waqf again, at
/// whatever time, changes nothing.
pub proof fn law_initialization_is_idempotent(w: WaqfDataView, now: u64, later: u64)
    ensures
        initialized(initialized(w, now), later) == initialized(w, now),
{
    let once = initialized(w, now);
    lemma_allocations_depend_on_split(once, w, w.selected_causes.len() as int);
    if creates_first_tranche(w) {
        let d = w.revolving_details->0;
        assert(tranches_of(once.revolving_details->0).len() == 1);
        assert(!awaits_first_tranche(once));
    } else {
        assert(once.revolving_details == w.revolving_details);
        assert(revolving_slice(once, once.waqf_asset) == revolving_slice(w, w.waqf_asset));
    }
    assert(initialized(once, later).financial == once.financial);
    assert(initialized(once, later).revolving_details == once.revolving_details);
}

/// Whether a table has an entry for a cause.
pub open spec fn table_names(t: Seq<CauseEntryView>, id: Seq<char>) -> bool {
    exists|i: int| 0 <= i < t.len() && (#[trigger] t[i]).cause_id == id
}

proof fn lemma_derived_table(w: WaqfDataView, n: int)
    requires
        0 <= n <= w.selected_causes.len(),
    ensures
        names_each_once(allocations_upto(w, n)),
        forall|i: int|
            0 <= i < allocations_upto(w, n).len() ==> w.selected_causes.take(n).contains(
                (#[trigger] allocations_upto(w, n)[i]).cause_id,
            ) && allocations_upto(w, n)[i].value == cause_share(
                w,
                allocations_upto(w, n)[i].cause_id,
            ) as i64,
        forall|k: int|
            0 <= k < n ==> table_names(allocations_upto(w, n), #[trigger] w.selected_causes[k]),
    decreases n,
{
    if n > 0 {
        lemma_derived_table(w, n - 1);
        let before = allocations_upto(w, n - 1);
        let after = allocations_upto(w, n);
        let earlier = w.selected_causes.take(n - 1);
        let id = w.selected_causes[n - 1];
        assert forall|x: Seq<char>| earlier.contains(x) implies w.selected_causes.take(n).contains(
            x,
        ) by {
            let j = choose|j: int| 0 <= j < earlier.len() && earlier[j] == x;
            assert(w.selected_causes.take(n)[j] == x);
        }
        assert(w.selected_causes.take(n)[n - 1] == id);
        if earlier.contains(id) {
            assert(after == before);
            let j = choose|j: int| 0 <= j < earlier.len() && earlier[j] == id;
            assert(w.selected_causes[j] == id);
            assert(table_names(before, w.selected_causes[j]));
        } else {
            assert(after.len() == before.len() + 1);
            assert(after[before.len() as int].cause_id == id);
            assert forall|i: int| 0 <= i < before.len() implies after[i] == before[i] by {}
            assert forall|i: int, j: int| 0 <= i < j < after.len() implies after[i].cause_id
                != after[j].cause_id by {
                if j == before.len() {
                    assert(earlier.contains(before[i].cause_id));
                }
            }
        }
        assert forall|k: int| 0 <= k < n implies table_names(
            after,
            #[trigger] w.selected_causes[k],
        ) by {
            if k < n - 1 {
                assert(table_names(before, w.selected_causes[k]));
                let i = choose|i: int|
                    0 <= i < before.len() && (#[trigger] before[i]).cause_id
                        == w.selected_causes[k];
                assert(after[i].cause_id == w.selected_causes[k]);
            } else if earlier.contains(id) {
                let i = choose|i: int| 0 <= i < before.len() && (#[trigger] before[i]).cause_id == id;
                assert(after[i].cause_id == id);
            } else {
                assert(after[before.len() as int].cause_id == id);
            }
        }
    }
}

/// The table of amounts derived at creation names each selected cause once
/// and no other cause, and records for each the cause's share of the
/// principal: its percentage of the principal where it has one, else an
/// equal share, rounded down.
pub proof fn law_derived_table_records_shares(w: WaqfDataView)
    requires
        shares_representable(w),
    ensures
        names_each_once(initial_allocations(w)),
        forall|k: int|
            0 <= k < w.selected_causes.len() ==> entry_for(
                initial_allocations(w),
                #[trigger] w.selected_causes[k],
            ) == Some(cause_share(w, w.selected_causes[k]) as i64),
        forall|id: Seq<char>|
            !w.selected_causes.contains(id) ==> (#[trigger] entry_for(initial_allocations(w), id))
                is None,
{
    let n = w.selected_causes.len() as int;
    let t = initial_allocations(w);
    lemma_derived_table(w, n);
    assert(w.selected_causes.take(n) =~= w.selected_causes);
    assert forall|k: int| 0 <= k < n implies entry_for(t, #[trigger] w.selected_causes[k]) == Some(
        cause_share(w, w.selected_causes[k]) as i64,
    ) by {
        assert(table_names(t, w.selected_causes[k]));
        let i = choose|i: int| 0 <= i < t.len() && (#[trigger] t[i]).cause_id == w.selected_causes[k];
        lemma_entry_of_distinct(t, i);
    }
    assert forall|id: Seq<char>| !w.selected_causes.contains(id) implies (#[trigger] entry_for(
        t,
        id,
    )) is None by {
        assert forall|i: int| 0 <= i < t.len() implies (#[trigger] t[i]).cause_id != id by {
            assert(w.selected_causes.contains(t[i].cause_id));
        }
        lemma_absent_entry(t, id);
    }
}

} // verus!
