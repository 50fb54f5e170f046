//! Checks before, and follow-up after, a write to the waqf collection.

use vstd::prelude::*;
use crate::field_guard::{
    changes_among, field_changed, law_changes_are_complete, restricted_changes, RestrictedField,
    restriction_error, touches_immutable, validate_creator_field_restrictions,
};
use crate::cause_table::entry_for;
use crate::fixed::{fits_i64, NANOS_PER_MONTH, PERCENT_FULL, TOLERANCE};
use crate::initialization::{
    allocation_total, awaits_first_tranche, cause_share, causes_distinct, ensure_initialized,
    initialization_changes, initialization_error, initialized, law_derived_amounts_add_up,
    needs_allocations, split_is_explicit, split_is_uniform,
};
use crate::text::is_text;
use crate::waqf_error::{verdict_is, verdict_matches, WaqfError, WaqfErrorView};
use crate::waqf_type_rules::{
    revolving_details_violations, revolving_violations, type_violations, waqf_type_violations,
    WaqfPolicy,
};
use crate::waqf_types::{view_of, WaqfData, WaqfDataView, WaqfType};
use crate::waqf_utils::{
    asset_errors, causes_errors, MIN_WAQF_ASSET, model_of, validate_waqf_data_detailed, waqf_errors,
};

verus! {

/// What was done to a waqf, for the audit trail.
#[derive(Clone, Copy, Debug, PartialEq, Eq, Structural)]
pub enum WaqfAction {
    Create,
    Update,
    Pause,
    Complete,
    AllocationChange,
}

/// An audit entry about one action on a waqf.
#[derive(Debug, Clone, PartialEq)]
pub struct WaqfAudit {
    pub waqf_id: String,
    pub action: WaqfAction,
    pub performed_by: String,
    pub timestamp: u64,
    pub notes: Option<String>,
}

/// Mathematical model of [`WaqfAudit`].
pub ghost struct WaqfAuditView {
    pub waqf_id: Seq<char>,
    pub action: WaqfAction,
    pub performed_by: Seq<char>,
    pub timestamp: u64,
    pub notes: Option<Seq<char>>,
}

impl View for WaqfAudit {
    type V = WaqfAuditView;

    open spec fn view(&self) -> WaqfAuditView {
        WaqfAuditView {
            waqf_id: self.waqf_id@,
            action: self.action,
            performed_by: self.performed_by@,
            timestamp: self.timestamp,
            notes: view_of(self.notes),
        }
    }
}

/// A rejection of a waqf write, by the kind of rule that was violated.
#[derive(Debug, Clone, PartialEq)]
pub enum WaqfValidationError {
    InvalidDonorInfo(String),
    InvalidAllocation(String),
    IllegalStatusTransition(String),
    FinancialError(String),
    PermissionDenied(String),
}

/// Mathematical model of [`WaqfValidationError`].
pub ghost enum WaqfRejectionView {
    InvalidDonorInfo(Seq<char>),
    InvalidAllocation(Seq<char>),
    IllegalStatusTransition(Seq<char>),
    FinancialError(Seq<char>),
    PermissionDenied(Seq<char>),
}

impl View for WaqfValidationError {
    type V = WaqfRejectionView;

    open spec fn view(&self) -> WaqfRejectionView {
        match self {
            WaqfValidationError::InvalidDonorInfo(m) => WaqfRejectionView::InvalidDonorInfo(m@),
            WaqfValidationError::InvalidAllocation(m) => WaqfRejectionView::InvalidAllocation(m@),
            WaqfValidationError::IllegalStatusTransition(
                m,
            ) => WaqfRejectionView::IllegalStatusTransition(m@),
            WaqfValidationError::FinancialError(m) => WaqfRejectionView::FinancialError(m@),
            WaqfValidationError::PermissionDenied(m) => WaqfRejectionView::PermissionDenied(m@),
        }
    }
}

impl WaqfRejectionView {
    /// The message of the rejection: the kind of rule, then the detail.
    pub open spec fn text(self) -> Seq<char> {
        match self {
            WaqfRejectionView::InvalidDonorInfo(m) => "Donor info: "@ + m,
            WaqfRejectionView::InvalidAllocation(m) => "Allocation: "@ + m,
            WaqfRejectionView::IllegalStatusTransition(m) => "Status: "@ + m,
            WaqfRejectionView::FinancialError(m) => "Finance: "@ + m,
            WaqfRejectionView::PermissionDenied(m) => "Permission: "@ + m,
        }
    }
}

impl WaqfValidationError {
    /// Describes the rejection: the kind of rule, then the detail.
    pub fn message(&self) -> (s: String)
        ensures
            s@ == self@.text(),
    {
        let (kind, detail) = match self {
            WaqfValidationError::InvalidDonorInfo(m) => ("Donor info: ", m),
            WaqfValidationError::InvalidAllocation(m) => ("Allocation: ", m),
            WaqfValidationError::IllegalStatusTransition(m) => ("Status: ", m),
            WaqfValidationError::FinancialError(m) => ("Finance: ", m),
            WaqfValidationError::PermissionDenied(m) => ("Permission: ", m),
        };
        let mut s = String::from_str(kind);
        s.append(detail.as_str());
        s
    }
}

/// The outcome of checking a waqf write: whether it is valid, and the
/// rejections where it is not.
#[derive(Debug, Clone, PartialEq)]
pub struct WaqfValidationResult {
    pub valid: bool,
    pub errors: Option<Vec<WaqfValidationError>>,
}

/// The rule on the principal of a new waqf: it is at least the minimum of
/// one hundred whole units.
pub open spec fn minimum_asset_error(w: WaqfDataView) -> Option<WaqfErrorView> {
    if w.waqf_asset < MIN_WAQF_ASSET {
        Some(WaqfErrorView::CapitalTooLow { minimum: MIN_WAQF_ASSET, provided: w.waqf_asset })
    } else {
        None
    }
}

/// Validates the minimum principal of a new waqf.
pub fn validate_minimum_waqf_asset(waqf: &WaqfData) -> (r: Result<(), WaqfError>)
    ensures
        verdict_is(r, minimum_asset_error(waqf@)),
{
    if waqf.waqf_asset < MIN_WAQF_ASSET {
        return Err(
            WaqfError::CapitalTooLow { minimum: MIN_WAQF_ASSET, provided: waqf.waqf_asset },
        );
    }
    Ok(())
}

/// The rule on lock periods: an update never shortens the lock period of a
/// revolving waqf.
pub open spec fn lock_period_error(previous: WaqfDataView, updated: WaqfDataView) -> Option<
    WaqfErrorView,
> {
    if previous.revolving_details is Some && updated.revolving_details is Some
        && updated.revolving_details->0.lock_period_months
        < previous.revolving_details->0.lock_period_months {
        Some(
            WaqfErrorView::LockPeriodReduced {
                from: previous.revolving_details->0.lock_period_months,
                to: updated.revolving_details->0.lock_period_months,
            },
        )
    } else {
        None
    }
}

/// The first reason, if any, why a proposed write to the waqf collection is
/// rejected before it is committed.
///
/// The record must satisfy every rule of the data model, including, for an
/// update, the status transition graph and the rules on archived and
/// completed waqfs; then every rule of its type, as the policy has them. A
/// new waqf needs the minimum principal and must be initializable. An
/// update must respect field immutability and creator permissions, and must
/// not shorten the lock period.
pub open spec fn assertion_error(
    proposed: WaqfDataView,
    current: Option<WaqfDataView>,
    caller: Seq<char>,
    now: u64,
    policy: WaqfPolicy,
) -> Option<WaqfErrorView> {
    if waqf_errors(proposed, current).len() > 0 {
        Some(WaqfErrorView::InvalidData(waqf_errors(proposed, current)))
    } else if type_violations(proposed, policy).len() > 0 {
        Some(WaqfErrorView::InvalidType(type_violations(proposed, policy)))
    } else {
        match current {
            None => if minimum_asset_error(proposed) is Some {
                minimum_asset_error(proposed)
            } else {
                initialization_error(proposed, now)
            },
            Some(c) => if restriction_error(c, proposed, caller) is Some {
                restriction_error(c, proposed, caller)
            } else {
                lock_period_error(c, proposed)
            },
        }
    }
}

/// The record that is committed when a proposed write is accepted: a new
/// waqf initialized, an update as proposed.
pub open spec fn committed(proposed: WaqfDataView, current: Option<WaqfDataView>, now: u64) -> WaqfDataView {
    match current {
        None => initialized(proposed, now),
        Some(_) => proposed,
    }
}

/// A waqf record as it is to be committed, and whether it differs from the
/// record that was proposed.
#[derive(Debug, Clone, PartialEq)]
pub struct WaqfWrite {
    pub waqf: WaqfData,
    pub rewritten: bool,
}

/// The textual form of the principal that has the given bytes.
pub uninterp spec fn principal_text(bytes: Seq<u8>) -> Seq<char>;

/// Greatest length of a principal, in bytes.
pub const MAX_PRINCIPAL_LENGTH: usize = 29;

/// `Principal::to_text` of the `candid` crate, on the principal that
/// `Principal::from_slice` makes of the bytes: the result is the principal's
/// textual form, a fixed function of its bytes. `from_slice` panics on more
/// than 29 bytes, which the precondition excludes.
#[verifier::external_body]
fn text_of_principal(bytes: &[u8]) -> (text: String)
    requires
        bytes@.len() <= MAX_PRINCIPAL_LENGTH,
    ensures
        text@ == principal_text(bytes@),
{
    candid::Principal::from_slice(bytes).to_text()
}

/// Checks a proposed write to the waqf collection before it is committed:
/// `current` is the stored record, absent for a creation, `caller` the bytes
/// of the writer's principal and `now` the current time.
///
/// A caller of more than 29 bytes is no principal and is refused. Else the
/// write is judged as [`assert_waqf_write`] judges it for the caller's
/// textual form.
pub fn assert_waqf_operations(
    proposed: WaqfData,
    current: Option<&WaqfData>,
    caller: &[u8],
    now: u64,
    policy: &WaqfPolicy,
) -> (r: Result<WaqfWrite, WaqfError>)
    ensures
        caller@.len() > MAX_PRINCIPAL_LENGTH ==> r is Err && r->Err_0@
            == WaqfErrorView::CallerTooLong,
        caller@.len() <= MAX_PRINCIPAL_LENGTH ==> verdict_matches(
            r,
            assertion_error(proposed@, model_of(current), principal_text(caller@), now, *policy),
        ),
        r is Ok ==> r->Ok_0.waqf@ == committed(proposed@, model_of(current), now),
        r is Ok ==> r->Ok_0.rewritten == (current is None && initialization_changes(proposed@)),
{
    if caller.len() > MAX_PRINCIPAL_LENGTH {
        return Err(WaqfError::CallerTooLong);
    }
    let text = text_of_principal(caller);
    assert_waqf_write(proposed, current, text.as_str(), now, policy)
}

/// Checks a proposed write to the waqf collection before it is committed:
/// `current` is the stored record, absent for a creation, `caller` the
/// textual form of the writer's identity and `now` the current time.
///
/// Rejects the write for the reason that [`assertion_error`] gives. Else it
/// returns the record to commit, which for a creation is the proposed record
/// initialized, and says whether that record differs from the proposal.
pub fn assert_waqf_write(
    proposed: WaqfData,
    current: Option<&WaqfData>,
    caller: &str,
    now: u64,
    policy: &WaqfPolicy,
) -> (r: Result<WaqfWrite, WaqfError>)
    ensures
        verdict_matches(r, assertion_error(proposed@, model_of(current), caller@, now, *policy)),
        r is Ok ==> r->Ok_0.waqf@ == committed(proposed@, model_of(current), now),
        r is Ok ==> r->Ok_0.rewritten == (current is None && initialization_changes(proposed@)),
{
    let mut waqf = proposed;
    let report = validate_waqf_data_detailed(&waqf, current);
    if !report.is_valid {
        return Err(WaqfError::InvalidData(report.errors));
    }
    let violations = waqf_type_violations(&waqf, policy);
    if violations.len() > 0 {
        return Err(WaqfError::InvalidType(violations));
    }
    match current {
        None => {
            match validate_minimum_waqf_asset(&waqf) {
                Ok(()) => {},
                Err(e) => {
                    return Err(e);
                },
            }
            match ensure_initialized(&mut waqf, now) {
                Ok(changed) => Ok(WaqfWrite { waqf, rewritten: changed }),
                Err(e) => Err(e),
            }
        },
        Some(previous) => {
            match validate_creator_field_restrictions(previous, &waqf, caller) {
                Ok(()) => {},
                Err(e) => {
                    return Err(e);
                },
            }
            match (&previous.revolving_details, &waqf.revolving_details) {
                (Some(before), Some(after)) => {
                    if after.lock_period_months < before.lock_period_months {
                        return Err(
                            WaqfError::LockPeriodReduced {
                                from: before.lock_period_months,
                                to: after.lock_period_months,
                            },
                        );
                    }
                },
                _ => {},
            }
            Ok(WaqfWrite { waqf, rewritten: false })
        },
    }
}

/// The reason, if any, why a waqf cannot be deleted: there is none stored,
/// or the stored one is active.
pub open spec fn deletion_error(current: Option<WaqfDataView>) -> Option<WaqfErrorView> {
    match current {
        None => Some(WaqfErrorView::NoCurrentDocument),
        Some(w) => if w.status == "active"@ {
            Some(WaqfErrorView::ActiveWaqfDeletion)
        } else {
            None
        },
    }
}

/// Checks a deletion from the waqf collection: an active waqf is never
/// deleted.
pub fn assert_waqf_deletion(current: Option<&WaqfData>) -> (r: Result<(), WaqfError>)
    ensures
        verdict_is(r, deletion_error(model_of(current))),
{
    match current {
        None => Err(WaqfError::NoCurrentDocument),
        Some(waqf) => {
            if is_text(&waqf.status, "active") {
                Err(WaqfError::ActiveWaqfDeletion)
            } else {
                Ok(())
            }
        },
    }
}

/// Follows up on a committed write to the waqf collection: a newly created
/// waqf is initialized unless it already is, and returned for writing back
/// where that changed it; an updated waqf is left as it is.
pub fn handle_waqf_changes(after: WaqfData, is_new: bool, now: u64) -> (r: Result<
    WaqfWrite,
    WaqfError,
>)
    ensures
        is_new ==> verdict_matches(r, initialization_error(after@, now)),
        is_new && r is Ok ==> r->Ok_0.waqf@ == initialized(after@, now) && r->Ok_0.rewritten
            == initialization_changes(after@),
        !is_new ==> r is Ok && r->Ok_0.waqf@ == after@ && !r->Ok_0.rewritten,
{
    let mut waqf = after;
    if is_new {
        match ensure_initialized(&mut waqf, now) {
            Ok(changed) => Ok(WaqfWrite { waqf, rewritten: changed }),
            Err(e) => Err(e),
        }
    } else {
        Ok(WaqfWrite { waqf, rewritten: false })
    }
}

/// An update that changes the principal, the creator or the creation time is
/// rejected, whoever the caller is and whatever else it changes.
pub proof fn law_immutable_fields(
    previous: WaqfDataView,
    proposed: WaqfDataView,
    caller: Seq<char>,
    now: u64,
    policy: WaqfPolicy,
)
    requires
        touches_immutable(previous, proposed),
    ensures
        restriction_error(previous, proposed, caller) is Some,
        assertion_error(proposed, Some(previous), caller, now, policy) is Some,
{
}

/// An update by the creator that changes `financial` and no other
/// restricted field passes the permission guard, and is accepted where the
/// record is otherwise in order.
pub proof fn law_financial_only_update(
    previous: WaqfDataView,
    proposed: WaqfDataView,
    caller: Seq<char>,
    now: u64,
    policy: WaqfPolicy,
)
    requires
        caller == previous.created_by,
        !touches_immutable(previous, proposed),
        field_changed(previous, proposed, RestrictedField::Financial),
        forall|f: RestrictedField|
            f != RestrictedField::Financial ==> !field_changed(previous, proposed, f),
    ensures
        restriction_error(previous, proposed, caller) is None,
        waqf_errors(proposed, Some(previous)).len() == 0 && type_violations(
            proposed,
            policy,
        ).len() == 0 && lock_period_error(previous, proposed) is None ==> assertion_error(
            proposed,
            Some(previous),
            caller,
            now,
            policy,
        ) is None,
{
    assert(restricted_changes(previous, proposed) =~= seq![RestrictedField::Financial]) by {
        assert(changes_among(previous, proposed, 5) =~= Seq::<RestrictedField>::empty()) by {
            assert(!field_changed(previous, proposed, RestrictedField::SelectedCauses));
            assert(!field_changed(previous, proposed, RestrictedField::Status));
            assert(!field_changed(previous, proposed, RestrictedField::IsDonated));
            assert(!field_changed(previous, proposed, RestrictedField::Notifications));
            assert(!field_changed(previous, proposed, RestrictedField::ReportingPreferences));
            reveal_with_fuel(changes_among, 6);
        }
        assert(!field_changed(previous, proposed, RestrictedField::LastContributionDate));
        assert(!field_changed(previous, proposed, RestrictedField::NextContributionDate));
        assert(!field_changed(previous, proposed, RestrictedField::NextReportDate));
        reveal_with_fuel(changes_among, 5);
    }
}

/// An update by the creator that changes the status together with another
/// restricted field is rejected, and the guard names every restricted field
/// that changed.
pub proof fn law_status_with_other_change(
    previous: WaqfDataView,
    proposed: WaqfDataView,
    caller: Seq<char>,
    now: u64,
    policy: WaqfPolicy,
    other: RestrictedField,
)
    requires
        caller == previous.created_by,
        !touches_immutable(previous, proposed),
        field_changed(previous, proposed, RestrictedField::Status),
        other != RestrictedField::Status,
        field_changed(previous, proposed, other),
    ensures
        restriction_error(previous, proposed, caller) == Some(
            WaqfErrorView::UnauthorizedChanges(restricted_changes(previous, proposed)),
        ),
        forall|f: RestrictedField|
            restricted_changes(previous, proposed).contains(f) <==> field_changed(
                previous,
                proposed,
                f,
            ),
        assertion_error(proposed, Some(previous), caller, now, policy) is Some,
{
    let changes = restricted_changes(previous, proposed);
    law_changes_are_complete(previous, proposed, RestrictedField::Status);
    law_changes_are_complete(previous, proposed, other);
    assert forall|f: RestrictedField| changes.contains(f) <==> field_changed(
        previous,
        proposed,
        f,
    ) by {
        law_changes_are_complete(previous, proposed, f);
    }
    let i = choose|i: int| 0 <= i < changes.len() && changes[i] == RestrictedField::Status;
    let j = choose|j: int| 0 <= j < changes.len() && changes[j] == other;
    assert(i != j);
    assert(changes.len() >= 2);
    assert(changes != seq![RestrictedField::Financial]);
}

/// A new waqf that is accepted leaves creation with an amount for each of
/// its causes, and the amounts add up to the principal within the tolerance
/// of one hundredth.
///
/// This holds where the amounts are derived at creation, no cause is
/// selected twice, the causes either have no percentages or have
/// percentages that add up to one hundred, and there are no more causes
/// than rounding can absorb.
pub proof fn law_creation_allocates_principal(
    proposed: WaqfDataView,
    caller: Seq<char>,
    now: u64,
    policy: WaqfPolicy,
)
    requires
        assertion_error(proposed, None, caller, now, policy) is None,
        needs_allocations(proposed),
        causes_distinct(proposed.selected_causes),
        split_is_uniform(proposed) || split_is_explicit(proposed),
        proposed.selected_causes.len() <= TOLERANCE,
    ensures
        ({
            let allocations = committed(proposed, None, now).financial.cause_allocations;
            &&& allocations.len() == proposed.selected_causes.len()
            &&& allocations.len() > 0
            &&& proposed.waqf_asset - TOLERANCE <= allocation_total(allocations)
                <= proposed.waqf_asset
        }),
{
    assert(causes_errors(proposed.selected_causes).len() == 0);
    assert(proposed.waqf_asset >= MIN_WAQF_ASSET);
    law_derived_amounts_add_up(proposed);
}

/// A new waqf that obeys the rules of the data model and of its type is
/// accepted, unless a value to be written cannot be represented.
pub proof fn law_valid_creation_is_accepted(
    proposed: WaqfDataView,
    caller: Seq<char>,
    now: u64,
    policy: WaqfPolicy,
)
    requires
        waqf_errors(proposed, None).len() == 0,
        type_violations(proposed, policy).len() == 0,
        initialization_error(proposed, now) is None,
    ensures
        assertion_error(proposed, None, caller, now, policy) is None,
{
    assert(asset_errors(proposed.waqf_asset).len() == 0);
}

/// No value to be written at creation is out of range where the waqf obeys
/// the rules of the data model, is permanent, consumable or revolving and
/// obeys the rules of that type, gives each cause no percentage or one
/// between zero and one hundred, and is created early enough for a lock
/// period of 240 months to end at a representable time.
pub proof fn law_creation_within_limits(proposed: WaqfDataView, now: u64, policy: WaqfPolicy)
    requires
        waqf_errors(proposed, None).len() == 0,
        type_violations(proposed, policy).len() == 0,
        proposed.waqf_type != WaqfType::Hybrid,
        forall|i: int|
            0 <= i < proposed.selected_causes.len() ==> ({
                let p = entry_for(proposed.cause_allocation, #[trigger] proposed.selected_causes[i]);
                p is Some ==> 0 <= p->0 <= PERCENT_FULL
            }),
        now + 240 * NANOS_PER_MONTH <= u64::MAX,
    ensures
        initialization_error(proposed, now) is None,
{
    let w = proposed;
    let asset = w.waqf_asset as int;
    assert(asset_errors(w.waqf_asset).len() == 0);
    assert(causes_errors(w.selected_causes).len() == 0);
    assert(0 < asset);
    let n = w.selected_causes.len() as int;
    assert forall|i: int| 0 <= i < n implies fits_i64(
        cause_share(w, #[trigger] w.selected_causes[i]),
    ) by {
        let p = entry_for(w.cause_allocation, w.selected_causes[i]);
        if p is Some {
            let product = asset * (p->0 as int);
            let full = PERCENT_FULL as int;
            assert(0 <= product <= asset * full) by (nonlinear_arith)
                requires
                    product == asset * (p->0 as int),
                    0 <= asset,
                    0 <= p->0 <= full,
            ;
            vstd::arithmetic::div_mod::lemma_div_pos_is_pos(product, full);
            vstd::arithmetic::div_mod::lemma_div_is_ordered(product, asset * full, full);
            vstd::arithmetic::div_mod::lemma_div_multiples_vanish(asset, full);
            assert(asset * full == full * asset) by (nonlinear_arith);
        } else {
            vstd::arithmetic::div_mod::lemma_div_pos_is_pos(asset, n);
            vstd::arithmetic::div_mod::lemma_div_is_ordered_by_denominator(asset, 1, n);
        }
    }
    if w.waqf_type == WaqfType::TemporaryRevolving {
        let d = w.revolving_details->0;
        assert(revolving_violations(w).len() == 0);
        assert(revolving_details_violations(d).len() == 0);
        assert(d.lock_period_months <= 240);
        assert(d.lock_period_months * NANOS_PER_MONTH <= 240 * NANOS_PER_MONTH) by (nonlinear_arith)
            requires
                d.lock_period_months <= 240,
        ;
    } else {
        assert(!awaits_first_tranche(w));
    }
}

} // verus!
