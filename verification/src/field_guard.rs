//! Field immutability and the limits on what a waqf's creator may change.

use vstd::prelude::*;
use crate::cause_table::{same_figures, same_financials};
use crate::comparison::SameAs;
use crate::text::is_text;
use crate::waqf_error::{verdict_is, WaqfError, WaqfErrorView};
use crate::waqf_types::{same_optional_text, same_texts, WaqfData, WaqfDataView};

verus! {

/// The fields of a waqf that its creator may not change.
#[derive(Clone, Copy, Debug, PartialEq, Eq, Structural)]
pub enum RestrictedField {
    SelectedCauses,
    Status,
    IsDonated,
    Notifications,
    ReportingPreferences,
    Financial,
    LastContributionDate,
    NextContributionDate,
    NextReportDate,
}

impl RestrictedField {
    /// The field's name in the record.
    pub open spec fn name(self) -> Seq<char> {
        match self {
            RestrictedField::SelectedCauses => "selected_causes"@,
            RestrictedField::Status => "status"@,
            RestrictedField::IsDonated => "is_donated"@,
            RestrictedField::Notifications => "notifications"@,
            RestrictedField::ReportingPreferences => "reporting_preferences"@,
            RestrictedField::Financial => "financial"@,
            RestrictedField::LastContributionDate => "last_contribution_date"@,
            RestrictedField::NextContributionDate => "next_contribution_date"@,
            RestrictedField::NextReportDate => "next_report_date"@,
        }
    }

    /// The field's name in the record.
    pub fn as_str(self) -> (s: &'static str)
        ensures
            s@ == self.name(),
    {
        match self {
            RestrictedField::SelectedCauses => "selected_causes",
            RestrictedField::Status => "status",
            RestrictedField::IsDonated => "is_donated",
            RestrictedField::Notifications => "notifications",
            RestrictedField::ReportingPreferences => "reporting_preferences",
            RestrictedField::Financial => "financial",
            RestrictedField::LastContributionDate => "last_contribution_date",
            RestrictedField::NextContributionDate => "next_contribution_date",
            RestrictedField::NextReportDate => "next_report_date",
        }
    }
}

/// Whether an update changes a restricted field. The financial figures
/// have changed where a figure differs or the table of amounts records
/// another value for some cause; the layout of the table does not count.
pub open spec fn field_changed(previous: WaqfDataView, updated: WaqfDataView, field: RestrictedField) -> bool {
    match field {
        RestrictedField::SelectedCauses => previous.selected_causes != updated.selected_causes,
        RestrictedField::Status => previous.status != updated.status,
        RestrictedField::IsDonated => previous.is_donated != updated.is_donated,
        RestrictedField::Notifications => previous.notifications != updated.notifications,
        RestrictedField::ReportingPreferences => previous.reporting_preferences
            != updated.reporting_preferences,
        RestrictedField::Financial => !same_figures(previous.financial, updated.financial),
        RestrictedField::LastContributionDate => previous.last_contribution_date
            != updated.last_contribution_date,
        RestrictedField::NextContributionDate => previous.next_contribution_date
            != updated.next_contribution_date,
        RestrictedField::NextReportDate => previous.next_report_date != updated.next_report_date,
    }
}

/// The restricted fields, in the order in which changes are reported.
pub open spec fn restricted_fields() -> Seq<RestrictedField> {
    seq![
        RestrictedField::SelectedCauses,
        RestrictedField::Status,
        RestrictedField::IsDonated,
        RestrictedField::Notifications,
        RestrictedField::ReportingPreferences,
        RestrictedField::Financial,
        RestrictedField::LastContributionDate,
        RestrictedField::NextContributionDate,
        RestrictedField::NextReportDate,
    ]
}

/// The first `n` restricted fields that an update changes, in order.
pub open spec fn changes_among(previous: WaqfDataView, updated: WaqfDataView, n: int) -> Seq<
    RestrictedField,
>
    decreases n,
{
    if n <= 0 {
        Seq::empty()
    } else if field_changed(previous, updated, restricted_fields()[n - 1]) {
        changes_among(previous, updated, n - 1).push(restricted_fields()[n - 1])
    } else {
        changes_among(previous, updated, n - 1)
    }
}

/// Every restricted field that an update changes, in order.
pub open spec fn restricted_changes(previous: WaqfDataView, updated: WaqfDataView) -> Seq<
    RestrictedField,
> {
    changes_among(previous, updated, 9)
}

/// Whether an update changes `financial` and no other restricted field: the
/// signature of a donation posted by the system.
pub open spec fn financial_only(previous: WaqfDataView, updated: WaqfDataView) -> bool {
    restricted_changes(previous, updated) == seq![RestrictedField::Financial]
}

/// Whether an update changes principal, creator or creation time.
pub open spec fn touches_immutable(previous: WaqfDataView, updated: WaqfDataView) -> bool {
    previous.waqf_asset != updated.waqf_asset || previous.created_by != updated.created_by
        || previous.created_at != updated.created_at
}

/// The first rule of field immutability and creator permission that an
/// update violates, if any.
///
/// Principal, creator and creation time never change, whoever asks. Anyone
/// but the creator may change everything else. The creator may change the
/// restricted fields only in an update that changes `financial` alone.
pub open spec fn restriction_error(previous: WaqfDataView, updated: WaqfDataView, caller: Seq<char>) -> Option<
    WaqfErrorView,
> {
    if previous.waqf_asset != updated.waqf_asset {
        Some(WaqfErrorView::WaqfAssetImmutable)
    } else if previous.created_by != updated.created_by {
        Some(WaqfErrorView::CreatorImmutable)
    } else if previous.created_at != updated.created_at {
        Some(WaqfErrorView::CreatedAtImmutable)
    } else if previous.created_by != caller {
        None
    } else if financial_only(previous, updated) || restricted_changes(previous, updated).len()
        == 0 {
        None
    } else {
        Some(WaqfErrorView::UnauthorizedChanges(restricted_changes(previous, updated)))
    }
}

/// Lists the restricted fields that an update changes.
pub fn changed_restricted_fields(previous: &WaqfData, updated: &WaqfData) -> (changes: Vec<
    RestrictedField,
>)
    ensures
        changes@ == restricted_changes(previous@, updated@),
{
    let ghost p = previous@;
    let ghost u = updated@;
    let mut changes: Vec<RestrictedField> = Vec::new();
    assert(changes@ =~= changes_among(p, u, 0));
    if !same_texts(&previous.selected_causes, &updated.selected_causes) {
        changes.push(RestrictedField::SelectedCauses);
    }
    assert(changes@ =~= changes_among(p, u, 1));
    if previous.status != updated.status {
        changes.push(RestrictedField::Status);
    }
    assert(changes@ =~= changes_among(p, u, 2));
    let same_donated = match (previous.is_donated, updated.is_donated) {
        (Some(a), Some(b)) => a == b,
        (None, None) => true,
        _ => false,
    };
    if !same_donated {
        changes.push(RestrictedField::IsDonated);
    }
    assert(changes@ =~= changes_among(p, u, 3));
    if previous.notifications != updated.notifications {
        changes.push(RestrictedField::Notifications);
    }
    assert(changes@ =~= changes_among(p, u, 4));
    if !previous.reporting_preferences.same_as(&updated.reporting_preferences) {
        changes.push(RestrictedField::ReportingPreferences);
    }
    assert(changes@ =~= changes_among(p, u, 5));
    if !same_financials(&previous.financial, &updated.financial) {
        changes.push(RestrictedField::Financial);
    }
    assert(changes@ =~= changes_among(p, u, 6));
    if !same_optional_text(&previous.last_contribution_date, &updated.last_contribution_date) {
        changes.push(RestrictedField::LastContributionDate);
    }
    assert(changes@ =~= changes_among(p, u, 7));
    if !same_optional_text(&previous.next_contribution_date, &updated.next_contribution_date) {
        changes.push(RestrictedField::NextContributionDate);
    }
    assert(changes@ =~= changes_among(p, u, 8));
    if !same_optional_text(&previous.next_report_date, &updated.next_report_date) {
        changes.push(RestrictedField::NextReportDate);
    }
    assert(changes@ =~= changes_among(p, u, 9));
    changes
}

/// Enforces field immutability and the limits on what a waqf's creator may
/// change.
pub fn validate_creator_field_restrictions(previous: &WaqfData, updated: &WaqfData, caller: &str) -> (r:
    Result<(), WaqfError>)
    ensures
        verdict_is(r, restriction_error(previous@, updated@, caller@)),
{
    if previous.waqf_asset != updated.waqf_asset {
        return Err(WaqfError::WaqfAssetImmutable);
    }
    if previous.created_by != updated.created_by {
        return Err(WaqfError::CreatorImmutable);
    }
    if previous.created_at != updated.created_at {
        return Err(WaqfError::CreatedAtImmutable);
    }
    if !is_text(&previous.created_by, caller) {
        return Ok(());
    }
    let changes = changed_restricted_fields(previous, updated);
    if changes.len() == 0 {
        return Ok(());
    }
    if changes.len() == 1 && changes[0] == RestrictedField::Financial {
        assert(changes@ =~= seq![RestrictedField::Financial]);
        return Ok(());
    }
    Err(WaqfError::UnauthorizedChanges(changes))
}

/// Position of a restricted field in the order of reporting.
pub open spec fn field_position(field: RestrictedField) -> int {
    match field {
        RestrictedField::SelectedCauses => 0,
        RestrictedField::Status => 1,
        RestrictedField::IsDonated => 2,
        RestrictedField::Notifications => 3,
        RestrictedField::ReportingPreferences => 4,
        RestrictedField::Financial => 5,
        RestrictedField::LastContributionDate => 6,
        RestrictedField::NextContributionDate => 7,
        RestrictedField::NextReportDate => 8,
    }
}

proof fn lemma_changes_among(previous: WaqfDataView, updated: WaqfDataView, n: int, field: RestrictedField)
    requires
        0 <= n <= 9,
    ensures
        changes_among(previous, updated, n).contains(field) <==> exists|k: int|
            0 <= k < n && restricted_fields()[k] == field && field_changed(
                previous,
                updated,
                restricted_fields()[k],
            ),
    decreases n,
{
    let fields = restricted_fields();
    if n > 0 {
        lemma_changes_among(previous, updated, n - 1, field);
        let rest = changes_among(previous, updated, n - 1);
        if field_changed(previous, updated, fields[n - 1]) {
            let all = rest.push(fields[n - 1]);
            assert(all[all.len() - 1] == fields[n - 1]);
            if rest.contains(field) {
                let j = choose|j: int| 0 <= j < rest.len() && rest[j] == field;
                assert(all[j] == field);
            }
            if all.contains(field) {
                let j = choose|j: int| 0 <= j < all.len() && all[j] == field;
                if j < rest.len() {
                    assert(rest[j] == field);
                }
            }
        }
    }
}

/// A restricted field is reported as changed exactly when it changed.
pub proof fn law_changes_are_complete(previous: WaqfDataView, updated: WaqfDataView, field: RestrictedField)
    ensures
        restricted_changes(previous, updated).contains(field) <==> field_changed(
            previous,
            updated,
            field,
        ),
{
    let fields = restricted_fields();
    assert forall|n: int| 0 <= n <= 9 implies (changes_among(previous, updated, n).contains(field)
        <==> exists|k: int| 0 <= k < n && fields[k] == field && field_changed(
            previous,
            updated,
            fields[k],
        )) by {
        lemma_changes_among(previous, updated, n, field);
    }
    if field_changed(previous, updated, field) {
        let k = field_position(field);
        assert(0 <= k < 9 && fields[k] == field);
    }
}

/// The names of a list of restricted fields, joined by `", "`.
pub open spec fn joined_names(fields: Seq<RestrictedField>) -> Seq<char>
    decreases fields.len(),
{
    if fields.len() == 0 {
        Seq::empty()
    } else if fields.len() == 1 {
        fields[0].name()
    } else {
        joined_names(fields.drop_last()) + ", "@ + fields.last().name()
    }
}

/// Joins the names of a list of restricted fields by `", "`.
pub fn join_names(fields: &Vec<RestrictedField>) -> (s: String)
    ensures
        s@ == joined_names(fields@),
{
    let mut s = String::new();
    let mut i: usize = 0;
    assert(fields@.take(0) =~= Seq::<RestrictedField>::empty());
    while i < fields.len()
        invariant
            i <= fields@.len(),
            s@ == joined_names(fields@.take(i as int)),
        decreases fields@.len() - i,
    {
        assert(fields@.take(i + 1).drop_last() =~= fields@.take(i as int));
        assert(fields@.take(i + 1).last() == fields@[i as int]);
        if i > 0 {
            s.append(", ");
        }
        s.append(fields[i].as_str());
        proof {
            if i == 0 {
                assert(s@ =~= fields@[0].name());
                assert(fields@.take(1)[0] == fields@[0]);
            }
        }
        i = i + 1;
    }
    assert(fields@.take(i as int) =~= fields@);
    s
}

} // verus!
