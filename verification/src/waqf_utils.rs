//! The rules that every waqf record obeys, reported in full.

use vstd::prelude::*;
use crate::cause_table::{same_table, tables_agree};
use crate::comparison::{same_list, same_option, same_optional_list, SameAs};
use crate::fixed::{SCALE, TOLERANCE};
use crate::text::{
    amount_text, char_is_alphanumeric, char_is_whitespace, chars_of, contains_char, decimal,
    format_amount, is_alphanumeric, is_blank, is_blank_text, is_text, is_whitespace, trim, trimmed,
    u128_to_string, utf8_len,
};
use crate::vocabulary::{lemma_waqf_status_text, WaqfStatus};
use crate::waqf_types::{
    DonorProfile, DonorProfileView, FinancialMetrics, FinancialMetricsView,
    NotificationPreferences, ReportingPreferences, ReportingPreferencesView, WaqfData,
    WaqfDataView, view_of, views_of,
};

verus! {

/// Least length of a name, in bytes.
pub const MIN_NAME_LENGTH: usize = 2;

/// Greatest length of a name, in bytes.
pub const MAX_NAME_LENGTH: usize = 100;

/// Least length of a description, in bytes.
pub const MIN_DESCRIPTION_LENGTH: usize = 10;

/// Greatest length of a description, in bytes.
pub const MAX_DESCRIPTION_LENGTH: usize = 2000;

/// Least principal of a waqf: one hundred whole units.
pub const MIN_WAQF_ASSET: i64 = 100_000_000;

/// Greatest principal of a waqf: one thousand million whole units.
pub const MAX_WAQF_ASSET: i64 = 1_000_000_000_000_000;

/// Least length of a phone number, in bytes.
pub const MIN_PHONE_LENGTH: usize = 10;

/// Greatest length of a phone number, in bytes.
pub const MAX_PHONE_LENGTH: usize = 20;

/// Least length of an address, in bytes.
pub const MIN_ADDRESS_LENGTH: usize = 10;

/// Greatest length of an address, in bytes.
pub const MAX_ADDRESS_LENGTH: usize = 200;

/// A violated rule of the waqf record.
#[derive(Debug, Clone, PartialEq)]
#[allow(inconsistent_fields)]
pub enum WaqfValidationError {
    /// The identifier is empty.
    IdEmpty,
    /// The name is shorter than the minimum.
    NameTooShort { min_length: usize, actual: usize },
    /// The name is longer than the maximum.
    NameTooLong { max_length: usize, actual: usize },
    /// The name is empty.
    NameEmpty,
    /// The name holds characters that are not allowed; holds them in order.
    NameContainsInvalidCharacters(String),
    /// The description is shorter than the minimum.
    DescriptionTooShort { min_length: usize, actual: usize },
    /// The description is longer than the maximum.
    DescriptionTooLong { max_length: usize, actual: usize },
    /// The description is empty.
    DescriptionEmpty,
    /// The description holds characters that are not allowed.
    DescriptionContainsInvalidCharacters(String),
    /// The principal is below the minimum.
    InitialCapitalTooLow { min_amount: i64, actual: i64 },
    /// The principal is above the maximum.
    InitialCapitalTooHigh { max_amount: i64, actual: i64 },
    /// The principal is not a number that can be represented.
    InitialCapitalInvalid(String),
    /// The donor has no name.
    DonorNameEmpty,
    /// The donor's name is shorter than the minimum.
    DonorNameTooShort { min_length: usize, actual: usize },
    /// The donor has no email address.
    DonorEmailEmpty,
    /// The donor's email address is malformed.
    DonorEmailInvalidFormat(String),
    /// The donor has no phone number.
    DonorPhoneEmpty,
    /// The donor's phone number is too short or too long.
    DonorPhoneInvalidLength { min: usize, max: usize, actual: usize },
    /// The donor has no address.
    DonorAddressEmpty,
    /// The donor's address is shorter than the minimum.
    DonorAddressTooShort { min_length: usize, actual: usize },
    /// The donor's address is longer than the maximum.
    DonorAddressTooLong { max_length: usize, actual: usize },
    /// The status is not a waqf status.
    InvalidStatus { status: String },
    /// The transition graph has no edge between the two statuses.
    InvalidStatusTransition { from: String, to: String },
    /// The reporting frequency is unknown.
    InvalidReportingFrequency { frequency: String },
    /// A report type is unknown.
    InvalidReportType { report_type: String },
    /// The delivery method is unknown.
    InvalidDeliveryMethod { method: String },
    /// No cause is selected.
    NoCausesSelected,
    /// A selected cause has a blank identifier.
    InvalidCauseId(String),
    /// A financial figure is negative.
    NegativeFinancialValue { field: String, value: i64 },
    /// The financial figures contradict each other.
    InconsistentFinancialData(String),
    /// The creation time is empty.
    CreatedAtEmpty,
    /// A timestamp is malformed.
    InvalidTimestampFormat(String),
    /// An archived waqf cannot be modified.
    ArchivedWaqfModification,
    /// A completed waqf cannot be modified beyond its finances.
    CompletedWaqfModification,
    /// The creator is empty.
    CreatedByEmpty,
}

/// Mathematical model of [`WaqfValidationError`].
#[allow(inconsistent_fields)]
pub ghost enum WaqfValidationErrorView {
    IdEmpty,
    NameTooShort { min_length: usize, actual: usize },
    NameTooLong { max_length: usize, actual: usize },
    NameEmpty,
    NameContainsInvalidCharacters(Seq<char>),
    DescriptionTooShort { min_length: usize, actual: usize },
    DescriptionTooLong { max_length: usize, actual: usize },
    DescriptionEmpty,
    DescriptionContainsInvalidCharacters(Seq<char>),
    InitialCapitalTooLow { min_amount: i64, actual: i64 },
    InitialCapitalTooHigh { max_amount: i64, actual: i64 },
    InitialCapitalInvalid(Seq<char>),
    DonorNameEmpty,
    DonorNameTooShort { min_length: usize, actual: usize },
    DonorEmailEmpty,
    DonorEmailInvalidFormat(Seq<char>),
    DonorPhoneEmpty,
    DonorPhoneInvalidLength { min: usize, max: usize, actual: usize },
    DonorAddressEmpty,
    DonorAddressTooShort { min_length: usize, actual: usize },
    DonorAddressTooLong { max_length: usize, actual: usize },
    InvalidStatus { status: Seq<char> },
    InvalidStatusTransition { from: Seq<char>, to: Seq<char> },
    InvalidReportingFrequency { frequency: Seq<char> },
    InvalidReportType { report_type: Seq<char> },
    InvalidDeliveryMethod { method: Seq<char> },
    NoCausesSelected,
    InvalidCauseId(Seq<char>),
    NegativeFinancialValue { field: Seq<char>, value: i64 },
    InconsistentFinancialData(Seq<char>),
    CreatedAtEmpty,
    InvalidTimestampFormat(Seq<char>),
    ArchivedWaqfModification,
    CompletedWaqfModification,
    CreatedByEmpty,
}

impl View for WaqfValidationError {
    type V = WaqfValidationErrorView;

    open spec fn view(&self) -> WaqfValidationErrorView {
        match self {
            WaqfValidationError::IdEmpty => WaqfValidationErrorView::IdEmpty,
            WaqfValidationError::NameTooShort { min_length, actual } => WaqfValidationErrorView::NameTooShort {
                min_length: *min_length, actual: *actual,
            },
            WaqfValidationError::NameTooLong { max_length, actual } => WaqfValidationErrorView::NameTooLong {
                max_length: *max_length, actual: *actual,
            },
            WaqfValidationError::NameEmpty => WaqfValidationErrorView::NameEmpty,
            WaqfValidationError::NameContainsInvalidCharacters(s) => WaqfValidationErrorView::NameContainsInvalidCharacters(s@),
            WaqfValidationError::DescriptionTooShort { min_length, actual } => WaqfValidationErrorView::DescriptionTooShort {
                min_length: *min_length, actual: *actual,
            },
            WaqfValidationError::DescriptionTooLong { max_length, actual } => WaqfValidationErrorView::DescriptionTooLong {
                max_length: *max_length, actual: *actual,
            },
            WaqfValidationError::DescriptionEmpty => WaqfValidationErrorView::DescriptionEmpty,
            WaqfValidationError::DescriptionContainsInvalidCharacters(s) => WaqfValidationErrorView::DescriptionContainsInvalidCharacters(s@),
            WaqfValidationError::InitialCapitalTooLow { min_amount, actual } => WaqfValidationErrorView::InitialCapitalTooLow {
                min_amount: *min_amount, actual: *actual,
            },
            WaqfValidationError::InitialCapitalTooHigh { max_amount, actual } => WaqfValidationErrorView::InitialCapitalTooHigh {
                max_amount: *max_amount, actual: *actual,
            },
            WaqfValidationError::InitialCapitalInvalid(s) => WaqfValidationErrorView::InitialCapitalInvalid(s@),
            WaqfValidationError::DonorNameEmpty => WaqfValidationErrorView::DonorNameEmpty,
            WaqfValidationError::DonorNameTooShort { min_length, actual } => WaqfValidationErrorView::DonorNameTooShort {
                min_length: *min_length, actual: *actual,
            },
            WaqfValidationError::DonorEmailEmpty => WaqfValidationErrorView::DonorEmailEmpty,
            WaqfValidationError::DonorEmailInvalidFormat(s) => WaqfValidationErrorView::DonorEmailInvalidFormat(s@),
            WaqfValidationError::DonorPhoneEmpty => WaqfValidationErrorView::DonorPhoneEmpty,
            WaqfValidationError::DonorPhoneInvalidLength { min, max, actual } => WaqfValidationErrorView::DonorPhoneInvalidLength {
                min: *min, max: *max, actual: *actual,
            },
            WaqfValidationError::DonorAddressEmpty => WaqfValidationErrorView::DonorAddressEmpty,
            WaqfValidationError::DonorAddressTooShort { min_length, actual } => WaqfValidationErrorView::DonorAddressTooShort {
                min_length: *min_length, actual: *actual,
            },
            WaqfValidationError::DonorAddressTooLong { max_length, actual } => WaqfValidationErrorView::DonorAddressTooLong {
                max_length: *max_length, actual: *actual,
            },
            WaqfValidationError::InvalidStatus { status } => WaqfValidationErrorView::InvalidStatus {
                status: status@,
            },
            WaqfValidationError::InvalidStatusTransition { from, to } => WaqfValidationErrorView::InvalidStatusTransition {
                from: from@, to: to@,
            },
            WaqfValidationError::InvalidReportingFrequency { frequency } => WaqfValidationErrorView::InvalidReportingFrequency {
                frequency: frequency@,
            },
            WaqfValidationError::InvalidReportType { report_type } => WaqfValidationErrorView::InvalidReportType {
                report_type: report_type@,
            },
            WaqfValidationError::InvalidDeliveryMethod { method } => WaqfValidationErrorView::InvalidDeliveryMethod {
                method: method@,
            },
            WaqfValidationError::NoCausesSelected => WaqfValidationErrorView::NoCausesSelected,
            WaqfValidationError::InvalidCauseId(s) => WaqfValidationErrorView::InvalidCauseId(s@),
            WaqfValidationError::NegativeFinancialValue { field, value } => WaqfValidationErrorView::NegativeFinancialValue {
                field: field@, value: *value,
            },
            WaqfValidationError::InconsistentFinancialData(s) => WaqfValidationErrorView::InconsistentFinancialData(s@),
            WaqfValidationError::CreatedAtEmpty => WaqfValidationErrorView::CreatedAtEmpty,
            WaqfValidationError::InvalidTimestampFormat(s) => WaqfValidationErrorView::InvalidTimestampFormat(s@),
            WaqfValidationError::ArchivedWaqfModification => WaqfValidationErrorView::ArchivedWaqfModification,
            WaqfValidationError::CompletedWaqfModification => WaqfValidationErrorView::CompletedWaqfModification,
            WaqfValidationError::CreatedByEmpty => WaqfValidationErrorView::CreatedByEmpty,
        }
    }
}

/// The outcome of a detailed validation: every violated rule, and warnings.
#[derive(Debug, Clone, PartialEq)]
pub struct WaqfValidationResult {
    /// Whether no rule is violated.
    pub is_valid: bool,
    /// The violated rules, in the order of the checks.
    pub errors: Vec<WaqfValidationError>,
    /// Remarks that do not make the record invalid.
    pub warnings: Vec<String>,
}

/// Mathematical model of [`WaqfValidationResult`].
pub ghost struct WaqfValidationResultView {
    pub is_valid: bool,
    pub errors: Seq<WaqfValidationErrorView>,
    pub warnings: Seq<Seq<char>>,
}

impl View for WaqfValidationResult {
    type V = WaqfValidationResultView;

    open spec fn view(&self) -> WaqfValidationResultView {
        WaqfValidationResultView {
            is_valid: self.is_valid,
            errors: views_of(self.errors@),
            warnings: views_of(self.warnings@),
        }
    }
}

impl WaqfValidationResultView {
    /// The result of a validation that found the given errors and warnings.
    pub open spec fn of(errors: Seq<WaqfValidationErrorView>, warnings: Seq<Seq<char>>) -> Self {
        WaqfValidationResultView { is_valid: errors.len() == 0, errors, warnings }
    }

    /// This result after more errors were found.
    pub open spec fn and_errors(self, errors: Seq<WaqfValidationErrorView>) -> Self {
        WaqfValidationResultView {
            is_valid: self.is_valid && errors.len() == 0,
            errors: self.errors + errors,
            warnings: self.warnings,
        }
    }

    /// This result after more warnings were raised.
    pub open spec fn and_warnings(self, warnings: Seq<Seq<char>>) -> Self {
        WaqfValidationResultView {
            is_valid: self.is_valid,
            errors: self.errors,
            warnings: self.warnings + warnings,
        }
    }
}

impl WaqfValidationResult {
    /// A result without errors or warnings.
    pub fn new() -> (r: Self)
        ensures
            r@ == WaqfValidationResultView::of(Seq::empty(), Seq::empty()),
    {
        let r = WaqfValidationResult { is_valid: true, errors: Vec::new(), warnings: Vec::new() };
        assert(r@.errors =~= Seq::empty());
        assert(r@.warnings =~= Seq::empty());
        r
    }

    /// Records a violated rule; the result is invalid from then on.
    pub fn add_error(&mut self, error: WaqfValidationError)
        ensures
            final(self)@ == old(self)@.and_errors(seq![error@]),
    {
        self.is_valid = false;
        self.errors.push(error);
        assert(views_of(self.errors@) =~= old(self)@.errors + seq![error@]);
    }

    /// Records a warning; validity is unchanged.
    pub fn add_warning(&mut self, warning: String)
        ensures
            final(self)@ == old(self)@.and_warnings(seq![warning@]),
    {
        self.warnings.push(warning);
        assert(views_of(self.warnings@) =~= old(self)@.warnings + seq![warning@]);
    }
}

/// One error where a rule is violated, none where it is not.
pub open spec fn when(violated: bool, e: WaqfValidationErrorView) -> Seq<WaqfValidationErrorView> {
    if violated {
        seq![e]
    } else {
        Seq::empty()
    }
}

/// The characters that text fields may hold besides letters, digits and
/// whitespace.
pub open spec fn text_punctuation() -> Seq<char> {
    ".,!?;:()[]{}\"'-_/\\@#$%&*+=<>|~`^°§"@
}

/// Whether a character may occur in a text field.
pub open spec fn valid_text_character(c: char) -> bool {
    char_is_alphanumeric(c) || char_is_whitespace(c) || text_punctuation().contains(c)
}

/// The characters of a text that may not occur in a text field, in order.
pub open spec fn invalid_characters(s: Seq<char>) -> Seq<char>
    decreases s.len(),
{
    if s.len() == 0 {
        Seq::empty()
    } else if valid_text_character(s.last()) {
        invalid_characters(s.drop_last())
    } else {
        invalid_characters(s.drop_last()).push(s.last())
    }
}

/// Whether a text looks like an email address: it holds an `@` and a dot and
/// is longer than five bytes.
pub open spec fn valid_email(email: Seq<char>) -> bool {
    email.contains('@') && email.contains('.') && utf8_len(email) > 5
}

/// The rule that a waqf identifier can violate: it is not blank.
pub open spec fn id_errors(id: Seq<char>) -> Seq<WaqfValidationErrorView> {
    when(is_blank(id), WaqfValidationErrorView::IdEmpty)
}

/// The rules that a waqf name violates: trimmed, it is not empty, is 2 to
/// 100 bytes long and holds only characters allowed in text fields.
pub open spec fn name_errors(name: Seq<char>) -> Seq<WaqfValidationErrorView> {
    let t = trimmed(name);
    if t.len() == 0 {
        seq![WaqfValidationErrorView::NameEmpty]
    } else {
        when(
            utf8_len(t) < MIN_NAME_LENGTH,
            WaqfValidationErrorView::NameTooShort {
                min_length: MIN_NAME_LENGTH,
                actual: utf8_len(t),
            },
        ) + when(
            utf8_len(t) > MAX_NAME_LENGTH,
            WaqfValidationErrorView::NameTooLong {
                max_length: MAX_NAME_LENGTH,
                actual: utf8_len(t),
            },
        ) + when(
            invalid_characters(t).len() > 0,
            WaqfValidationErrorView::NameContainsInvalidCharacters(invalid_characters(t)),
        )
    }
}

/// The rules that a description violates: trimmed, it is not empty and is 10
/// to 2000 bytes long.
pub open spec fn description_errors(description: Seq<char>) -> Seq<WaqfValidationErrorView> {
    let t = trimmed(description);
    if t.len() == 0 {
        seq![WaqfValidationErrorView::DescriptionEmpty]
    } else {
        when(
            utf8_len(t) < MIN_DESCRIPTION_LENGTH,
            WaqfValidationErrorView::DescriptionTooShort {
                min_length: MIN_DESCRIPTION_LENGTH,
                actual: utf8_len(t),
            },
        ) + when(
            utf8_len(t) > MAX_DESCRIPTION_LENGTH,
            WaqfValidationErrorView::DescriptionTooLong {
                max_length: MAX_DESCRIPTION_LENGTH,
                actual: utf8_len(t),
            },
        )
    }
}

/// The rules that a principal violates: it lies between the minimum and the
/// maximum.
pub open spec fn asset_errors(amount: i64) -> Seq<WaqfValidationErrorView> {
    when(
        amount < MIN_WAQF_ASSET,
        WaqfValidationErrorView::InitialCapitalTooLow { min_amount: MIN_WAQF_ASSET, actual: amount },
    ) + when(
        amount > MAX_WAQF_ASSET,
        WaqfValidationErrorView::InitialCapitalTooHigh {
            max_amount: MAX_WAQF_ASSET,
            actual: amount,
        },
    )
}

/// Whether an amount has more than two decimal places.
pub open spec fn finer_than_hundredths(amount: i64) -> bool {
    amount as int % (TOLERANCE as int) != 0
}

/// The warning about a principal: it has more than two decimal places.
pub open spec fn asset_warnings(amount: i64) -> Seq<Seq<char>> {
    if finer_than_hundredths(amount) {
        seq!["Initial capital has more than 2 decimal places - will be rounded"@]
    } else {
        Seq::empty()
    }
}

/// The rule that a donor's name violates: trimmed, it is not empty and at
/// least 2 bytes long.
pub open spec fn donor_name_errors(name: Seq<char>) -> Seq<WaqfValidationErrorView> {
    let t = trimmed(name);
    if t.len() == 0 {
        seq![WaqfValidationErrorView::DonorNameEmpty]
    } else {
        when(
            utf8_len(t) < MIN_NAME_LENGTH,
            WaqfValidationErrorView::DonorNameTooShort {
                min_length: MIN_NAME_LENGTH,
                actual: utf8_len(t),
            },
        )
    }
}

/// The rule that a donor's email address violates: it is not blank and
/// looks like an email address.
pub open spec fn donor_email_errors(email: Seq<char>) -> Seq<WaqfValidationErrorView> {
    if is_blank(email) {
        seq![WaqfValidationErrorView::DonorEmailEmpty]
    } else {
        when(!valid_email(email), WaqfValidationErrorView::DonorEmailInvalidFormat(email))
    }
}

/// The rule that a donor's phone number violates: trimmed, it is not empty
/// and 10 to 20 bytes long.
pub open spec fn donor_phone_errors(phone: Seq<char>) -> Seq<WaqfValidationErrorView> {
    let t = trimmed(phone);
    if t.len() == 0 {
        seq![WaqfValidationErrorView::DonorPhoneEmpty]
    } else {
        when(
            utf8_len(t) < MIN_PHONE_LENGTH || utf8_len(t) > MAX_PHONE_LENGTH,
            WaqfValidationErrorView::DonorPhoneInvalidLength {
                min: MIN_PHONE_LENGTH,
                max: MAX_PHONE_LENGTH,
                actual: utf8_len(t),
            },
        )
    }
}

/// The rule that a donor's address violates: trimmed, it is not empty and
/// 10 to 200 bytes long.
pub open spec fn donor_address_errors(address: Seq<char>) -> Seq<WaqfValidationErrorView> {
    let t = trimmed(address);
    if t.len() == 0 {
        seq![WaqfValidationErrorView::DonorAddressEmpty]
    } else if utf8_len(t) < MIN_ADDRESS_LENGTH {
        seq![
            WaqfValidationErrorView::DonorAddressTooShort {
                min_length: MIN_ADDRESS_LENGTH,
                actual: utf8_len(t),
            },
        ]
    } else {
        when(
            utf8_len(t) > MAX_ADDRESS_LENGTH,
            WaqfValidationErrorView::DonorAddressTooLong {
                max_length: MAX_ADDRESS_LENGTH,
                actual: utf8_len(t),
            },
        )
    }
}

/// The rules that a donor profile violates, for name, email, phone and
/// address in turn.
pub open spec fn donor_errors(d: DonorProfileView) -> Seq<WaqfValidationErrorView> {
    donor_name_errors(d.name) + donor_email_errors(d.email) + donor_phone_errors(d.phone)
        + donor_address_errors(d.address)
}

/// One error for each blank cause identifier of a list, in order.
pub open spec fn blank_cause_errors(causes: Seq<Seq<char>>) -> Seq<WaqfValidationErrorView>
    decreases causes.len(),
{
    if causes.len() == 0 {
        Seq::empty()
    } else {
        blank_cause_errors(causes.drop_last()) + when(
            is_blank(causes.last()),
            WaqfValidationErrorView::InvalidCauseId(causes.last()),
        )
    }
}

/// The rules that the selected causes violate: there is at least one, and
/// none has a blank identifier.
pub open spec fn causes_errors(causes: Seq<Seq<char>>) -> Seq<WaqfValidationErrorView> {
    when(causes.len() == 0, WaqfValidationErrorView::NoCausesSelected) + blank_cause_errors(causes)
}

/// The rule that a status can violate: it is one of the five waqf statuses.
pub open spec fn status_errors(status: Seq<char>) -> Seq<WaqfValidationErrorView> {
    when(
        WaqfStatus::from_text(status) is None,
        WaqfValidationErrorView::InvalidStatus { status },
    )
}

/// Whether a text is a reporting frequency.
pub open spec fn valid_frequency(s: Seq<char>) -> bool {
    s == "quarterly"@ || s == "semiannually"@ || s == "yearly"@
}

/// Whether a text is a report type.
pub open spec fn valid_report_type(s: Seq<char>) -> bool {
    s == "financial"@ || s == "impact"@
}

/// Whether a text is a delivery method.
pub open spec fn valid_delivery_method(s: Seq<char>) -> bool {
    s == "email"@ || s == "platform"@ || s == "both"@
}

/// One error for each unknown report type of a list, in order.
pub open spec fn report_type_errors(types: Seq<Seq<char>>) -> Seq<WaqfValidationErrorView>
    decreases types.len(),
{
    if types.len() == 0 {
        Seq::empty()
    } else {
        report_type_errors(types.drop_last()) + when(
            !valid_report_type(types.last()),
            WaqfValidationErrorView::InvalidReportType { report_type: types.last() },
        )
    }
}

/// The rules that reporting preferences violate: frequency, report types and
/// delivery method are known values.
pub open spec fn reporting_errors(p: ReportingPreferencesView) -> Seq<WaqfValidationErrorView> {
    when(
        !valid_frequency(p.frequency),
        WaqfValidationErrorView::InvalidReportingFrequency { frequency: p.frequency },
    ) + report_type_errors(p.report_types) + when(
        !valid_delivery_method(p.delivery_method),
        WaqfValidationErrorView::InvalidDeliveryMethod { method: p.delivery_method },
    )
}

/// The balance that the other figures imply: donations less distributions
/// plus investment returns.
pub open spec fn expected_balance(f: FinancialMetricsView) -> int {
    f.total_donations - f.total_distributed + f.total_investment_return
}

/// Whether the balance agrees with the other figures within the tolerance.
pub open spec fn balance_consistent(f: FinancialMetricsView) -> bool {
    -(TOLERANCE as int) <= expected_balance(f) - f.current_balance <= TOLERANCE as int
}

/// The rules that financial figures violate: donations, distributions and
/// balance are not negative, and the balance agrees with the other figures.
pub open spec fn financial_errors(f: FinancialMetricsView) -> Seq<WaqfValidationErrorView> {
    when(
        f.total_donations < 0,
        WaqfValidationErrorView::NegativeFinancialValue {
            field: "total_donations"@,
            value: f.total_donations,
        },
    ) + when(
        f.total_distributed < 0,
        WaqfValidationErrorView::NegativeFinancialValue {
            field: "total_distributed"@,
            value: f.total_distributed,
        },
    ) + when(
        f.current_balance < 0,
        WaqfValidationErrorView::NegativeFinancialValue {
            field: "current_balance"@,
            value: f.current_balance,
        },
    ) + when(
        !balance_consistent(f),
        WaqfValidationErrorView::InconsistentFinancialData(
            "Current balance doesn't match calculated balance"@,
        ),
    )
}

/// The rules that the timestamps violate: the creation time is not blank,
/// nor is the update time where there is one.
pub open spec fn timestamp_errors(created_at: Seq<char>, updated_at: Option<Seq<char>>) -> Seq<
    WaqfValidationErrorView,
> {
    when(is_blank(created_at), WaqfValidationErrorView::CreatedAtEmpty) + when(
        updated_at is Some && is_blank(updated_at->0),
        WaqfValidationErrorView::InvalidTimestampFormat("Updated timestamp is empty"@),
    )
}

/// The rule that the creator can violate: it is not blank.
pub open spec fn creator_errors(created_by: Seq<char>) -> Seq<WaqfValidationErrorView> {
    when(is_blank(created_by), WaqfValidationErrorView::CreatedByEmpty)
}

/// Whether a waqf may go from one status text to another: the texts are the
/// same, or both name statuses joined by an edge of the transition graph.
pub open spec fn transition_allowed(from: Seq<char>, to: Seq<char>) -> bool {
    from == to || (WaqfStatus::from_text(from) is Some && WaqfStatus::from_text(to) is Some
        && WaqfStatus::from_text(from)->0.may_become(WaqfStatus::from_text(to)->0))
}

/// The rule that a status change can violate: the transition is allowed.
pub open spec fn transition_errors(from: Seq<char>, to: Seq<char>) -> Seq<WaqfValidationErrorView> {
    when(
        !transition_allowed(from, to),
        WaqfValidationErrorView::InvalidStatusTransition { from, to },
    )
}

/// Whether an update leaves every field of a waqf as it was, but for its
/// status and its financial figures. The table of percentages is compared by
/// what it records for each cause.
pub open spec fn keeps_all_but_figures(current: WaqfDataView, new: WaqfDataView) -> bool {
    &&& tables_agree(current.cause_allocation, new.cause_allocation)
    &&& (WaqfDataView {
        status: current.status,
        financial: current.financial,
        cause_allocation: current.cause_allocation,
        ..new
    }) == current
}

/// Whether an update of a completed waqf is confined to its financial
/// figures.
///
/// Only `financial` may differ. The stamps `updated_at` and
/// `last_contribution_date` and the tranche list are not part of it: a
/// completed waqf takes postings to its figures, such as late returns, and
/// no new contribution. The status stays as it is or becomes `archived`; a
/// move to `archived` may carry changes of the figures and nothing else.
pub open spec fn confined_to_financial(current: WaqfDataView, new: WaqfDataView) -> bool {
    keeps_all_but_figures(current, new) && (new.status == current.status || new.status
        == "archived"@)
}

/// The rule on who may still be modified: an archived waqf never; a
/// completed one only by an update confined to its financial figures.
pub open spec fn permission_errors(current: WaqfDataView, new: WaqfDataView) -> Seq<
    WaqfValidationErrorView,
> {
    if current.status == "archived"@ {
        seq![WaqfValidationErrorView::ArchivedWaqfModification]
    } else {
        when(
            current.status == "completed"@ && !confined_to_financial(current, new),
            WaqfValidationErrorView::CompletedWaqfModification,
        )
    }
}

/// The rules that apply to an update only: status transition and
/// permission to modify.
pub open spec fn update_errors(current: Option<WaqfDataView>, new: WaqfDataView) -> Seq<
    WaqfValidationErrorView,
> {
    match current {
        Some(c) => transition_errors(c.status, new.status) + permission_errors(c, new),
        None => Seq::empty(),
    }
}

/// Warnings of the business rules: an active waqf with a principal below
/// one whole unit, and changes of name or principal of a waqf that is active.
pub open spec fn business_warnings(data: WaqfDataView, current: Option<WaqfDataView>) -> Seq<
    Seq<char>,
> {
    (if data.status == "active"@ && data.waqf_asset < SCALE {
        seq!["Active waqf with very low initial capital"@]
    } else {
        Seq::empty()
    }) + (if current is Some && current->0.status == "active"@ && current->0.name != data.name {
        seq!["Changing name of active waqf requires additional approval"@]
    } else {
        Seq::empty()
    }) + (if current is Some && current->0.status == "active"@ && current->0.waqf_asset
        != data.waqf_asset {
        seq!["Changing initial capital of active waqf requires financial audit"@]
    } else {
        Seq::empty()
    })
}

/// The rules on what a waqf is that a record violates: identifier, name,
/// description and principal.
pub open spec fn identity_errors(data: WaqfDataView) -> Seq<WaqfValidationErrorView> {
    id_errors(data.id) + name_errors(data.name) + description_errors(data.description)
        + asset_errors(data.waqf_asset)
}

/// The rules on who and what a waqf is for that a record violates: donor,
/// causes and status.
pub open spec fn standing_errors(data: WaqfDataView) -> Seq<WaqfValidationErrorView> {
    donor_errors(data.donor) + causes_errors(data.selected_causes) + status_errors(data.status)
}

/// The rules on its books that a record violates: reporting preferences,
/// finances, timestamps and creator.
pub open spec fn bookkeeping_errors(data: WaqfDataView) -> Seq<WaqfValidationErrorView> {
    reporting_errors(data.reporting_preferences) + financial_errors(data.financial)
        + timestamp_errors(data.created_at, data.updated_at) + creator_errors(data.created_by)
}

/// Every rule that a waqf record violates, in the order of the checks:
/// identifier, name, description, principal, donor, causes, status,
/// reporting preferences, finances, timestamps, creator and, for an update
/// of `current`, status transition and permission to modify.
pub open spec fn waqf_errors(data: WaqfDataView, current: Option<WaqfDataView>) -> Seq<
    WaqfValidationErrorView,
> {
    identity_errors(data) + standing_errors(data) + bookkeeping_errors(data) + update_errors(
        current,
        data,
    )
}

/// Every warning about a waqf record.
pub open spec fn waqf_warnings(data: WaqfDataView, current: Option<WaqfDataView>) -> Seq<Seq<char>> {
    asset_warnings(data.waqf_asset) + business_warnings(data, current)
}

/// Whether a character may occur in a text field.
pub fn is_valid_text_character(c: char) -> (r: bool)
    ensures
        r == valid_text_character(c),
{
    is_alphanumeric(c) || is_whitespace(c) || contains_char(
        ".,!?;:()[]{}\"'-_/\\@#$%&*+=<>|~`^°§",
        c,
    )
}

/// Whether a text looks like an email address.
pub fn is_valid_email(email: &str) -> (r: bool)
    ensures
        r == valid_email(email@),
{
    contains_char(email, '@') && contains_char(email, '.') && email.len() > 5
}

/// Checks the identifier of a waqf.
pub fn validate_waqf_id(id: &str, result: &mut WaqfValidationResult)
    ensures
        final(result)@ == old(result)@.and_errors(id_errors(id@)),
{
    if is_blank_text(id) {
        result.add_error(WaqfValidationError::IdEmpty);
    } else {
        assert(result@.errors + Seq::<WaqfValidationErrorView>::empty() =~= result@.errors);
    }
}

fn collect_invalid_characters(t: &str) -> (r: String)
    ensures
        r@ == invalid_characters(t@),
{
    let chars = chars_of(t);
    let mut r = String::new();
    let mut i: usize = 0;
    assert(t@.take(0) =~= Seq::<char>::empty());
    while i < chars.len()
        invariant
            i <= chars@.len(),
            chars@ == t@,
            r@ == invalid_characters(t@.take(i as int)),
        decreases chars@.len() - i,
    {
        assert(t@.take(i + 1).drop_last() =~= t@.take(i as int));
        assert(t@.take(i + 1).last() == chars@[i as int]);
        if !is_valid_text_character(chars[i]) {
            let one = t.substring_char(i, i + 1);
            assert(one@ =~= seq![chars@[i as int]]);
            r.append(one);
            assert(r@ =~= invalid_characters(t@.take(i as int)).push(chars@[i as int]));
        }
        i = i + 1;
    }
    assert(t@.take(i as int) =~= t@);
    r
}

/// Checks the name of a waqf.
pub fn validate_waqf_name(name: &str, result: &mut WaqfValidationResult)
    ensures
        final(result)@ == old(result)@.and_errors(name_errors(name@)),
{
    let t = trim(name);
    if t.is_empty() {
        result.add_error(WaqfValidationError::NameEmpty);
        return ;
    }
    let ghost start = result@;
    if t.len() < MIN_NAME_LENGTH {
        result.add_error(
            WaqfValidationError::NameTooShort { min_length: MIN_NAME_LENGTH, actual: t.len() },
        );
    }
    if t.len() > MAX_NAME_LENGTH {
        result.add_error(
            WaqfValidationError::NameTooLong { max_length: MAX_NAME_LENGTH, actual: t.len() },
        );
    }
    let invalid = collect_invalid_characters(t);
    if !invalid.as_str().is_empty() {
        result.add_error(WaqfValidationError::NameContainsInvalidCharacters(invalid));
    }
    assert(result@.errors =~= start.errors + name_errors(name@));
}

/// Checks the description of a waqf.
pub fn validate_waqf_description(description: &str, result: &mut WaqfValidationResult)
    ensures
        final(result)@ == old(result)@.and_errors(description_errors(description@)),
{
    let t = trim(description);
    if t.is_empty() {
        result.add_error(WaqfValidationError::DescriptionEmpty);
        return ;
    }
    let ghost start = result@;
    if t.len() < MIN_DESCRIPTION_LENGTH {
        result.add_error(
            WaqfValidationError::DescriptionTooShort {
                min_length: MIN_DESCRIPTION_LENGTH,
                actual: t.len(),
            },
        );
    }
    if t.len() > MAX_DESCRIPTION_LENGTH {
        result.add_error(
            WaqfValidationError::DescriptionTooLong {
                max_length: MAX_DESCRIPTION_LENGTH,
                actual: t.len(),
            },
        );
    }
    assert(result@.errors =~= start.errors + description_errors(description@));
}

fn has_fine_decimals(amount: i64) -> (r: bool)
    ensures
        r == finer_than_hundredths(amount),
{
    match amount.checked_rem_euclid(TOLERANCE) {
        Some(rest) => rest != 0,
        None => false,
    }
}

/// Checks the principal of a waqf.
pub fn validate_waqf_asset(amount: i64, result: &mut WaqfValidationResult)
    ensures
        final(result)@ == old(result)@.and_errors(asset_errors(amount)).and_warnings(
            asset_warnings(amount),
        ),
{
    let ghost start = result@;
    if amount < MIN_WAQF_ASSET {
        result.add_error(
            WaqfValidationError::InitialCapitalTooLow { min_amount: MIN_WAQF_ASSET, actual: amount },
        );
    }
    if amount > MAX_WAQF_ASSET {
        result.add_error(
            WaqfValidationError::InitialCapitalTooHigh {
                max_amount: MAX_WAQF_ASSET,
                actual: amount,
            },
        );
    }
    if has_fine_decimals(amount) {
        result.add_warning(
            String::from_str("Initial capital has more than 2 decimal places - will be rounded"),
        );
    }
    assert(result@.errors =~= start.errors + asset_errors(amount));
    assert(result@.warnings =~= start.warnings + asset_warnings(amount));
}

fn validate_donor_name(name: &str, result: &mut WaqfValidationResult)
    ensures
        final(result)@ == old(result)@.and_errors(donor_name_errors(name@)),
{
    let t = trim(name);
    if t.is_empty() {
        result.add_error(WaqfValidationError::DonorNameEmpty);
    } else if t.len() < MIN_NAME_LENGTH {
        result.add_error(
            WaqfValidationError::DonorNameTooShort { min_length: MIN_NAME_LENGTH, actual: t.len() },
        );
    } else {
        assert(result@.errors + Seq::<WaqfValidationErrorView>::empty() =~= result@.errors);
    }
}

fn validate_donor_email(email: &String, result: &mut WaqfValidationResult)
    ensures
        final(result)@ == old(result)@.and_errors(donor_email_errors(email@)),
{
    if is_blank_text(email.as_str()) {
        result.add_error(WaqfValidationError::DonorEmailEmpty);
    } else if !is_valid_email(email.as_str()) {
        result.add_error(WaqfValidationError::DonorEmailInvalidFormat(email.clone()));
    } else {
        assert(result@.errors + Seq::<WaqfValidationErrorView>::empty() =~= result@.errors);
    }
}

fn validate_donor_phone(phone: &str, result: &mut WaqfValidationResult)
    ensures
        final(result)@ == old(result)@.and_errors(donor_phone_errors(phone@)),
{
    let t = trim(phone);
    if t.is_empty() {
        result.add_error(WaqfValidationError::DonorPhoneEmpty);
    } else if t.len() < MIN_PHONE_LENGTH || t.len() > MAX_PHONE_LENGTH {
        result.add_error(
            WaqfValidationError::DonorPhoneInvalidLength {
                min: MIN_PHONE_LENGTH,
                max: MAX_PHONE_LENGTH,
                actual: t.len(),
            },
        );
    } else {
        assert(result@.errors + Seq::<WaqfValidationErrorView>::empty() =~= result@.errors);
    }
}

fn validate_donor_address(address: &str, result: &mut WaqfValidationResult)
    ensures
        final(result)@ == old(result)@.and_errors(donor_address_errors(address@)),
{
    let t = trim(address);
    if t.is_empty() {
        result.add_error(WaqfValidationError::DonorAddressEmpty);
    } else if t.len() < MIN_ADDRESS_LENGTH {
        result.add_error(
            WaqfValidationError::DonorAddressTooShort {
                min_length: MIN_ADDRESS_LENGTH,
                actual: t.len(),
            },
        );
    } else if t.len() > MAX_ADDRESS_LENGTH {
        result.add_error(
            WaqfValidationError::DonorAddressTooLong {
                max_length: MAX_ADDRESS_LENGTH,
                actual: t.len(),
            },
        );
    } else {
        assert(result@.errors + Seq::<WaqfValidationErrorView>::empty() =~= result@.errors);
    }
}

/// Checks the donor of a waqf.
pub fn validate_donor_profile(donor: &DonorProfile, result: &mut WaqfValidationResult)
    ensures
        final(result)@ == old(result)@.and_errors(donor_errors(donor@)),
{
    let ghost start = result@;
    validate_donor_name(donor.name.as_str(), result);
    validate_donor_email(&donor.email, result);
    validate_donor_phone(donor.phone.as_str(), result);
    validate_donor_address(donor.address.as_str(), result);
    assert(result@.errors =~= start.errors + donor_errors(donor@));
}

/// Checks the causes that a waqf supports.
pub fn validate_selected_causes(causes: &Vec<String>, result: &mut WaqfValidationResult)
    ensures
        final(result)@ == old(result)@.and_errors(causes_errors(views_of(causes@))),
{
    let ghost start = result@;
    let ghost all = views_of(causes@);
    if causes.len() == 0 {
        result.add_error(WaqfValidationError::NoCausesSelected);
    }
    let ghost first = when(all.len() == 0, WaqfValidationErrorView::NoCausesSelected);
    assert(result@.errors =~= start.errors + first);
    let mut i: usize = 0;
    assert(all.take(0) =~= Seq::<Seq<char>>::empty());
    while i < causes.len()
        invariant
            i <= causes@.len(),
            all == views_of(causes@),
            result@.is_valid == (start.is_valid && (first + blank_cause_errors(
                all.take(i as int),
            )).len() == 0),
            result@.warnings == start.warnings,
            result@.errors == start.errors + first + blank_cause_errors(all.take(i as int)),
        decreases causes@.len() - i,
    {
        assert(all.take(i + 1).drop_last() =~= all.take(i as int));
        assert(all.take(i + 1).last() == causes@[i as int]@);
        let ghost before = result@.errors;
        if is_blank_text(causes[i].as_str()) {
            result.add_error(WaqfValidationError::InvalidCauseId(causes[i].clone()));
        }
        assert(result@.errors =~= start.errors + first + blank_cause_errors(all.take(i + 1)));
        i = i + 1;
    }
    assert(all.take(i as int) =~= all);
    assert(result@.errors =~= start.errors + causes_errors(all));
}

/// Checks the status of a waqf.
pub fn validate_waqf_status(status: &str, result: &mut WaqfValidationResult)
    ensures
        final(result)@ == old(result)@.and_errors(status_errors(status@)),
{
    if WaqfStatus::parse(status).is_none() {
        result.add_error(WaqfValidationError::InvalidStatus { status: String::from_str(status) });
    } else {
        assert(result@.errors + Seq::<WaqfValidationErrorView>::empty() =~= result@.errors);
    }
}

/// Checks the notification switches, on which there is no rule.
pub fn validate_notification_preferences(
    notifications: &NotificationPreferences,
    result: &mut WaqfValidationResult,
)
    ensures
        final(result)@ == old(result)@,
{
}

fn validate_report_types(types: &Vec<String>, result: &mut WaqfValidationResult)
    ensures
        final(result)@ == old(result)@.and_errors(report_type_errors(views_of(types@))),
{
    let ghost start = result@;
    let ghost all = views_of(types@);
    let mut i: usize = 0;
    assert(all.take(0) =~= Seq::<Seq<char>>::empty());
    assert(result@.errors =~= start.errors + report_type_errors(all.take(0)));
    while i < types.len()
        invariant
            i <= types@.len(),
            all == views_of(types@),
            result@.is_valid == (start.is_valid && report_type_errors(all.take(i as int)).len()
                == 0),
            result@.warnings == start.warnings,
            result@.errors == start.errors + report_type_errors(all.take(i as int)),
        decreases types@.len() - i,
    {
        assert(all.take(i + 1).drop_last() =~= all.take(i as int));
        assert(all.take(i + 1).last() == types@[i as int]@);
        if !is_text(&types[i], "financial") && !is_text(&types[i], "impact") {
            result.add_error(
                WaqfValidationError::InvalidReportType { report_type: types[i].clone() },
            );
        }
        assert(result@.errors =~= start.errors + report_type_errors(all.take(i + 1)));
        i = i + 1;
    }
    assert(all.take(i as int) =~= all);
}

/// Checks the reporting preferences of a waqf.
pub fn validate_reporting_preferences(prefs: &ReportingPreferences, result: &mut WaqfValidationResult)
    ensures
        final(result)@ == old(result)@.and_errors(reporting_errors(prefs@)),
{
    let ghost start = result@;
    if !is_text(&prefs.frequency, "quarterly") && !is_text(&prefs.frequency, "semiannually")
        && !is_text(&prefs.frequency, "yearly") {
        result.add_error(
            WaqfValidationError::InvalidReportingFrequency { frequency: prefs.frequency.clone() },
        );
    }
    validate_report_types(&prefs.report_types, result);
    if !is_text(&prefs.delivery_method, "email") && !is_text(&prefs.delivery_method, "platform")
        && !is_text(&prefs.delivery_method, "both") {
        result.add_error(
            WaqfValidationError::InvalidDeliveryMethod { method: prefs.delivery_method.clone() },
        );
    }
    assert(result@.errors =~= start.errors + reporting_errors(prefs@));
}

/// Checks the financial figures of a waqf.
pub fn validate_financial_metrics(financial: &FinancialMetrics, result: &mut WaqfValidationResult)
    ensures
        final(result)@ == old(result)@.and_errors(financial_errors(financial@)),
{
    let ghost start = result@;
    if financial.total_donations < 0 {
        result.add_error(
            WaqfValidationError::NegativeFinancialValue {
                field: String::from_str("total_donations"),
                value: financial.total_donations,
            },
        );
    }
    if financial.total_distributed < 0 {
        result.add_error(
            WaqfValidationError::NegativeFinancialValue {
                field: String::from_str("total_distributed"),
                value: financial.total_distributed,
            },
        );
    }
    if financial.current_balance < 0 {
        result.add_error(
            WaqfValidationError::NegativeFinancialValue {
                field: String::from_str("current_balance"),
                value: financial.current_balance,
            },
        );
    }
    let expected: i128 = financial.total_donations as i128 - financial.total_distributed as i128
        + financial.total_investment_return as i128;
    let gap: i128 = expected - financial.current_balance as i128;
    if gap > TOLERANCE as i128 || gap < -(TOLERANCE as i128) {
        result.add_error(
            WaqfValidationError::InconsistentFinancialData(
                String::from_str("Current balance doesn't match calculated balance"),
            ),
        );
    }
    assert(result@.errors =~= start.errors + financial_errors(financial@));
}

/// Checks the timestamps of a waqf.
pub fn validate_waqf_timestamps(
    created_at: &str,
    updated_at: &Option<String>,
    result: &mut WaqfValidationResult,
)
    ensures
        final(result)@ == old(result)@.and_errors(
            timestamp_errors(created_at@, view_of(*updated_at)),
        ),
{
    let ghost start = result@;
    if is_blank_text(created_at) {
        result.add_error(WaqfValidationError::CreatedAtEmpty);
    }
    match updated_at {
        Some(updated) => {
            if is_blank_text(updated.as_str()) {
                result.add_error(
                    WaqfValidationError::InvalidTimestampFormat(
                        String::from_str("Updated timestamp is empty"),
                    ),
                );
            }
        },
        None => {},
    }
    assert(result@.errors =~= start.errors + timestamp_errors(created_at@, view_of(*updated_at)));
}

/// Checks the creator of a waqf.
pub fn validate_waqf_creator(created_by: &str, result: &mut WaqfValidationResult)
    ensures
        final(result)@ == old(result)@.and_errors(creator_errors(created_by@)),
{
    if is_blank_text(created_by) {
        result.add_error(WaqfValidationError::CreatedByEmpty);
    } else {
        assert(result@.errors + Seq::<WaqfValidationErrorView>::empty() =~= result@.errors);
    }
}

/// Whether a waqf may go from one status text to another.
pub fn is_transition_allowed(from: &str, to: &str) -> (r: bool)
    ensures
        r == transition_allowed(from@, to@),
{
    if crate::text::same_text(from, to) {
        return true;
    }
    match (WaqfStatus::parse(from), WaqfStatus::parse(to)) {
        (Some(f), Some(t)) => f.allows(t),
        _ => false,
    }
}

/// Checks a change of status against the transition graph.
pub fn validate_waqf_status_transition(from: &str, to: &str, result: &mut WaqfValidationResult)
    ensures
        final(result)@ == old(result)@.and_errors(transition_errors(from@, to@)),
{
    if !is_transition_allowed(from, to) {
        result.add_error(
            WaqfValidationError::InvalidStatusTransition {
                from: String::from_str(from),
                to: String::from_str(to),
            },
        );
    } else {
        assert(result@.errors + Seq::<WaqfValidationErrorView>::empty() =~= result@.errors);
    }
}

fn keeps_identity(current: &WaqfData, new: &WaqfData) -> (r: bool)
    ensures
        r == (current@.id == new@.id && current@.name == new@.name && current@.description
            == new@.description && current@.waqf_asset == new@.waqf_asset && current@.donor
            == new@.donor && current@.created_by == new@.created_by && current@.created_at
            == new@.created_at && current@.deed_document == new@.deed_document),
{
    current.id == new.id && current.name == new.name && current.description == new.description
        && current.waqf_asset == new.waqf_asset && current.donor.same_as(&new.donor)
        && current.created_by == new.created_by && current.created_at == new.created_at
        && same_option(&current.deed_document, &new.deed_document)
}

fn keeps_purpose(current: &WaqfData, new: &WaqfData) -> (r: bool)
    ensures
        r == (current@.selected_causes == new@.selected_causes && tables_agree(
            current@.cause_allocation,
            new@.cause_allocation,
        ) && current@.is_donated == new@.is_donated && current@.notifications == new@.notifications
            && current@.reporting_preferences == new@.reporting_preferences),
{
    same_list(&current.selected_causes, &new.selected_causes) && same_table(
        &current.cause_allocation,
        &new.cause_allocation,
    ) && current.is_donated == new.is_donated && current.notifications == new.notifications
        && current.reporting_preferences.same_as(&new.reporting_preferences)
}

fn keeps_kind(current: &WaqfData, new: &WaqfData) -> (r: bool)
    ensures
        r == (current@.waqf_type == new@.waqf_type && current@.is_hybrid == new@.is_hybrid
            && current@.hybrid_allocations == new@.hybrid_allocations
            && current@.consumable_details == new@.consumable_details
            && current@.revolving_details == new@.revolving_details
            && current@.investment_strategy == new@.investment_strategy),
{
    current.waqf_type == new.waqf_type && current.is_hybrid == new.is_hybrid
        && same_optional_list(&current.hybrid_allocations, &new.hybrid_allocations)
        && same_option(&current.consumable_details, &new.consumable_details) && same_option(
        &current.revolving_details,
        &new.revolving_details,
    ) && same_option(&current.investment_strategy, &new.investment_strategy)
}

fn keeps_dates(current: &WaqfData, new: &WaqfData) -> (r: bool)
    ensures
        r == (current@.updated_at == new@.updated_at && current@.last_contribution_date
            == new@.last_contribution_date && current@.next_contribution_date
            == new@.next_contribution_date && current@.next_report_date
            == new@.next_report_date),
{
    same_option(&current.updated_at, &new.updated_at) && same_option(
        &current.last_contribution_date,
        &new.last_contribution_date,
    ) && same_option(&current.next_contribution_date, &new.next_contribution_date)
        && same_option(&current.next_report_date, &new.next_report_date)
}

/// Whether an update leaves every field of a waqf as it was, but for its
/// status and its financial figures.
pub fn leaves_all_but_figures(current: &WaqfData, new: &WaqfData) -> (r: bool)
    ensures
        r == keeps_all_but_figures(current@, new@),
{
    keeps_identity(current, new) && keeps_purpose(current, new) && keeps_kind(current, new)
        && keeps_dates(current, new)
}

/// Whether an update of a completed waqf is confined to its financial
/// figures.
pub fn is_confined_to_financial(current: &WaqfData, new: &WaqfData) -> (r: bool)
    ensures
        r == confined_to_financial(current@, new@),
{
    leaves_all_but_figures(current, new) && (current.status == new.status || is_text(
        &new.status,
        "archived",
    ))
}

/// Checks that the stored waqf may still be modified as the update does.
pub fn validate_waqf_update_permissions(
    current: &WaqfData,
    new: &WaqfData,
    result: &mut WaqfValidationResult,
)
    ensures
        final(result)@ == old(result)@.and_errors(permission_errors(current@, new@)),
{
    if is_text(&current.status, "archived") {
        result.add_error(WaqfValidationError::ArchivedWaqfModification);
        return ;
    }
    if is_text(&current.status, "completed") && !is_confined_to_financial(current, new) {
        result.add_error(WaqfValidationError::CompletedWaqfModification);
        return ;
    }
    assert(result@.errors + Seq::<WaqfValidationErrorView>::empty() =~= result@.errors);
}

/// Raises the warnings of the business rules.
pub fn validate_waqf_business_rules(
    data: &WaqfData,
    current_data: Option<&WaqfData>,
    result: &mut WaqfValidationResult,
)
    ensures
        final(result)@ == old(result)@.and_warnings(
            business_warnings(data@, model_of(current_data)),
        ),
{
    let ghost start = result@;
    if is_text(&data.status, "active") && data.waqf_asset < SCALE {
        result.add_warning(String::from_str("Active waqf with very low initial capital"));
    }
    match current_data {
        Some(current) => {
            if is_text(&current.status, "active") {
                if current.name != data.name {
                    result.add_warning(
                        String::from_str(
                            "Changing name of active waqf requires additional approval",
                        ),
                    );
                }
                if current.waqf_asset != data.waqf_asset {
                    result.add_warning(
                        String::from_str(
                            "Changing initial capital of active waqf requires financial audit",
                        ),
                    );
                }
            }
        },
        None => {},
    }
    assert(result@.warnings =~= start.warnings + business_warnings(
        data@,
        model_of(current_data),
    ));
}

/// The model of an optional reference to a waqf.
pub open spec fn model_of(w: Option<&WaqfData>) -> Option<WaqfDataView> {
    match w {
        Some(w) => Some(w@),
        None => None,
    }
}

/// Recording errors in two steps is recording them in one.
pub proof fn lemma_errors_accumulate(
    r: WaqfValidationResultView,
    a: Seq<WaqfValidationErrorView>,
    b: Seq<WaqfValidationErrorView>,
)
    ensures
        r.and_errors(a).and_errors(b) == r.and_errors(a + b),
{
    assert((r.errors + a) + b =~= r.errors + (a + b));
}

/// Warnings and errors are recorded independently of each other.
pub proof fn lemma_warnings_commute(
    r: WaqfValidationResultView,
    w: Seq<Seq<char>>,
    e: Seq<WaqfValidationErrorView>,
)
    ensures
        r.and_warnings(w).and_errors(e) == r.and_errors(e).and_warnings(w),
{
}

fn validate_identity(data: &WaqfData, result: &mut WaqfValidationResult)
    ensures
        final(result)@ == old(result)@.and_errors(identity_errors(data@)).and_warnings(
            asset_warnings(data@.waqf_asset),
        ),
{
    validate_waqf_id(data.id.as_str(), result);
    validate_waqf_name(data.name.as_str(), result);
    validate_waqf_description(data.description.as_str(), result);
    validate_waqf_asset(data.waqf_asset, result);
    proof {
        let start = old(result)@;
        let a = id_errors(data@.id);
        let b = name_errors(data@.name);
        let c = description_errors(data@.description);
        let d = asset_errors(data@.waqf_asset);
        lemma_errors_accumulate(start, a, b);
        lemma_errors_accumulate(start, a + b, c);
        lemma_errors_accumulate(start, a + b + c, d);
    }
}

fn validate_standing(data: &WaqfData, result: &mut WaqfValidationResult)
    ensures
        final(result)@ == old(result)@.and_errors(standing_errors(data@)),
{
    validate_donor_profile(&data.donor, result);
    validate_selected_causes(&data.selected_causes, result);
    validate_waqf_status(data.status.as_str(), result);
    proof {
        let start = old(result)@;
        let a = donor_errors(data@.donor);
        let b = causes_errors(data@.selected_causes);
        let c = status_errors(data@.status);
        lemma_errors_accumulate(start, a, b);
        lemma_errors_accumulate(start, a + b, c);
    }
}

fn validate_bookkeeping(data: &WaqfData, result: &mut WaqfValidationResult)
    ensures
        final(result)@ == old(result)@.and_errors(bookkeeping_errors(data@)),
{
    validate_notification_preferences(&data.notifications, result);
    validate_reporting_preferences(&data.reporting_preferences, result);
    validate_financial_metrics(&data.financial, result);
    validate_waqf_timestamps(data.created_at.as_str(), &data.updated_at, result);
    validate_waqf_creator(data.created_by.as_str(), result);
    proof {
        let start = old(result)@;
        let a = reporting_errors(data@.reporting_preferences);
        let b = financial_errors(data@.financial);
        let c = timestamp_errors(data@.created_at, data@.updated_at);
        let d = creator_errors(data@.created_by);
        lemma_errors_accumulate(start, a, b);
        lemma_errors_accumulate(start, a + b, c);
        lemma_errors_accumulate(start, a + b + c, d);
    }
}

fn validate_update(data: &WaqfData, current_data: Option<&WaqfData>, result: &mut WaqfValidationResult)
    ensures
        final(result)@ == old(result)@.and_errors(update_errors(model_of(current_data), data@)),
{
    match current_data {
        Some(current) => {
            validate_waqf_status_transition(current.status.as_str(), data.status.as_str(), result);
            validate_waqf_update_permissions(current, data, result);
            proof {
                lemma_errors_accumulate(
                    old(result)@,
                    transition_errors(current@.status, data@.status),
                    permission_errors(current@, data@),
                );
            }
        },
        None => {
            assert(result@.errors + Seq::<WaqfValidationErrorView>::empty() =~= result@.errors);
        },
    }
}

/// Validates a waqf record in detail, against the stored record where the
/// write is an update, and reports every violated rule and every warning.
pub fn validate_waqf_data_detailed(data: &WaqfData, current_data: Option<&WaqfData>) -> (r:
    WaqfValidationResult)
    ensures
        r@ == WaqfValidationResultView::of(
            waqf_errors(data@, model_of(current_data)),
            waqf_warnings(data@, model_of(current_data)),
        ),
{
    let mut result = WaqfValidationResult::new();
    let ghost start = result@;
    validate_identity(data, &mut result);
    validate_standing(data, &mut result);
    validate_bookkeeping(data, &mut result);
    validate_update(data, current_data, &mut result);
    validate_waqf_business_rules(data, current_data, &mut result);
    proof {
        let a = identity_errors(data@);
        let b = standing_errors(data@);
        let c = bookkeeping_errors(data@);
        let d = update_errors(model_of(current_data), data@);
        let w = asset_warnings(data@.waqf_asset);
        let first = start.and_errors(a);
        lemma_warnings_commute(first, w, b);
        lemma_errors_accumulate(start, a, b);
        lemma_warnings_commute(start.and_errors(a + b), w, c);
        lemma_errors_accumulate(start, a + b, c);
        lemma_warnings_commute(start.and_errors(a + b + c), w, d);
        lemma_errors_accumulate(start, a + b + c, d);
        assert(start.errors + (a + b + c + d) =~= a + b + c + d);
        assert(start.warnings + w + business_warnings(data@, model_of(current_data)) =~= w
            + business_warnings(data@, model_of(current_data)));
    }
    result
}

impl WaqfValidationErrorView {
    /// The message that describes the violated rule.
    pub open spec fn text(self) -> Seq<char> {
        match self {
            WaqfValidationErrorView::IdEmpty => "Waqf ID cannot be empty"@,
            WaqfValidationErrorView::NameTooShort { min_length, actual } => "Name too short: minimum "@ + decimal(min_length as nat) + " characters, got "@ + decimal(actual as nat),
            WaqfValidationErrorView::NameTooLong { max_length, actual } => "Name too long: maximum "@ + decimal(max_length as nat) + " characters, got "@ + decimal(actual as nat),
            WaqfValidationErrorView::NameEmpty => "Name cannot be empty"@,
            WaqfValidationErrorView::NameContainsInvalidCharacters(x) => "Name contains invalid characters: "@ + x,
            WaqfValidationErrorView::DescriptionTooShort { min_length, actual } => "Description too short: minimum "@ + decimal(min_length as nat) + " characters, got "@ + decimal(actual as nat),
            WaqfValidationErrorView::DescriptionTooLong { max_length, actual } => "Description too long: maximum "@ + decimal(max_length as nat) + " characters, got "@ + decimal(actual as nat),
            WaqfValidationErrorView::DescriptionEmpty => "Description cannot be empty"@,
            WaqfValidationErrorView::DescriptionContainsInvalidCharacters(x) => "Description contains invalid characters: "@ + x,
            WaqfValidationErrorView::InitialCapitalTooLow { min_amount, actual } => "Initial capital too low: minimum "@ + amount_text(min_amount as int) + ", got "@ + amount_text(actual as int),
            WaqfValidationErrorView::InitialCapitalTooHigh { max_amount, actual } => "Initial capital too high: maximum "@ + amount_text(max_amount as int) + ", got "@ + amount_text(actual as int),
            WaqfValidationErrorView::InitialCapitalInvalid(x) => "Invalid initial capital: "@ + x,
            WaqfValidationErrorView::DonorNameEmpty => "Donor name cannot be empty"@,
            WaqfValidationErrorView::DonorNameTooShort { min_length, actual } => "Donor name too short: minimum "@ + decimal(min_length as nat) + " characters, got "@ + decimal(actual as nat),
            WaqfValidationErrorView::DonorEmailEmpty => "Donor email cannot be empty"@,
            WaqfValidationErrorView::DonorEmailInvalidFormat(x) => "Invalid donor email format: "@ + x,
            WaqfValidationErrorView::DonorPhoneEmpty => "Donor phone cannot be empty"@,
            WaqfValidationErrorView::DonorPhoneInvalidLength { min, max, actual } => "Donor phone invalid length: expected "@ + decimal(min as nat) + "-"@ + decimal(max as nat) + " characters, got "@ + decimal(actual as nat),
            WaqfValidationErrorView::DonorAddressEmpty => "Donor address cannot be empty"@,
            WaqfValidationErrorView::DonorAddressTooShort { min_length, actual } => "Donor address too short: minimum "@ + decimal(min_length as nat) + " characters, got "@ + decimal(actual as nat),
            WaqfValidationErrorView::DonorAddressTooLong { max_length, actual } => "Donor address too long: maximum "@ + decimal(max_length as nat) + " characters, got "@ + decimal(actual as nat),
            WaqfValidationErrorView::InvalidStatus { status } => "Invalid status '"@ + status + "'. Valid statuses: active, paused, completed, inactive, archived"@,
            WaqfValidationErrorView::InvalidStatusTransition { from, to } => "Invalid status transition from '"@ + from + "' to '"@ + to + "'"@,
            WaqfValidationErrorView::InvalidReportingFrequency { frequency } => "Invalid reporting frequency '"@ + frequency + "'. Valid frequencies: quarterly, semiannually, yearly"@,
            WaqfValidationErrorView::InvalidReportType { report_type } => "Invalid report type '"@ + report_type + "'. Valid types: financial, impact"@,
            WaqfValidationErrorView::InvalidDeliveryMethod { method } => "Invalid delivery method '"@ + method + "'. Valid methods: email, platform, both"@,
            WaqfValidationErrorView::NoCausesSelected => "At least one cause must be selected"@,
            WaqfValidationErrorView::InvalidCauseId(x) => "Invalid cause ID: "@ + x,
            WaqfValidationErrorView::NegativeFinancialValue { field, value } => "Financial field '"@ + field + "' cannot be negative: "@ + amount_text(value as int),
            WaqfValidationErrorView::InconsistentFinancialData(x) => "Inconsistent financial data: "@ + x,
            WaqfValidationErrorView::CreatedAtEmpty => "Created timestamp cannot be empty"@,
            WaqfValidationErrorView::InvalidTimestampFormat(x) => "Invalid timestamp format: "@ + x,
            WaqfValidationErrorView::ArchivedWaqfModification => "Cannot modify archived waqf"@,
            WaqfValidationErrorView::CompletedWaqfModification => "Cannot modify completed waqf"@,
            WaqfValidationErrorView::CreatedByEmpty => "Created by field cannot be empty"@,
        }
    }
}

impl WaqfValidationError {
    /// Describes the violated rule in words, with the values that violate it.
    pub fn message(&self) -> (s: String)
        ensures
            s@ == self@.text(),
    {
        match self {
            WaqfValidationError::IdEmpty => String::from_str("Waqf ID cannot be empty"),
            WaqfValidationError::NameTooShort { min_length, actual } => {
                let mut s = String::from_str("Name too short: minimum ");
                s.append(u128_to_string(*min_length as u128).as_str());
                s.append(" characters, got ");
                s.append(u128_to_string(*actual as u128).as_str());
                s
            },
            WaqfValidationError::NameTooLong { max_length, actual } => {
                let mut s = String::from_str("Name too long: maximum ");
                s.append(u128_to_string(*max_length as u128).as_str());
                s.append(" characters, got ");
                s.append(u128_to_string(*actual as u128).as_str());
                s
            },
            WaqfValidationError::NameEmpty => String::from_str("Name cannot be empty"),
            WaqfValidationError::NameContainsInvalidCharacters(x) => {
                let mut s = String::from_str("Name contains invalid characters: ");
                s.append(x.as_str());
                s
            },
            WaqfValidationError::DescriptionTooShort { min_length, actual } => {
                let mut s = String::from_str("Description too short: minimum ");
                s.append(u128_to_string(*min_length as u128).as_str());
                s.append(" characters, got ");
                s.append(u128_to_string(*actual as u128).as_str());
                s
            },
            WaqfValidationError::DescriptionTooLong { max_length, actual } => {
                let mut s = String::from_str("Description too long: maximum ");
                s.append(u128_to_string(*max_length as u128).as_str());
                s.append(" characters, got ");
                s.append(u128_to_string(*actual as u128).as_str());
                s
            },
            WaqfValidationError::DescriptionEmpty => String::from_str("Description cannot be empty"),
            WaqfValidationError::DescriptionContainsInvalidCharacters(x) => {
                let mut s = String::from_str("Description contains invalid characters: ");
                s.append(x.as_str());
                s
            },
            WaqfValidationError::InitialCapitalTooLow { min_amount, actual } => {
                let mut s = String::from_str("Initial capital too low: minimum ");
                s.append(format_amount(*min_amount).as_str());
                s.append(", got ");
                s.append(format_amount(*actual).as_str());
                s
            },
            WaqfValidationError::InitialCapitalTooHigh { max_amount, actual } => {
                let mut s = String::from_str("Initial capital too high: maximum ");
                s.append(format_amount(*max_amount).as_str());
                s.append(", got ");
                s.append(format_amount(*actual).as_str());
                s
            },
            WaqfValidationError::InitialCapitalInvalid(x) => {
                let mut s = String::from_str("Invalid initial capital: ");
                s.append(x.as_str());
                s
            },
            WaqfValidationError::DonorNameEmpty => String::from_str("Donor name cannot be empty"),
            WaqfValidationError::DonorNameTooShort { min_length, actual } => {
                let mut s = String::from_str("Donor name too short: minimum ");
                s.append(u128_to_string(*min_length as u128).as_str());
                s.append(" characters, got ");
                s.append(u128_to_string(*actual as u128).as_str());
                s
            },
            WaqfValidationError::DonorEmailEmpty => String::from_str("Donor email cannot be empty"),
            WaqfValidationError::DonorEmailInvalidFormat(x) => {
                let mut s = String::from_str("Invalid donor email format: ");
                s.append(x.as_str());
                s
            },
            WaqfValidationError::DonorPhoneEmpty => String::from_str("Donor phone cannot be empty"),
            WaqfValidationError::DonorPhoneInvalidLength { min, max, actual } => {
                let mut s = String::from_str("Donor phone invalid length: expected ");
                s.append(u128_to_string(*min as u128).as_str());
                s.append("-");
                s.append(u128_to_string(*max as u128).as_str());
                s.append(" characters, got ");
                s.append(u128_to_string(*actual as u128).as_str());
                s
            },
            WaqfValidationError::DonorAddressEmpty => String::from_str("Donor address cannot be empty"),
            WaqfValidationError::DonorAddressTooShort { min_length, actual } => {
                let mut s = String::from_str("Donor address too short: minimum ");
                s.append(u128_to_string(*min_length as u128).as_str());
                s.append(" characters, got ");
                s.append(u128_to_string(*actual as u128).as_str());
                s
            },
            WaqfValidationError::DonorAddressTooLong { max_length, actual } => {
                let mut s = String::from_str("Donor address too long: maximum ");
                s.append(u128_to_string(*max_length as u128).as_str());
                s.append(" characters, got ");
                s.append(u128_to_string(*actual as u128).as_str());
                s
            },
            WaqfValidationError::InvalidStatus { status } => {
                let mut s = String::from_str("Invalid status '");
                s.append(status.as_str());
                s.append("'. Valid statuses: active, paused, completed, inactive, archived");
                s
            },
            WaqfValidationError::InvalidStatusTransition { from, to } => {
                let mut s = String::from_str("Invalid status transition from '");
                s.append(from.as_str());
                s.append("' to '");
                s.append(to.as_str());
                s.append("'");
                s
            },
            WaqfValidationError::InvalidReportingFrequency { frequency } => {
                let mut s = String::from_str("Invalid reporting frequency '");
                s.append(frequency.as_str());
                s.append("'. Valid frequencies: quarterly, semiannually, yearly");
                s
            },
            WaqfValidationError::InvalidReportType { report_type } => {
                let mut s = String::from_str("Invalid report type '");
                s.append(report_type.as_str());
                s.append("'. Valid types: financial, impact");
                s
            },
            WaqfValidationError::InvalidDeliveryMethod { method } => {
                let mut s = String::from_str("Invalid delivery method '");
                s.append(method.as_str());
                s.append("'. Valid methods: email, platform, both");
                s
            },
            WaqfValidationError::NoCausesSelected => String::from_str("At least one cause must be selected"),
            WaqfValidationError::InvalidCauseId(x) => {
                let mut s = String::from_str("Invalid cause ID: ");
                s.append(x.as_str());
                s
            },
            WaqfValidationError::NegativeFinancialValue { field, value } => {
                let mut s = String::from_str("Financial field '");
                s.append(field.as_str());
                s.append("' cannot be negative: ");
                s.append(format_amount(*value).as_str());
                s
            },
            WaqfValidationError::InconsistentFinancialData(x) => {
                let mut s = String::from_str("Inconsistent financial data: ");
                s.append(x.as_str());
                s
            },
            WaqfValidationError::CreatedAtEmpty => String::from_str("Created timestamp cannot be empty"),
            WaqfValidationError::InvalidTimestampFormat(x) => {
                let mut s = String::from_str("Invalid timestamp format: ");
                s.append(x.as_str());
                s
            },
            WaqfValidationError::ArchivedWaqfModification => String::from_str("Cannot modify archived waqf"),
            WaqfValidationError::CompletedWaqfModification => String::from_str("Cannot modify completed waqf"),
            WaqfValidationError::CreatedByEmpty => String::from_str("Created by field cannot be empty"),
        }
    }
}

/// The messages of a list of violated rules, joined by `"; "`.
pub open spec fn joined_messages(errors: Seq<WaqfValidationErrorView>) -> Seq<char>
    decreases errors.len(),
{
    if errors.len() == 0 {
        Seq::empty()
    } else if errors.len() == 1 {
        errors[0].text()
    } else {
        joined_messages(errors.drop_last()) + "; "@ + errors.last().text()
    }
}

/// Joins the messages of a list of violated rules by `"; "`.
pub fn join_messages(errors: &Vec<WaqfValidationError>) -> (s: String)
    ensures
        s@ == joined_messages(views_of(errors@)),
{
    let ghost all = views_of(errors@);
    let mut s = String::new();
    let mut i: usize = 0;
    assert(all.take(0) =~= Seq::<WaqfValidationErrorView>::empty());
    while i < errors.len()
        invariant
            i <= errors@.len(),
            all == views_of(errors@),
            s@ == joined_messages(all.take(i as int)),
        decreases errors@.len() - i,
    {
        assert(all.take(i + 1).drop_last() =~= all.take(i as int));
        assert(all.take(i + 1).last() == errors@[i as int]@);
        if i > 0 {
            s.append("; ");
        }
        s.append(errors[i].message().as_str());
        proof {
            if i == 0 {
                assert(s@ =~= errors@[0]@.text());
                assert(all.take(1)[0] == errors@[0]@);
            }
        }
        i = i + 1;
    }
    assert(all.take(i as int) =~= all);
    s
}

/// Validates a waqf record on its own and reports every violated rule in
/// one message.
pub fn validate_waqf_data(data: &WaqfData) -> (r: Result<(), String>)
    ensures
        waqf_errors(data@, None).len() == 0 ==> r is Ok,
        waqf_errors(data@, None).len() > 0 ==> r is Err && r->Err_0@ == joined_messages(
            waqf_errors(data@, None),
        ),
{
    let report = validate_waqf_data_detailed(data, None);
    if report.is_valid {
        Ok(())
    } else {
        Err(join_messages(&report.errors))
    }
}

/// A completed waqf accepts an update that changes its financial figures
/// and nothing else.
pub proof fn law_completed_takes_postings(current: WaqfDataView, figures: FinancialMetricsView)
    requires
        current.status == "completed"@,
    ensures
        update_errors(Some(current), WaqfDataView { financial: figures, ..current }).len() == 0,
{
    let new = WaqfDataView { financial: figures, ..current };
    reveal_strlit("completed");
    reveal_strlit("archived");
    assert("completed"@.len() != "archived"@.len());
    assert(WaqfDataView {
        status: current.status,
        financial: current.financial,
        cause_allocation: current.cause_allocation,
        ..new
    } == current);
}

/// A completed waqf rejects every update that changes a field other than
/// its financial figures, whatever else the update does: its status may
/// only become `archived`, and no text, preference, date, type detail or
/// tranche may differ.
pub proof fn law_completed_rejects_other_changes(current: WaqfDataView, new: WaqfDataView)
    requires
        current.status == "completed"@,
        ({
            ||| new.status != current.status && new.status != "archived"@
            ||| new.id != current.id
            ||| new.name != current.name
            ||| new.description != current.description
            ||| new.waqf_asset != current.waqf_asset
            ||| new.donor != current.donor
            ||| new.selected_causes != current.selected_causes
            ||| !tables_agree(current.cause_allocation, new.cause_allocation)
            ||| new.is_donated != current.is_donated
            ||| new.notifications != current.notifications
            ||| new.reporting_preferences != current.reporting_preferences
            ||| new.waqf_type != current.waqf_type
            ||| new.is_hybrid != current.is_hybrid
            ||| new.hybrid_allocations != current.hybrid_allocations
            ||| new.consumable_details != current.consumable_details
            ||| new.revolving_details != current.revolving_details
            ||| new.investment_strategy != current.investment_strategy
            ||| new.deed_document != current.deed_document
            ||| new.created_by != current.created_by
            ||| new.created_at != current.created_at
            ||| new.updated_at != current.updated_at
            ||| new.last_contribution_date != current.last_contribution_date
            ||| new.next_contribution_date != current.next_contribution_date
            ||| new.next_report_date != current.next_report_date
        }),
    ensures
        permission_errors(current, new) == seq![WaqfValidationErrorView::CompletedWaqfModification],
        update_errors(Some(current), new).len() > 0,
{
    reveal_strlit("completed");
    reveal_strlit("archived");
    assert("completed"@.len() != "archived"@.len());
}

/// The transition graph, edge by edge: a change between two statuses passes
/// the status check exactly where the status stays, or goes from `active` to
/// any other, from `paused` to `active`, `inactive` or `archived`, from
/// `inactive` to `active` or `archived`, or from `completed` to `archived`.
/// Nothing leaves `archived`.
pub proof fn law_transition_graph(from: WaqfStatus, to: WaqfStatus)
    ensures
        transition_errors(from.text(), to.text()).len() == 0 <==> from == to || match from {
            WaqfStatus::Active => true,
            WaqfStatus::Paused => to != WaqfStatus::Completed,
            WaqfStatus::Inactive => to == WaqfStatus::Active || to == WaqfStatus::Archived,
            WaqfStatus::Completed => to == WaqfStatus::Archived,
            WaqfStatus::Archived => false,
        },
        transition_errors(from.text(), to.text()).len() != 0 ==> transition_errors(
            from.text(),
            to.text(),
        ) == seq![
            WaqfValidationErrorView::InvalidStatusTransition { from: from.text(), to: to.text() },
        ],
{
    lemma_waqf_status_text(from);
    lemma_waqf_status_text(to);
}

/// An update whose change of status follows no edge of the transition graph
/// is found invalid, whatever else it holds: the first error names the two
/// statuses unless an earlier rule is broken as well.
pub proof fn law_unlisted_transition_is_rejected(current: WaqfDataView, new: WaqfDataView)
    requires
        !transition_allowed(current.status, new.status),
    ensures
        waqf_errors(new, Some(current)).contains(
            WaqfValidationErrorView::InvalidStatusTransition {
                from: current.status,
                to: new.status,
            },
        ),
        waqf_errors(new, Some(current)).len() > 0,
{
    let e = WaqfValidationErrorView::InvalidStatusTransition {
        from: current.status,
        to: new.status,
    };
    let head = identity_errors(new) + standing_errors(new) + bookkeeping_errors(new);
    let all = waqf_errors(new, Some(current));
    assert(transition_errors(current.status, new.status)[0] == e);
    assert(all[head.len() as int] == e);
}

} // verus!
