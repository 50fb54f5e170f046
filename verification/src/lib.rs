//! Validation and change handling for the documents of a waqf (Islamic
//! endowment) platform: the waqf record and its four kinds of endowment, the
//! limits on who may change which field, the amounts that a new waqf assigns
//! to its causes, and the tranches in which a revolving waqf holds and
//! returns its principal.
//!
//! Amounts, percentages and rates are fixed-point: an `i64` count of
//! millionths. Times are `u64` nanoseconds since the epoch and come from the
//! caller.
//!
//! Every function is verified against the contract it states, but for four
//! wrappers whose contracts are taken on trust: three around character and
//! case functions of the standard library (in `text`) and one around the
//! textual form of a principal (in `waqf_hooks`).

pub mod activity_log_hooks;
pub mod admin_hooks;
pub mod admin_request_hooks;
pub mod allocation_hooks;
pub mod category_hooks;
pub mod comparison;
pub mod cause_hooks;
pub mod cause_table;
pub mod donation_hooks;
pub mod field_guard;
pub mod fixed;
pub mod impact_event_hooks;
pub mod impact_event_types;
pub mod initialization;
pub mod text;
pub mod tranche_creation;
pub mod tranche_error;
pub mod tranche_hooks;
pub mod vocabulary;
pub mod waqf_error;
pub mod waqf_hooks;
pub mod waqf_type_rules;
pub mod waqf_types;
pub mod waqf_utils;
