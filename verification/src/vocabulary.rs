//! The closed sets of values that records store as text.

use vstd::prelude::*;
use crate::text::same_text;

verus! {

/// Lifecycle states of a waqf.
#[derive(Clone, Copy, Debug, PartialEq, Eq, Structural)]
pub enum WaqfStatus {
    Active,
    Paused,
    Completed,
    Inactive,
    Archived,
}

impl WaqfStatus {
    /// The stored text of a status.
    pub open spec fn text(self) -> Seq<char> {
        match self {
            WaqfStatus::Active => "active"@,
            WaqfStatus::Paused => "paused"@,
            WaqfStatus::Completed => "completed"@,
            WaqfStatus::Inactive => "inactive"@,
            WaqfStatus::Archived => "archived"@,
        }
    }

    /// The status that a text names, if any.
    pub open spec fn from_text(s: Seq<char>) -> Option<WaqfStatus> {
        if s == "active"@ {
            Some(WaqfStatus::Active)
        } else if s == "paused"@ {
            Some(WaqfStatus::Paused)
        } else if s == "completed"@ {
            Some(WaqfStatus::Completed)
        } else if s == "inactive"@ {
            Some(WaqfStatus::Inactive)
        } else if s == "archived"@ {
            Some(WaqfStatus::Archived)
        } else {
            None
        }
    }

    /// The edges of the transition graph: whether a waqf in state `self` may
    /// move to the different state `to`.
    pub open spec fn may_become(self, to: WaqfStatus) -> bool {
        match self {
            WaqfStatus::Active => to == WaqfStatus::Paused || to == WaqfStatus::Completed || to
                == WaqfStatus::Inactive || to == WaqfStatus::Archived,
            WaqfStatus::Paused => to == WaqfStatus::Active || to == WaqfStatus::Inactive || to
                == WaqfStatus::Archived,
            WaqfStatus::Inactive => to == WaqfStatus::Active || to == WaqfStatus::Archived,
            WaqfStatus::Completed => to == WaqfStatus::Archived,
            WaqfStatus::Archived => false,
        }
    }

    /// Reads a status from its stored text.
    pub fn parse(s: &str) -> (r: Option<WaqfStatus>)
        ensures
            r == WaqfStatus::from_text(s@),
    {
        if same_text(s, "active") {
            Some(WaqfStatus::Active)
        } else if same_text(s, "paused") {
            Some(WaqfStatus::Paused)
        } else if same_text(s, "completed") {
            Some(WaqfStatus::Completed)
        } else if same_text(s, "inactive") {
            Some(WaqfStatus::Inactive)
        } else if same_text(s, "archived") {
            Some(WaqfStatus::Archived)
        } else {
            None
        }
    }

    /// The stored text of a status.
    pub fn as_str(self) -> (s: &'static str)
        ensures
            s@ == self.text(),
    {
        match self {
            WaqfStatus::Active => "active",
            WaqfStatus::Paused => "paused",
            WaqfStatus::Completed => "completed",
            WaqfStatus::Inactive => "inactive",
            WaqfStatus::Archived => "archived",
        }
    }

    /// Whether the transition graph has an edge from `self` to `to`.
    pub fn allows(self, to: WaqfStatus) -> (r: bool)
        ensures
            r == self.may_become(to),
    {
        match self {
            WaqfStatus::Active => matches!(
                to,
                WaqfStatus::Paused | WaqfStatus::Completed | WaqfStatus::Inactive
                    | WaqfStatus::Archived
            ),
            WaqfStatus::Paused => matches!(
                to,
                WaqfStatus::Active | WaqfStatus::Inactive | WaqfStatus::Archived
            ),
            WaqfStatus::Inactive => matches!(to, WaqfStatus::Active | WaqfStatus::Archived),
            WaqfStatus::Completed => matches!(to, WaqfStatus::Archived),
            WaqfStatus::Archived => false,
        }
    }
}

/// States of a contribution tranche.
#[derive(Clone, Copy, Debug, PartialEq, Eq, Structural)]
pub enum TrancheStatus {
    Locked,
    Matured,
    ReturnScheduled,
    Returned,
    RolledOver,
}

impl TrancheStatus {
    /// The stored text of a tranche state.
    pub open spec fn text(self) -> Seq<char> {
        match self {
            TrancheStatus::Locked => "locked"@,
            TrancheStatus::Matured => "matured"@,
            TrancheStatus::ReturnScheduled => "return_scheduled"@,
            TrancheStatus::Returned => "returned"@,
            TrancheStatus::RolledOver => "rolled_over"@,
        }
    }

    /// The tranche state that a text names, if any.
    pub open spec fn from_text(s: Seq<char>) -> Option<TrancheStatus> {
        if s == "locked"@ {
            Some(TrancheStatus::Locked)
        } else if s == "matured"@ {
            Some(TrancheStatus::Matured)
        } else if s == "return_scheduled"@ {
            Some(TrancheStatus::ReturnScheduled)
        } else if s == "returned"@ {
            Some(TrancheStatus::Returned)
        } else if s == "rolled_over"@ {
            Some(TrancheStatus::RolledOver)
        } else {
            None
        }
    }

    /// Reads a tranche state from its stored text.
    pub fn parse(s: &str) -> (r: Option<TrancheStatus>)
        ensures
            r == TrancheStatus::from_text(s@),
    {
        if same_text(s, "locked") {
            Some(TrancheStatus::Locked)
        } else if same_text(s, "matured") {
            Some(TrancheStatus::Matured)
        } else if same_text(s, "return_scheduled") {
            Some(TrancheStatus::ReturnScheduled)
        } else if same_text(s, "returned") {
            Some(TrancheStatus::Returned)
        } else if same_text(s, "rolled_over") {
            Some(TrancheStatus::RolledOver)
        } else {
            None
        }
    }

    /// The stored text of a tranche state.
    pub fn as_str(self) -> (s: &'static str)
        ensures
            s@ == self.text(),
    {
        match self {
            TrancheStatus::Locked => "locked",
            TrancheStatus::Matured => "matured",
            TrancheStatus::ReturnScheduled => "return_scheduled",
            TrancheStatus::Returned => "returned",
            TrancheStatus::RolledOver => "rolled_over",
        }
    }
}

/// Spending schedules of a consumable waqf.
#[derive(Clone, Copy, Debug, PartialEq, Eq, Structural)]
pub enum SpendingSchedule {
    Immediate,
    Phased,
    MilestoneBased,
    Ongoing,
}

impl SpendingSchedule {
    /// The schedule that a text names, if any.
    pub open spec fn from_text(s: Seq<char>) -> Option<SpendingSchedule> {
        if s == "immediate"@ {
            Some(SpendingSchedule::Immediate)
        } else if s == "phased"@ {
            Some(SpendingSchedule::Phased)
        } else if s == "milestone-based"@ {
            Some(SpendingSchedule::MilestoneBased)
        } else if s == "ongoing"@ {
            Some(SpendingSchedule::Ongoing)
        } else {
            None
        }
    }

    /// Reads a spending schedule from its stored text.
    pub fn parse(s: &str) -> (r: Option<SpendingSchedule>)
        ensures
            r == SpendingSchedule::from_text(s@),
    {
        if same_text(s, "immediate") {
            Some(SpendingSchedule::Immediate)
        } else if same_text(s, "phased") {
            Some(SpendingSchedule::Phased)
        } else if same_text(s, "milestone-based") {
            Some(SpendingSchedule::MilestoneBased)
        } else if same_text(s, "ongoing") {
            Some(SpendingSchedule::Ongoing)
        } else {
            None
        }
    }
}

/// Every waqf status is read back from its own text.
pub proof fn lemma_waqf_status_text(s: WaqfStatus)
    ensures
        WaqfStatus::from_text(s.text()) == Some(s),
{
    reveal_strlit("active");
    reveal_strlit("paused");
    reveal_strlit("completed");
    reveal_strlit("inactive");
    reveal_strlit("archived");
    assert("active"@[0] == 'a' && "active"@[1] == 'c');
    assert("paused"@[0] == 'p');
    assert("completed"@[0] == 'c');
    assert("inactive"@[0] == 'i');
    assert("archived"@[0] == 'a' && "archived"@[1] == 'r');
}

/// Every tranche state is read back from its own text.
pub proof fn lemma_tranche_status_text(s: TrancheStatus)
    ensures
        TrancheStatus::from_text(s.text()) == Some(s),
{
    reveal_strlit("locked");
    reveal_strlit("matured");
    reveal_strlit("return_scheduled");
    reveal_strlit("returned");
    reveal_strlit("rolled_over");
    assert("locked"@[0] == 'l');
    assert("matured"@[0] == 'm');
    assert("return_scheduled"@.len() == 16);
    assert("returned"@.len() == 8 && "returned"@[1] == 'e');
    assert("rolled_over"@.len() == 11);
}

} // verus!
