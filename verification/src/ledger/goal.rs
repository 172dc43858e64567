//! The questions a report answers, and the scopes a token can have.

use vstd::prelude::*;

verus! {

/// The four questions the reports answer.
#[derive(Debug, Clone, Copy, PartialEq, Eq, Structural)]
pub enum ReportGoal {
    AssetSnapshot,
    MoneyFlow,
    Returns,
    Reconciliation,
}

impl ReportGoal {
    /// The name of the goal.
    pub open spec fn word(self) -> Seq<char> {
        match self {
            Self::AssetSnapshot => "asset_snapshot"@,
            Self::MoneyFlow => "money_flow"@,
            Self::Returns => "returns"@,
            Self::Reconciliation => "reconciliation"@,
        }
    }

    /// The name of the goal.
    pub fn code(self) -> (code: &'static str)
        ensures
            code@ == self.word(),
    {
        match self {
            Self::AssetSnapshot => "asset_snapshot",
            Self::MoneyFlow => "money_flow",
            Self::Returns => "returns",
            Self::Reconciliation => "reconciliation",
        }
    }

    /// The word it goes by, as a text of its own.
    pub fn to_word(&self) -> (word: String)
        ensures
            word@ == self.word(),
    {
        self.code().to_owned()
    }
}

/// What a token may do.
#[derive(Debug, Clone, Copy, PartialEq, Eq, Structural)]
pub enum Scope {
    Owner,
    Agent,
    ReadOnly,
}

impl Scope {
    /// The name of the scope.
    pub open spec fn word(self) -> Seq<char> {
        match self {
            Self::Owner => "owner"@,
            Self::Agent => "agent"@,
            Self::ReadOnly => "read_only"@,
        }
    }

    /// The name of the scope.
    pub fn code(self) -> (code: &'static str)
        ensures
            code@ == self.word(),
    {
        match self {
            Self::Owner => "owner",
            Self::Agent => "agent",
            Self::ReadOnly => "read_only",
        }
    }

    /// The word it goes by, as a text of its own.
    pub fn to_word(&self) -> (word: String)
        ensures
            word@ == self.word(),
    {
        self.code().to_owned()
    }
}

/// A call that changes something, by the identifier of its operation, with the
/// scope it needs.
#[derive(Debug, Clone, PartialEq, Eq)]
pub struct OperationKey {
    pub operation_id: String,
    pub required_scope: Scope,
}

/// Each `ReportGoal` goes by a word of its own, and that word names no other.
pub proof fn law_report_goal_goes_by_its_own_word(value: ReportGoal)
    ensures
        value.word() == "asset_snapshot"@ <==> value is AssetSnapshot,
        value.word() == "money_flow"@ <==> value is MoneyFlow,
        value.word() == "returns"@ <==> value is Returns,
        value.word() == "reconciliation"@ <==> value is Reconciliation,
{
    reveal_strlit("asset_snapshot");
    reveal_strlit("money_flow");
    reveal_strlit("returns");
    reveal_strlit("reconciliation");
    assert("asset_snapshot"@[0] == 'a');
    assert("reconciliation"@[0] == 'r');
    assert(value.word().len() > 0);
}

/// Each `Scope` goes by a word of its own, and that word names no other.
pub proof fn law_scope_goes_by_its_own_word(value: Scope)
    ensures
        value.word() == "owner"@ <==> value is Owner,
        value.word() == "agent"@ <==> value is Agent,
        value.word() == "read_only"@ <==> value is ReadOnly,
{
    reveal_strlit("owner");
    reveal_strlit("agent");
    reveal_strlit("read_only");
    assert("agent"@[0] == 'a');
    assert("owner"@[0] == 'o');
    assert(value.word().len() > 0);
}

} // verus!
