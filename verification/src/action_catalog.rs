//! The address of every call an action or a caveat can name, resolved against
//! the generated contract.

use crate::api_catalog::answering_operation;
use crate::api_catalog;
use crate::ledger::goal::{OperationKey, ReportGoal, Scope};
use crate::openapi::{ApiDocument, ListedOperation, ListedView};
use crate::openapi;
use crate::relate;
use crate::text::same_text;
use vstd::prelude::*;

verus! {

/// An operation of the contract, resolved.
#[derive(Debug, Clone, PartialEq, Eq)]
pub struct ActionOperation {
    pub operation_id: String,
    pub method: String,
    pub path: String,
    pub request_schema: Option<String>,
    pub required_scope: Scope,
}

impl ActionOperation {
    /// Whether this is a listed operation, with a scope.
    pub open spec fn is(self, listed: ListedView, scope: Scope) -> bool {
        &&& Some(self.operation_id@) == listed.operation_id
        &&& self.method@ == listed.method
        &&& self.path@ == listed.path
        &&& openapi::characters(self.request_schema) == listed.request_schema
        &&& self.required_scope == scope
    }
}

/// A failure found while resolving the catalog against the contract.
#[derive(Debug, Clone, PartialEq, Eq)]
pub enum ActionCatalogError {
    MissingOperationId { method: String, path: String },
    MissingActionOperation { operation_id: String },
    DuplicateOperationId { operation_id: String },
    MissingAnswerOperation { operation_id: String },
}

/// The failure in words.
pub open spec fn action_failure_text(failure: ActionCatalogError) -> Seq<char> {
    match failure {
        ActionCatalogError::MissingOperationId { method, path } =>
            "operation "@ + method@ + " "@ + path@ + " has no operation_id"@,
        ActionCatalogError::MissingActionOperation { operation_id } =>
            "action operation "@ + operation_id@ + " does not resolve to an OpenAPI operation"@,
        ActionCatalogError::DuplicateOperationId { operation_id } =>
            "operation_id "@ + operation_id@ + " is declared more than once"@,
        ActionCatalogError::MissingAnswerOperation { operation_id } =>
            "report answer "@ + operation_id@ + " does not resolve to an OpenAPI GET operation"@,
    }
}

/// The failure in words.
pub fn action_failure(failure: &ActionCatalogError) -> (text: String)
    ensures
        text@ == action_failure_text(*failure),
{
    match failure {
        ActionCatalogError::MissingOperationId { method, path } => {
            let mut text = "operation ".to_owned();
            text.append(method.as_str());
            text.append(" ");
            text.append(path.as_str());
            text.append(" has no operation_id");
            text
        },
        ActionCatalogError::MissingActionOperation { operation_id } => {
            let mut text = "action operation ".to_owned();
            text.append(operation_id.as_str());
            text.append(" does not resolve to an OpenAPI operation");
            text
        },
        ActionCatalogError::DuplicateOperationId { operation_id } => {
            let mut text = "operation_id ".to_owned();
            text.append(operation_id.as_str());
            text.append(" is declared more than once");
            text
        },
        ActionCatalogError::MissingAnswerOperation { operation_id } => {
            let mut text = "report answer ".to_owned();
            text.append(operation_id.as_str());
            text.append(" does not resolve to an OpenAPI GET operation");
            text
        },
    }
}

/// Whether an operation is the first one whose identifier is missing or was used
/// before it.
pub open spec fn is_first_defect(listed: Seq<ListedView>, index: int) -> bool {
    &&& 0 <= index < listed.len()
    &&& is_defect(listed, index)
    &&& forall|i: int| 0 <= i < index ==> !#[trigger] is_defect(listed, i)
}

/// Whether an operation has no identifier, or one that stands before it.
pub open spec fn is_defect(listed: Seq<ListedView>, index: int) -> bool {
    listed[index].operation_id is None || exists|i: int|
        0 <= i < index && (#[trigger] listed[i]).operation_id == listed[index].operation_id
}

/// Whether a listed operation goes by an identifier.
pub open spec fn goes_by(listed: Seq<ListedView>, index: int, operation_id: Seq<char>) -> bool {
    &&& 0 <= index < listed.len()
    &&& listed[index].operation_id == Some(operation_id)
}

/// Whether some listed operation goes by an identifier.
pub open spec fn is_listed(listed: Seq<ListedView>, operation_id: Seq<char>) -> bool {
    exists|i: int| #[trigger] goes_by(listed, i, operation_id)
}

/// Whether some listed operation goes by an identifier and is a `GET`.
pub open spec fn is_listed_get(listed: Seq<ListedView>, operation_id: Seq<char>) -> bool {
    exists|i: int| #[trigger] goes_by(listed, i, operation_id) && listed[i].method == "GET"@
}

/// The goals, in the order they are resolved.
pub open spec fn goals() -> Seq<ReportGoal> {
    seq![
        ReportGoal::AssetSnapshot,
        ReportGoal::MoneyFlow,
        ReportGoal::Returns,
        ReportGoal::Reconciliation,
    ]
}

/// The calls a queue item or a caveat can name and the calls that answer the four
/// goals, with their addresses.
#[derive(Debug, Clone, PartialEq, Eq)]
pub struct ActionCatalog {
    pub operations: Vec<ActionOperation>,
    pub answers: Vec<ActionOperation>,
}

impl ActionCatalog {
    /// Whether a call is in the catalog.
    pub open spec fn resolves(self, operation_id: Seq<char>) -> bool {
        exists|i: int|
            0 <= i < self.operations@.len() && (#[trigger] self.operations@[i]).operation_id@
                == operation_id
    }

    /// Whether an entry is the first with an identifier.
    pub open spec fn is_first(self, index: int, operation_id: Seq<char>) -> bool {
        &&& 0 <= index < self.operations@.len()
        &&& self.operations@[index].operation_id@ == operation_id
        &&& forall|i: int|
            0 <= i < index ==> (#[trigger] self.operations@[i]).operation_id@ != operation_id
    }

    /// Every goal has its answering call.
    pub open spec fn is_whole(self) -> bool {
        &&& self.answers@.len() == 4
        &&& forall|i: int|
            0 <= i < 4 ==> (#[trigger] self.answers@[i]).operation_id@
                == api_catalog::answering_id(goals()[i])
    }

    /// Whether the catalog is the one of a contract and a vocabulary: one entry
    /// per key and one per goal, each the listed operation of that identifier.
    pub open spec fn is_of(self, listed: Seq<ListedView>, keys: Seq<OperationKey>) -> bool {
        &&& relate::each(
            self.operations@,
            keys,
            |operation: ActionOperation, key: OperationKey|
                operation.operation_id@ == key.operation_id@ && exists|i: int|
                    #[trigger] goes_by(listed, i, key.operation_id@) && operation.is(
                        listed[i],
                        key.required_scope,
                    ),
        )
        &&& relate::each(
            self.answers@,
            goals(),
            |operation: ActionOperation, goal: ReportGoal|
                operation.operation_id@ == api_catalog::answering_id(goal) && exists|i: int|
                    #[trigger] goes_by(listed, i, api_catalog::answering_id(goal))
                        && listed[i].method == "GET"@ && operation.is(listed[i], Scope::ReadOnly),
        )
    }

    /// The call with an identifier.
    pub fn operation(&self, operation_id: &str) -> (operation: &ActionOperation)
        requires
            self.resolves(operation_id@),
        ensures
            exists|i: int|
                #[trigger] self.is_first(i, operation_id@) && *operation == self.operations@[i],
    {
        let mut next: usize = 0;
        let last: usize = self.operations.len() - 1;
        while next < last
            invariant
                self.resolves(operation_id@),
                next <= last,
                last == self.operations@.len() - 1,
                forall|i: int|
                    0 <= i < next ==> (#[trigger] self.operations@[i]).operation_id@
                        != operation_id@,
            decreases last - next,
        {
            if same_text(self.operations[next].operation_id.as_str(), operation_id) {
                assert(self.is_first(next as int, operation_id@));
                return &self.operations[next];
            }
            next = next + 1;
        }
        assert(self.is_first(next as int, operation_id@));
        &self.operations[next]
    }

    /// The call that answers a goal.
    pub fn answering(&self, goal: ReportGoal) -> (operation: &ActionOperation)
        requires
            self.is_whole(),
        ensures
            operation.operation_id@ == api_catalog::answering_id(goal),
            self.answers@.contains(*operation),
    {
        let index: usize = match goal {
            ReportGoal::AssetSnapshot => 0,
            ReportGoal::MoneyFlow => 1,
            ReportGoal::Returns => 2,
            ReportGoal::Reconciliation => 3,
        };
        assert(goals()[index as int] == goal);
        &self.answers[index]
    }

    /// Resolves every key and every goal against the contract.
    ///
    /// An operation without an identifier and an identifier that is declared
    /// twice are refused first, at the first place either stands; then the first
    /// key that no operation goes by; then the first goal that no `GET` answers.
    pub fn from_openapi(api: &ApiDocument, keys: &Vec<OperationKey>) -> (built: Result<
        Self,
        ActionCatalogError,
    >)
        ensures
            match built {
                Ok(catalog) => {
                    &&& forall|i: int|
                        0 <= i < openapi::listing(api.paths@).len() ==> !#[trigger] is_defect(
                            openapi::listing(api.paths@),
                            i,
                        )
                    &&& catalog.is_of(openapi::listing(api.paths@), keys@)
                },
                Err(failure) => refused(openapi::listing(api.paths@), keys@, failure),
            },
    {
        let listed = api.listed();
        let ghost view = openapi::listing(api.paths@);
        let mut next: usize = 0;
        while next < listed.len()
            invariant
                view == openapi::views(listed@),
                view == openapi::listing(api.paths@),
                next <= listed@.len(),
                forall|i: int| 0 <= i < next ==> !#[trigger] is_defect(view, i),
            decreases listed@.len() - next,
        {
            assert(view[next as int] == listed@[next as int]@);
            match &listed[next].operation_id {
                None => {
                    assert(is_first_defect(view, next as int));
                    return Err(
                        ActionCatalogError::MissingOperationId {
                            method: listed[next].method.clone(),
                            path: listed[next].path.clone(),
                        },
                    );
                },
                Some(operation_id) => {
                    if let Some(earlier) = index_of(&listed, next, operation_id.as_str()) {
                        assert(view[earlier as int] == listed@[earlier as int]@);
                        assert(is_first_defect(view, next as int));
                        return Err(
                            ActionCatalogError::DuplicateOperationId {
                                operation_id: operation_id.clone(),
                            },
                        );
                    }
                    assert forall|i: int| 0 <= i < next implies (
                    #[trigger] view[i]).operation_id != view[next as int].operation_id by {
                        assert(view[i] == listed@[i]@);
                    }
                    assert(!is_defect(view, next as int));
                },
            }
            next = next + 1;
        }
        let mut operations: Vec<ActionOperation> = Vec::new();
        let mut key: usize = 0;
        while key < keys.len()
            invariant
                view == openapi::views(listed@),
                view == openapi::listing(api.paths@),
                forall|i: int| 0 <= i < view.len() ==> !#[trigger] is_defect(view, i),
                key <= keys@.len(),
                operations@.len() == key,
                forall|k: int|
                    0 <= k < key ==> (#[trigger] operations@[k]).operation_id@
                        == keys@[k].operation_id@ && exists|i: int|
                        #[trigger] goes_by(view, i, keys@[k].operation_id@) && operations@[k].is(
                            view[i],
                            keys@[k].required_scope,
                        ),
            decreases keys@.len() - key,
        {
            let operation_id = keys[key].operation_id.as_str();
            match index_of(&listed, listed.len(), operation_id) {
                None => {
                    assert forall|i: int| !#[trigger] goes_by(view, i, operation_id@) by {
                        if 0 <= i < view.len() {
                            assert(view[i] == listed@[i]@);
                        }
                    }
                    assert forall|k: int| 0 <= k < key implies is_listed(
                        view,
                        (#[trigger] keys@[k]).operation_id@,
                    ) by {
                        assert(operations@[k].operation_id@ == keys@[k].operation_id@);
                    }
                    assert(is_first_missing_key(view, keys@, key as int));
                    return Err(
                        ActionCatalogError::MissingActionOperation {
                            operation_id: keys[key].operation_id.clone(),
                        },
                    );
                },
                Some(found) => {
                    assert(view[found as int] == listed@[found as int]@);
                    assert(goes_by(view, found as int, operation_id@));
                    operations.push(
                        resolved(&listed[found], operation_id, keys[key].required_scope),
                    );
                },
            }
            key = key + 1;
        }
        assert forall|k: int| 0 <= k < keys@.len() implies is_listed(
            view,
            (#[trigger] keys@[k]).operation_id@,
        ) by {
            assert(operations@[k].operation_id@ == keys@[k].operation_id@);
        }
        let mut answers: Vec<ActionOperation> = Vec::new();
        let mut goal: usize = 0;
        while goal < 4
            invariant
                view == openapi::views(listed@),
                view == openapi::listing(api.paths@),
                goal <= 4,
                answers@.len() == goal,
                operations@.len() == keys@.len(),
                forall|k: int|
                    0 <= k < keys@.len() ==> (#[trigger] operations@[k]).operation_id@
                        == keys@[k].operation_id@ && exists|i: int|
                        #[trigger] goes_by(view, i, keys@[k].operation_id@) && operations@[k].is(
                            view[i],
                            keys@[k].required_scope,
                        ),
                forall|k: int| 0 <= k < keys@.len() ==> is_listed(
                    view,
                    (#[trigger] keys@[k]).operation_id@,
                ),
                forall|i: int| 0 <= i < view.len() ==> !#[trigger] is_defect(view, i),
                forall|k: int|
                    0 <= k < goal ==> (#[trigger] answers@[k]).operation_id@
                        == api_catalog::answering_id(goals()[k]) && exists|i: int|
                        #[trigger] goes_by(view, i, api_catalog::answering_id(goals()[k]))
                            && view[i].method == "GET"@ && answers@[k].is(
                            view[i],
                            Scope::ReadOnly,
                        ),
            decreases 4 - goal,
        {
            let asked = goal_at(goal);
            let operation_id = answering_operation(asked);
            match index_of(&listed, listed.len(), operation_id) {
                Some(found) => {
                    assert(view[found as int] == listed@[found as int]@);
                    assert(goes_by(view, found as int, operation_id@));
                    if !same_text(listed[found].method.as_str(), "GET") {
                        proof {
                            lemma_no_other(view, found as int, operation_id@);
                            lemma_earlier_goals(view, answers@, goal as int);
                        }
                        assert(is_first_missing_goal(view, goal as int));
                        return Err(
                            ActionCatalogError::MissingAnswerOperation {
                                operation_id: operation_id.to_owned(),
                            },
                        );
                    }
                    answers.push(resolved(&listed[found], operation_id, Scope::ReadOnly));
                },
                None => {
                    assert forall|i: int| !#[trigger] goes_by(view, i, operation_id@) by {
                        if 0 <= i < view.len() {
                            assert(view[i] == listed@[i]@);
                        }
                    }
                    proof {
                        lemma_earlier_goals(view, answers@, goal as int);
                    }
                    assert(is_first_missing_goal(view, goal as int));
                    return Err(
                        ActionCatalogError::MissingAnswerOperation {
                            operation_id: operation_id.to_owned(),
                        },
                    );
                },
            }
            goal = goal + 1;
        }
        Ok(Self { operations, answers })
    }
}

/// Whether a key is the first that no operation goes by.
pub open spec fn is_first_missing_key(
    listed: Seq<ListedView>,
    keys: Seq<OperationKey>,
    index: int,
) -> bool {
    &&& 0 <= index < keys.len()
    &&& !is_listed(listed, keys[index].operation_id@)
    &&& forall|k: int| 0 <= k < index ==> is_listed(listed, (#[trigger] keys[k]).operation_id@)
}

/// Whether a goal is the first that no `GET` answers.
pub open spec fn is_first_missing_goal(listed: Seq<ListedView>, index: int) -> bool {
    &&& 0 <= index < 4
    &&& !is_listed_get(listed, api_catalog::answering_id(goals()[index]))
    &&& forall|k: int|
        0 <= k < index ==> is_listed_get(listed, api_catalog::answering_id(#[trigger] goals()[k]))
}

/// Whether a failure is the one a contract and a vocabulary are answered with.
pub open spec fn refused(
    listed: Seq<ListedView>,
    keys: Seq<OperationKey>,
    failure: ActionCatalogError,
) -> bool {
    let sound = forall|i: int| 0 <= i < listed.len() ==> !#[trigger] is_defect(listed, i);
    let keyed = forall|k: int|
        0 <= k < keys.len() ==> is_listed(listed, (#[trigger] keys[k]).operation_id@);
    match failure {
        ActionCatalogError::MissingOperationId { method, path } => exists|i: int|
            #[trigger] is_first_defect(listed, i) && listed[i].operation_id is None
                && listed[i].method == method@ && listed[i].path == path@,
        ActionCatalogError::DuplicateOperationId { operation_id } => exists|i: int|
            #[trigger] is_first_defect(listed, i) && listed[i].operation_id == Some(
                operation_id@,
            ),
        ActionCatalogError::MissingActionOperation { operation_id } => sound && exists|k: int|
            #[trigger] is_first_missing_key(listed, keys, k) && keys[k].operation_id@
                == operation_id@,
        ActionCatalogError::MissingAnswerOperation { operation_id } => sound && keyed
            && exists|k: int|
            #[trigger] is_first_missing_goal(listed, k) && api_catalog::answering_id(goals()[k])
                == operation_id@,
    }
}

fn goal_at(index: usize) -> (goal: ReportGoal)
    requires
        index < 4,
    ensures
        goal == goals()[index as int],
{
    match index {
        0 => ReportGoal::AssetSnapshot,
        1 => ReportGoal::MoneyFlow,
        2 => ReportGoal::Returns,
        _ => ReportGoal::Reconciliation,
    }
}

/// The first of the first `count` operations that goes by an identifier.
fn index_of(listed: &Vec<ListedOperation>, count: usize, operation_id: &str) -> (found: Option<
    usize,
>)
    requires
        count <= listed@.len(),
    ensures
        match found {
            Some(index) => index < count && listed@[index as int]@.operation_id == Some(
                operation_id@,
            ),
            None => forall|i: int|
                0 <= i < count ==> (#[trigger] listed@[i])@.operation_id != Some(operation_id@),
        },
{
    let mut next: usize = 0;
    while next < count
        invariant
            next <= count <= listed@.len(),
            forall|i: int|
                0 <= i < next ==> (#[trigger] listed@[i])@.operation_id != Some(operation_id@),
        decreases count - next,
    {
        if let Some(known) = &listed[next].operation_id {
            if same_text(known.as_str(), operation_id) {
                return Some(next);
            }
        }
        next = next + 1;
    }
    None
}

fn resolved(listed: &ListedOperation, operation_id: &str, scope: Scope) -> (operation:
    ActionOperation)
    requires
        listed@.operation_id == Some(operation_id@),
    ensures
        operation.is(listed@, scope),
        operation.operation_id@ == operation_id@,
{
    ActionOperation {
        operation_id: operation_id.to_owned(),
        method: listed.method.clone(),
        path: listed.path.clone(),
        request_schema: listed.request_schema.clone(),
        required_scope: scope,
    }
}

/// Where no identifier is declared twice, one operation goes by an identifier.
proof fn lemma_one_goes_by(listed: Seq<ListedView>, one: int, other: int, operation_id: Seq<char>)
    requires
        forall|i: int| 0 <= i < listed.len() ==> !#[trigger] is_defect(listed, i),
        goes_by(listed, one, operation_id),
        goes_by(listed, other, operation_id),
    ensures
        one == other,
{
    if one < other {
        assert(listed[one].operation_id == listed[other].operation_id);
        assert(is_defect(listed, other));
    } else if other < one {
        assert(listed[other].operation_id == listed[one].operation_id);
        assert(is_defect(listed, one));
    }
}

/// An identifier that goes with another method is no `GET`.
proof fn lemma_no_other(listed: Seq<ListedView>, index: int, operation_id: Seq<char>)
    requires
        forall|i: int| 0 <= i < listed.len() ==> !#[trigger] is_defect(listed, i),
        goes_by(listed, index, operation_id),
        listed[index].method != "GET"@,
    ensures
        !is_listed_get(listed, operation_id),
{
    if is_listed_get(listed, operation_id) {
        let i = choose|i: int|
            #[trigger] goes_by(listed, i, operation_id) && listed[i].method == "GET"@;
        lemma_one_goes_by(listed, i, index, operation_id);
    }
}

proof fn lemma_earlier_goals(
    listed: Seq<ListedView>,
    answers: Seq<ActionOperation>,
    count: int,
)
    requires
        0 <= count <= 4,
        answers.len() == count,
        forall|k: int|
            0 <= k < count ==> (#[trigger] answers[k]).operation_id@ == api_catalog::answering_id(
                goals()[k],
            ) && exists|i: int|
                #[trigger] goes_by(listed, i, api_catalog::answering_id(goals()[k]))
                    && listed[i].method == "GET"@ && answers[k].is(listed[i], Scope::ReadOnly),
    ensures
        forall|k: int|
            0 <= k < count ==> is_listed_get(
                listed,
                api_catalog::answering_id(#[trigger] goals()[k]),
            ),
{
    assert forall|k: int| 0 <= k < count implies is_listed_get(
        listed,
        api_catalog::answering_id(#[trigger] goals()[k]),
    ) by {
        assert(answers[k].operation_id@ == api_catalog::answering_id(goals()[k]));
    }
}

/// A catalog that was built resolves every key of its vocabulary and answers
/// every goal.
pub proof fn law_a_built_catalog_is_total(
    catalog: ActionCatalog,
    listed: Seq<ListedView>,
    keys: Seq<OperationKey>,
    key: int,
)
    requires
        catalog.is_of(listed, keys),
        0 <= key < keys.len(),
    ensures
        catalog.resolves(keys[key].operation_id@),
        catalog.is_whole(),
{
    assert(catalog.operations@[key].operation_id@ == keys[key].operation_id@);
    assert forall|i: int| 0 <= i < 4 implies (#[trigger] catalog.answers@[i]).operation_id@
        == api_catalog::answering_id(goals()[i]) by {}
}

/// Whether no two keys of a vocabulary share an identifier.
pub open spec fn are_distinct(keys: Seq<OperationKey>) -> bool {
    forall|one: int, other: int|
        0 <= one < other < keys.len() ==> (#[trigger] keys[one]).operation_id@ != (
        #[trigger] keys[other]).operation_id@
}

/// A call that is looked up by the identifier of a key carries that key's own scope,
/// and the address and the schema of an operation that goes by the identifier, in
/// every vocabulary whose keys are distinct.
pub proof fn law_a_call_carries_its_own_keys_scope(
    catalog: ActionCatalog,
    listed: Seq<ListedView>,
    keys: Seq<OperationKey>,
    key: int,
    index: int,
)
    requires
        catalog.is_of(listed, keys),
        are_distinct(keys),
        0 <= key < keys.len(),
        catalog.is_first(index, keys[key].operation_id@),
    ensures
        catalog.operations@[index].operation_id@ == keys[key].operation_id@,
        catalog.operations@[index].required_scope == keys[key].required_scope,
        exists|i: int|
            #[trigger] goes_by(listed, i, keys[key].operation_id@)
                && catalog.operations@[index].is(listed[i], keys[key].required_scope),
{
    assert(catalog.operations@[index].operation_id@ == keys[index].operation_id@);
    assert(index == key);
}

/// A call that is looked up by the identifier of a key has the address and the schema
/// of the one operation that the contract declares under it, and the key's own scope.
pub proof fn law_a_call_is_the_one_declared_operation(
    catalog: ActionCatalog,
    listed: Seq<ListedView>,
    keys: Seq<OperationKey>,
    key: int,
    index: int,
    declared: int,
)
    requires
        forall|i: int| 0 <= i < listed.len() ==> !#[trigger] is_defect(listed, i),
        catalog.is_of(listed, keys),
        are_distinct(keys),
        0 <= key < keys.len(),
        catalog.is_first(index, keys[key].operation_id@),
        goes_by(listed, declared, keys[key].operation_id@),
    ensures
        catalog.operations@[index].is(listed[declared], keys[key].required_scope),
        forall|i: int| #[trigger] goes_by(listed, i, keys[key].operation_id@) ==> i == declared,
{
    let operation_id = keys[key].operation_id@;
    law_a_call_carries_its_own_keys_scope(catalog, listed, keys, key, index);
    assert forall|i: int| #[trigger] goes_by(listed, i, operation_id) implies i == declared by {
        lemma_one_goes_by(listed, i, declared, operation_id);
    }
}

/// The call that answers a goal has the address and the schema of the one operation
/// that the contract declares for it, which is a `GET`.
pub proof fn law_an_answer_is_the_one_declared_read(
    catalog: ActionCatalog,
    listed: Seq<ListedView>,
    keys: Seq<OperationKey>,
    goal: ReportGoal,
    answer: ActionOperation,
    declared: int,
)
    requires
        forall|i: int| 0 <= i < listed.len() ==> !#[trigger] is_defect(listed, i),
        catalog.is_of(listed, keys),
        catalog.answers@.contains(answer),
        answer.operation_id@ == api_catalog::answering_id(goal),
        goes_by(listed, declared, api_catalog::answering_id(goal)),
    ensures
        answer.is(listed[declared], Scope::ReadOnly),
        listed[declared].method == "GET"@,
{
    let operation_id = api_catalog::answering_id(goal);
    let k = choose|k: int| 0 <= k < catalog.answers@.len() && catalog.answers@[k] == answer;
    assert(catalog.answers@[k].operation_id@ == api_catalog::answering_id(goals()[k]));
    let i = choose|i: int|
        #[trigger] goes_by(listed, i, api_catalog::answering_id(goals()[k])) && listed[i].method
            == "GET"@ && answer.is(listed[i], Scope::ReadOnly);
    lemma_one_goes_by(listed, i, declared, operation_id);
}

/// Every answering call is a `GET` that any token reaches.
pub proof fn law_an_answer_is_a_read(
    catalog: ActionCatalog,
    listed: Seq<ListedView>,
    keys: Seq<OperationKey>,
    goal: int,
)
    requires
        catalog.is_of(listed, keys),
        0 <= goal < 4,
    ensures
        catalog.answers@[goal].method@ == "GET"@,
        catalog.answers@[goal].required_scope == Scope::ReadOnly,
{
    assert(catalog.answers@[goal].operation_id@ == api_catalog::answering_id(goals()[goal]));
}

/// A resolved call has the identifier, the method, the path and the schema of the listed
/// operation, and the scope it was resolved with.
pub proof fn law_a_call_is_its_operation_part_by_part(
    operation: ActionOperation,
    listed: ListedView,
    scope: Scope,
)
    requires
        operation.is(listed, scope),
    ensures
        listed.operation_id == Some(operation.operation_id@),
        operation.method@ == listed.method,
        operation.path@ == listed.path,
        match (operation.request_schema, listed.request_schema) {
            (Some(told), Some(meant)) => told@ == meant,
            (None, None) => true,
            _ => false,
        },
        operation.required_scope == scope,
{
}

/// A built catalog has one call for each key, at the key's place, and one for each of the
/// four goals.
pub proof fn law_a_catalog_has_one_call_for_each_key_and_goal(
    catalog: ActionCatalog,
    listed: Seq<ListedView>,
    keys: Seq<OperationKey>,
)
    requires
        catalog.is_of(listed, keys),
    ensures
        catalog.operations@.len() == keys.len(),
        forall|k: int|
            0 <= k < keys.len() ==> (#[trigger] catalog.operations@[k]).operation_id@
                == keys[k].operation_id@ && catalog.operations@[k].required_scope
                == keys[k].required_scope,
        catalog.answers@.len() == 4,
        catalog.answers@[0].operation_id@ == "asset_snapshot_report"@,
        catalog.answers@[1].operation_id@ == "flow_report"@,
        catalog.answers@[2].operation_id@ == "returns_report"@,
        catalog.answers@[3].operation_id@ == "reconciliation"@,
        forall|i: int|
            0 <= i < 4 ==> (#[trigger] catalog.answers@[i]).required_scope == Scope::ReadOnly
                && catalog.answers@[i].method@ == "GET"@,
{
    assert(catalog.answers@[0].operation_id@ == api_catalog::answering_id(goals()[0]));
    assert(catalog.answers@[1].operation_id@ == api_catalog::answering_id(goals()[1]));
    assert(catalog.answers@[2].operation_id@ == api_catalog::answering_id(goals()[2]));
    assert(catalog.answers@[3].operation_id@ == api_catalog::answering_id(goals()[3]));
}

/// A call resolves exactly where an entry goes by its identifier, and the first such entry
/// is the one.
pub proof fn law_a_call_resolves_where_an_entry_goes_by_it(
    catalog: ActionCatalog,
    operation_id: Seq<char>,
    index: int,
)
    ensures
        0 <= index < catalog.operations@.len() && catalog.operations@[index].operation_id@
            == operation_id ==> catalog.resolves(operation_id),
        catalog.is_first(index, operation_id) ==> {
            &&& 0 <= index < catalog.operations@.len()
            &&& catalog.operations@[index].operation_id@ == operation_id
            &&& forall|i: int|
                0 <= i < index ==> (#[trigger] catalog.operations@[i]).operation_id@
                    != operation_id
        },
        catalog.is_whole() ==> catalog.answers@.len() == 4,
{
}

/// A contract is refused for its first operation that has no identifier or one declared
/// before it; then for the first key that no operation goes by; then for the first goal
/// that no `GET` answers. The failure says which, and is of that kind alone.
pub proof fn law_a_contract_is_refused_for_its_first_fault(
    listed: Seq<ListedView>,
    keys: Seq<OperationKey>,
    failure: ActionCatalogError,
)
    requires
        refused(listed, keys, failure),
    ensures
        match failure {
            ActionCatalogError::MissingOperationId { method, path } => exists|i: int|
                0 <= i < listed.len() && (#[trigger] listed[i]).operation_id is None
                    && listed[i].method == method@ && listed[i].path == path@ && forall|j: int|
                    0 <= j < i ==> (#[trigger] listed[j]).operation_id is Some,
            ActionCatalogError::DuplicateOperationId { operation_id } => exists|i: int, j: int|
                0 <= i < j < listed.len() && (#[trigger] listed[i]).operation_id == Some(
                    operation_id@,
                ) && (#[trigger] listed[j]).operation_id == Some(operation_id@),
            ActionCatalogError::MissingActionOperation { operation_id } => {
                &&& forall|i: int|
                    0 <= i < listed.len() ==> (#[trigger] listed[i]).operation_id != Some(
                        operation_id@,
                    )
                &&& exists|k: int|
                    0 <= k < keys.len() && (#[trigger] keys[k]).operation_id@ == operation_id@
            },
            ActionCatalogError::MissingAnswerOperation { operation_id } => {
                &&& forall|i: int|
                    0 <= i < listed.len() && (#[trigger] listed[i]).operation_id == Some(
                        operation_id@,
                    ) ==> listed[i].method != "GET"@
                &&& operation_id@ == "asset_snapshot_report"@ || operation_id@ == "flow_report"@
                    || operation_id@ == "returns_report"@ || operation_id@ == "reconciliation"@
            },
        },
{
    match failure {
        ActionCatalogError::MissingOperationId { method, path } => {
            let i = choose|i: int|
                #[trigger] is_first_defect(listed, i) && listed[i].operation_id is None
                    && listed[i].method == method@ && listed[i].path == path@;
            assert forall|j: int| 0 <= j < i implies (#[trigger] listed[j]).operation_id is Some by {
                assert(!is_defect(listed, j));
            }
            assert(listed[i].operation_id is None);
        },
        ActionCatalogError::DuplicateOperationId { operation_id } => {
            let j = choose|j: int|
                #[trigger] is_first_defect(listed, j) && listed[j].operation_id == Some(
                    operation_id@,
                );
            let i = choose|i: int|
                0 <= i < j && (#[trigger] listed[i]).operation_id == listed[j].operation_id;
            assert(listed[i].operation_id == Some(operation_id@));
        },
        ActionCatalogError::MissingActionOperation { operation_id } => {
            let k = choose|k: int|
                #[trigger] is_first_missing_key(listed, keys, k) && keys[k].operation_id@
                    == operation_id@;
            assert(keys[k].operation_id@ == operation_id@);
            assert forall|i: int| 0 <= i < listed.len() implies (
            #[trigger] listed[i]).operation_id != Some(operation_id@) by {
                if listed[i].operation_id == Some(operation_id@) {
                    assert(goes_by(listed, i, operation_id@));
                }
            }
        },
        ActionCatalogError::MissingAnswerOperation { operation_id } => {
            let k = choose|k: int|
                #[trigger] is_first_missing_goal(listed, k) && api_catalog::answering_id(
                    goals()[k],
                ) == operation_id@;
            assert forall|i: int|
                0 <= i < listed.len() && (#[trigger] listed[i]).operation_id == Some(
                    operation_id@,
                ) implies listed[i].method != "GET"@ by {
                assert(goes_by(listed, i, operation_id@));
            }
        },
    }
}

/// A failure says what it is about and which of the four faults it is.
pub proof fn law_a_catalog_failure_says_what_failed(
    method: String,
    path: String,
    operation_id: String,
)
    ensures
        action_failure_text((ActionCatalogError::MissingOperationId { method, path }))
            == "operation "@ + method@ + " "@ + path@ + " has no operation_id"@,
        action_failure_text((ActionCatalogError::MissingActionOperation { operation_id }))
            == "action operation "@ + operation_id@
            + " does not resolve to an OpenAPI operation"@,
        action_failure_text((ActionCatalogError::DuplicateOperationId { operation_id }))
            == "operation_id "@ + operation_id@ + " is declared more than once"@,
        action_failure_text((ActionCatalogError::MissingAnswerOperation { operation_id }))
            == "report answer "@ + operation_id@
            + " does not resolve to an OpenAPI GET operation"@,
{
}

} // verus!
