//! The document an arriving client reads first: where the contract is, whether
//! the instance answers, what it needs next, which scopes there are and which
//! call answers which goal.

use crate::ledger::goal::ReportGoal;
use crate::openapi::{ApiDocument, ApiPath};
use crate::outside::json_string;
use crate::outside;
use crate::text::same_text;
use vstd::prelude::*;

verus! {

/// The address of the machine-readable contract.
pub const OPENAPI_PATH: &'static str = "/v1/openapi.json";

/// The context every link hangs off.
pub const ANCHOR: &'static str = "/v1";

/// The media type of everything linked.
pub const JSON: &'static str = "application/json";

/// The operation that reports whether the instance is answering.
pub const STATUS_OPERATION: &'static str = "health";

/// The operation that computes what the instance needs next.
pub const QUEUE_OPERATION: &'static str = "list_actions";

/// The operation that lists the scopes a report can be computed over.
pub const SCOPES_OPERATION: &'static str = "list_contours";

/// What the queue is, to a client that knows nothing.
pub const QUEUE_TITLE: &'static str =
    "What this instance needs next, computed from its own state. Each item names the operation that closes it, the fields already decided, and the goals below it stands in the way of. Work this queue rather than reconstructing an order of setup.";

/// What the scopes are, to a client that knows nothing.
pub const SCOPES_TITLE: &'static str =
    "The scopes a report is computed over, each with the owner's own name for it. Every goal below requires one of these ids: read the scope by name here, then call by id.";

/// What the contract is, to a client that knows nothing.
pub const CONTRACT_TITLE: &'static str =
    "The contract: every route, request, response and refusal this instance serves, generated from its handlers. Read it instead of asking which routes exist or what a refusal looks like.";

/// What the status is, to a client that knows nothing.
pub const STATUS_TITLE: &'static str =
    "Whether the instance is answering, and the schema and projection versions it answers under.";

/// The operation that answers a goal.
pub open spec fn answering_id(goal: ReportGoal) -> Seq<char> {
    match goal {
        ReportGoal::AssetSnapshot => "asset_snapshot_report"@,
        ReportGoal::MoneyFlow => "flow_report"@,
        ReportGoal::Returns => "returns_report"@,
        ReportGoal::Reconciliation => "reconciliation"@,
    }
}

/// The operation that answers a goal. Which call answers which goal is a
/// judgement; nothing in the contract says it.
pub fn answering_operation(goal: ReportGoal) -> (operation_id: &'static str)
    ensures
        operation_id@ == answering_id(goal),
{
    match goal {
        ReportGoal::AssetSnapshot => "asset_snapshot_report",
        ReportGoal::MoneyFlow => "flow_report",
        ReportGoal::Returns => "returns_report",
        ReportGoal::Reconciliation => "reconciliation",
    }
}

/// The line that says what each goal answers, as the goals themselves word it.
#[derive(Debug, Clone, PartialEq, Eq)]
pub struct GoalLines {
    pub asset_snapshot: String,
    pub money_flow: String,
    pub returns_report: String,
    pub reconciliation: String,
}

impl GoalLines {
    /// The line of one goal.
    pub open spec fn line(self, goal: ReportGoal) -> Seq<char> {
        match goal {
            ReportGoal::AssetSnapshot => self.asset_snapshot@,
            ReportGoal::MoneyFlow => self.money_flow@,
            ReportGoal::Returns => self.returns_report@,
            ReportGoal::Reconciliation => self.reconciliation@,
        }
    }

    /// The line of one goal.
    pub fn answers(&self, goal: ReportGoal) -> (line: &str)
        ensures
            line@ == self.line(goal),
    {
        match goal {
            ReportGoal::AssetSnapshot => self.asset_snapshot.as_str(),
            ReportGoal::MoneyFlow => self.money_flow.as_str(),
            ReportGoal::Returns => self.returns_report.as_str(),
            ReportGoal::Reconciliation => self.reconciliation.as_str(),
        }
    }
}

/// A failure found while resolving the links against the contract.
#[derive(Debug, Clone, PartialEq, Eq)]
pub enum ApiCatalogError {
    MissingOperation { operation_id: String },
    DuplicateOperationId { operation_id: String },
}

/// The failure in words.
pub open spec fn link_failure_text(failure: ApiCatalogError) -> Seq<char> {
    match failure {
        ApiCatalogError::MissingOperation { operation_id } =>
            "catalog link "@ + operation_id@
            + " resolves to no GET operation in the generated document"@,
        ApiCatalogError::DuplicateOperationId { operation_id } =>
            "operation_id "@ + operation_id@ + " is declared on more than one GET operation"@,
    }
}

/// The failure in words.
pub fn link_failure(failure: &ApiCatalogError) -> (text: String)
    ensures
        text@ == link_failure_text(*failure),
{
    match failure {
        ApiCatalogError::MissingOperation { operation_id } => {
            let mut text = "catalog link ".to_owned();
            text.append(operation_id.as_str());
            text.append(" resolves to no GET operation in the generated document");
            text
        },
        ApiCatalogError::DuplicateOperationId { operation_id } => {
            let mut text = "operation_id ".to_owned();
            text.append(operation_id.as_str());
            text.append(" is declared on more than one GET operation");
            text
        },
    }
}

/// A `GET` operation with an identifier, and its path.
pub struct ReadView {
    pub operation_id: Seq<char>,
    pub path: Seq<char>,
}

/// A `GET` operation with an identifier, and its path.
#[derive(Debug, Clone, PartialEq, Eq)]
pub struct ReadOperation {
    pub operation_id: String,
    pub path: String,
}

impl View for ReadOperation {
    type V = ReadView;

    open spec fn view(&self) -> ReadView {
        ReadView { operation_id: self.operation_id@, path: self.path@ }
    }
}

/// What one path contributes: its `GET`, where it has one with an identifier.
pub open spec fn read_of(path: ApiPath) -> Seq<ReadView> {
    match path.get {
        Some(operation) => match operation.operation_id {
            Some(operation_id) => seq![
                ReadView { operation_id: operation_id@, path: path.path@ },
            ],
            None => seq![],
        },
        None => seq![],
    }
}

/// The `GET` operations of several paths, in order.
pub open spec fn reads(paths: Seq<ApiPath>) -> Seq<ReadView>
    decreases paths.len(),
{
    if paths.len() == 0 {
        seq![]
    } else {
        reads(paths.drop_last()) + read_of(paths.last())
    }
}

/// Whether a path's `GET` repeats the identifier of one before it.
pub open spec fn repeats(paths: Seq<ApiPath>, index: int) -> bool {
    &&& 0 <= index < paths.len()
    &&& read_of(paths[index]).len() == 1
    &&& exists|i: int|
        0 <= i < reads(paths.take(index)).len() && (
        #[trigger] reads(paths.take(index))[i]).operation_id
            == read_of(paths[index])[0].operation_id
}

/// The views of several operations.
pub open spec fn read_views(found: Seq<ReadOperation>) -> Seq<ReadView> {
    Seq::new(found.len(), |i: int| found[i]@)
}

/// The index of the first operation that goes by an identifier.
fn position(found: &Vec<ReadOperation>, operation_id: &str) -> (index: Option<usize>)
    ensures
        match index {
            Some(index) => index < found@.len() && found@[index as int]@.operation_id
                == operation_id@,
            None => forall|i: int|
                0 <= i < found@.len() ==> (#[trigger] found@[i])@.operation_id != operation_id@,
        },
{
    let mut next: usize = 0;
    while next < found.len()
        invariant
            next <= found@.len(),
            forall|i: int|
                0 <= i < next ==> (#[trigger] found@[i])@.operation_id != operation_id@,
        decreases found@.len() - next,
    {
        if same_text(found[next].operation_id.as_str(), operation_id) {
            return Some(next);
        }
        next = next + 1;
    }
    None
}

/// Every `GET` operation of the document that has an identifier. An operation
/// under another method cannot be linked to and is not among them.
pub fn get_operations(api: &ApiDocument) -> (indexed: Result<Vec<ReadOperation>, ApiCatalogError>)
    ensures
        match indexed {
            Ok(found) => read_views(found@) == reads(api.paths@) && forall|i: int|
                !#[trigger] repeats(api.paths@, i),
            Err(ApiCatalogError::DuplicateOperationId { operation_id }) => exists|i: int|
                #[trigger] repeats(api.paths@, i) && read_of(api.paths@[i])[0].operation_id
                    == operation_id@ && forall|j: int| j < i ==> !#[trigger] repeats(api.paths@, j),
            Err(_) => false,
        },
{
    let mut found: Vec<ReadOperation> = Vec::new();
    let mut next: usize = 0;
    assert(read_views(found@) =~= reads(api.paths@.take(0)));
    while next < api.paths.len()
        invariant
            next <= api.paths@.len(),
            read_views(found@) == reads(api.paths@.take(next as int)),
            forall|i: int| i < next ==> !#[trigger] repeats(api.paths@, i),
        decreases api.paths@.len() - next,
    {
        let item = &api.paths[next];
        let ghost before = found@;
        proof {
            let taken = api.paths@.take(next + 1);
            assert(taken.drop_last() =~= api.paths@.take(next as int));
            assert(taken.last() == api.paths@[next as int]);
        }
        if let Some(operation) = &item.get {
            if let Some(operation_id) = &operation.operation_id {
                match position(&found, operation_id.as_str()) {
                    Some(index) => {
                        assert(read_views(found@)[index as int] == found@[index as int]@);
                        assert(repeats(api.paths@, next as int));
                        return Err(
                            ApiCatalogError::DuplicateOperationId {
                                operation_id: operation_id.clone(),
                            },
                        );
                    },
                    None => {
                        assert forall|i: int|
                            0 <= i < reads(api.paths@.take(next as int)).len() implies (
                        #[trigger] reads(api.paths@.take(next as int))[i]).operation_id
                            != operation_id@ by {
                            assert(read_views(found@)[i] == found@[i]@);
                        }
                        found.push(
                            ReadOperation {
                                operation_id: operation_id.clone(),
                                path: item.path.clone(),
                            },
                        );
                    },
                }
            }
        }
        assert(!repeats(api.paths@, next as int));
        assert(read_views(found@) =~= read_views(before) + read_of(*item));
        next = next + 1;
    }
    assert(api.paths@.take(next as int) =~= api.paths@);
    Ok(found)
}

/// Whether a path is where an identifier is read.
pub open spec fn reads_at(found: Seq<ReadView>, operation_id: Seq<char>, path: Seq<char>) -> bool {
    exists|i: int|
        0 <= i < found.len() && (#[trigger] found[i]).operation_id == operation_id && found[i].path
            == path
}

/// Whether an identifier is read nowhere.
pub open spec fn is_unread(found: Seq<ReadView>, operation_id: Seq<char>) -> bool {
    forall|i: int| 0 <= i < found.len() ==> (#[trigger] found[i]).operation_id != operation_id
}

/// The identifiers the catalog links to, in the order they are resolved.
pub open spec fn linked() -> Seq<Seq<char>> {
    seq![
        QUEUE_OPERATION@,
        SCOPES_OPERATION@,
        answering_id(ReportGoal::AssetSnapshot),
        answering_id(ReportGoal::MoneyFlow),
        answering_id(ReportGoal::Returns),
        answering_id(ReportGoal::Reconciliation),
        STATUS_OPERATION@,
    ]
}

/// The addresses of the links, in the order they are resolved.
struct Addresses {
    queue: String,
    scopes: String,
    asset_snapshot: String,
    money_flow: String,
    returns_report: String,
    reconciliation: String,
    status: String,
}

impl Addresses {
    spec fn at(self) -> Seq<Seq<char>> {
        seq![
            self.queue@,
            self.scopes@,
            self.asset_snapshot@,
            self.money_flow@,
            self.returns_report@,
            self.reconciliation@,
            self.status@,
        ]
    }
}

fn resolve(found: &Vec<ReadOperation>, operation_id: &str) -> (path: Result<
    String,
    ApiCatalogError,
>)
    ensures
        match path {
            Ok(path) => reads_at(read_views(found@), operation_id@, path@),
            Err(ApiCatalogError::MissingOperation { operation_id: missing }) => missing@
                == operation_id@ && is_unread(read_views(found@), operation_id@),
            Err(_) => false,
        },
{
    match position(found, operation_id) {
        Some(index) => {
            assert(read_views(found@)[index as int] == found@[index as int]@);
            Ok(found[index].path.clone())
        },
        None => {
            assert forall|i: int| 0 <= i < read_views(found@).len() implies (
            #[trigger] read_views(found@)[i]).operation_id != operation_id@ by {
                assert(read_views(found@)[i] == found@[i]@);
            }
            Err(ApiCatalogError::MissingOperation { operation_id: operation_id.to_owned() })
        },
    }
}

fn addresses(found: &Vec<ReadOperation>) -> (resolved: Result<Addresses, ApiCatalogError>)
    ensures
        match resolved {
            Ok(addresses) => forall|i: int|
                0 <= i < 7 ==> reads_at(
                    read_views(found@),
                    #[trigger] linked()[i],
                    addresses.at()[i],
                ),
            Err(ApiCatalogError::MissingOperation { operation_id }) => exists|i: int|
                is_first_unread(read_views(found@), i) && operation_id@ == #[trigger] linked()[i],
            Err(_) => false,
        },
{
    let ghost view = read_views(found@);
    let queue = match resolve(found, QUEUE_OPERATION) {
        Ok(path) => path,
        Err(failure) => {
            assert(is_unread(view, linked()[0]));
            assert(is_first_unread(view, 0));
            return Err(failure);
        },
    };
    assert(reads_at(view, linked()[0], queue@));
    let scopes = match resolve(found, SCOPES_OPERATION) {
        Ok(path) => path,
        Err(failure) => {
            assert(is_unread(view, linked()[1]));
            assert(is_first_unread(view, 1));
            return Err(failure);
        },
    };
    assert(reads_at(view, linked()[1], scopes@));
    let asset_snapshot = match resolve(found, answering_operation(ReportGoal::AssetSnapshot)) {
        Ok(path) => path,
        Err(failure) => {
            assert(is_unread(view, linked()[2]));
            assert(is_first_unread(view, 2));
            return Err(failure);
        },
    };
    assert(reads_at(view, linked()[2], asset_snapshot@));
    let money_flow = match resolve(found, answering_operation(ReportGoal::MoneyFlow)) {
        Ok(path) => path,
        Err(failure) => {
            assert(is_unread(view, linked()[3]));
            assert(is_first_unread(view, 3));
            return Err(failure);
        },
    };
    assert(reads_at(view, linked()[3], money_flow@));
    let returns_report = match resolve(found, answering_operation(ReportGoal::Returns)) {
        Ok(path) => path,
        Err(failure) => {
            assert(is_unread(view, linked()[4]));
            assert(is_first_unread(view, 4));
            return Err(failure);
        },
    };
    assert(reads_at(view, linked()[4], returns_report@));
    let reconciliation = match resolve(found, answering_operation(ReportGoal::Reconciliation)) {
        Ok(path) => path,
        Err(failure) => {
            assert(is_unread(view, linked()[5]));
            assert(is_first_unread(view, 5));
            return Err(failure);
        },
    };
    assert(reads_at(view, linked()[5], reconciliation@));
    let status = match resolve(found, STATUS_OPERATION) {
        Ok(path) => path,
        Err(failure) => {
            assert(is_unread(view, linked()[6]));
            assert(is_first_unread(view, 6));
            return Err(failure);
        },
    };
    Ok(
        Addresses {
            queue,
            scopes,
            asset_snapshot,
            money_flow,
            returns_report,
            reconciliation,
            status,
        },
    )
}

/// Whether a link is the first that no `GET` operation resolves.
pub open spec fn is_first_unread(found: Seq<ReadView>, index: int) -> bool {
    &&& 0 <= index < 7
    &&& is_unread(found, linked()[index])
    &&& forall|i: int|
        0 <= i < index ==> exists|path: Seq<char>| reads_at(found, #[trigger] linked()[i], path)
}

/// One link as a JSON object: its goal where it answers one, its address, its
/// title and its media type.
#[verifier::opaque]
pub open spec fn link_text(href: Seq<char>, title: Seq<char>, goal: Option<Seq<char>>) -> Seq<
    char,
> {
    (match goal {
        Some(goal) => "{\"goal\":"@ + outside::json_literal(goal) + ","@,
        None => "{"@,
    }) + "\"href\":"@ + outside::json_literal(href) + ",\"title\":"@ + outside::json_literal(title)
        + ",\"type\":"@ + outside::json_literal(JSON@) + "}"@
}

/// One link as a JSON object.
pub fn link(href: &str, title: &str, goal: Option<&str>) -> (text: String)
    ensures
        text@ == link_text(
            href@,
            title@,
            match goal {
                Some(goal) => Some(goal@),
                None => None,
            },
        ),
{
    proof {
        reveal(link_text);
    }
    let mut text = match goal {
        Some(goal) => {
            let mut text = "{\"goal\":".to_owned();
            text.append(json_string(goal).as_str());
            text.append(",");
            text
        },
        None => "{".to_owned(),
    };
    text.append("\"href\":");
    text.append(json_string(href).as_str());
    text.append(",\"title\":");
    text.append(json_string(title).as_str());
    text.append(",\"type\":");
    text.append(json_string(JSON).as_str());
    text.append("}");
    text
}

/// The document with the links at these addresses, in the order the identifiers
/// are resolved.
pub open spec fn document(at: Seq<Seq<char>>, lines: GoalLines) -> Seq<char> {
    "{\"linkset\":[{\"anchor\":"@ + outside::json_literal(ANCHOR@) + ",\"related\":["@ + link_text(
        at[0],
        QUEUE_TITLE@,
        None,
    ) + ","@ + link_text(at[1], SCOPES_TITLE@, None) + ","@ + link_text(
        at[2],
        lines.line(ReportGoal::AssetSnapshot),
        Some(ReportGoal::AssetSnapshot.word()),
    ) + ","@ + link_text(
        at[3],
        lines.line(ReportGoal::MoneyFlow),
        Some(ReportGoal::MoneyFlow.word()),
    ) + ","@ + link_text(
        at[4],
        lines.line(ReportGoal::Returns),
        Some(ReportGoal::Returns.word()),
    ) + ","@ + link_text(
        at[5],
        lines.line(ReportGoal::Reconciliation),
        Some(ReportGoal::Reconciliation.word()),
    ) + "],\"service-desc\":["@ + link_text(OPENAPI_PATH@, CONTRACT_TITLE@, None)
        + "],\"status\":["@ + link_text(at[6], STATUS_TITLE@, None) + "]}]}"@
}

fn document_text(at: &Addresses, lines: &GoalLines) -> (text: String)
    ensures
        text@ == document(at.at(), *lines),
{
    let mut text = "{\"linkset\":[{\"anchor\":".to_owned();
    text.append(json_string(ANCHOR).as_str());
    text.append(",\"related\":[");
    text.append(link(at.queue.as_str(), QUEUE_TITLE, None).as_str());
    text.append(",");
    text.append(link(at.scopes.as_str(), SCOPES_TITLE, None).as_str());
    text.append(",");
    text.append(
        link(
            at.asset_snapshot.as_str(),
            lines.answers(ReportGoal::AssetSnapshot),
            Some(ReportGoal::AssetSnapshot.code()),
        ).as_str(),
    );
    text.append(",");
    text.append(
        link(
            at.money_flow.as_str(),
            lines.answers(ReportGoal::MoneyFlow),
            Some(ReportGoal::MoneyFlow.code()),
        ).as_str(),
    );
    text.append(",");
    text.append(
        link(
            at.returns_report.as_str(),
            lines.answers(ReportGoal::Returns),
            Some(ReportGoal::Returns.code()),
        ).as_str(),
    );
    text.append(",");
    text.append(
        link(
            at.reconciliation.as_str(),
            lines.answers(ReportGoal::Reconciliation),
            Some(ReportGoal::Reconciliation.code()),
        ).as_str(),
    );
    text.append("],\"service-desc\":[");
    text.append(link(OPENAPI_PATH, CONTRACT_TITLE, None).as_str());
    text.append("],\"status\":[");
    text.append(link(at.status.as_str(), STATUS_TITLE, None).as_str());
    text.append("]}]}");
    text
}

/// The discovery document, serialised once.
#[derive(Debug, Clone, PartialEq, Eq)]
pub struct ApiCatalog {
    pub body: Vec<u8>,
}

impl ApiCatalog {
    /// Whether the catalog is the one of a contract: every linked address is
    /// where the contract reads that identifier.
    pub open spec fn is_of(self, api: ApiDocument, lines: GoalLines) -> bool {
        exists|at: Seq<Seq<char>>|
            {
                &&& at.len() == 7
                &&& forall|i: int|
                    0 <= i < 7 ==> reads_at(
                        reads(api.paths@),
                        #[trigger] linked()[i],
                        at[i],
                    )
                &&& self.body@ == #[trigger] vstd::utf8::encode_utf8(document(at, lines))
            }
    }

    /// Resolves every link against the contract. A `GET` identifier that is
    /// declared twice is refused first; then the first link that no `GET`
    /// operation resolves.
    pub fn from_openapi(api: &ApiDocument, lines: &GoalLines) -> (built: Result<
        Self,
        ApiCatalogError,
    >)
        ensures
            match built {
                Ok(catalog) => catalog.is_of(*api, *lines) && forall|i: int|
                    !#[trigger] repeats(api.paths@, i),
                Err(ApiCatalogError::DuplicateOperationId { operation_id }) => exists|i: int|
                    #[trigger] repeats(api.paths@, i) && read_of(api.paths@[i])[0].operation_id
                        == operation_id@ && forall|j: int|
                        j < i ==> !#[trigger] repeats(api.paths@, j),
                Err(ApiCatalogError::MissingOperation { operation_id }) => (forall|i: int|
                    !#[trigger] repeats(api.paths@, i)) && exists|i: int|
                    is_first_unread(reads(api.paths@), i) && operation_id@
                        == #[trigger] linked()[i],
            },
    {
        let found = match get_operations(api) {
            Ok(found) => found,
            Err(failure) => {
                return Err(failure);
            },
        };
        let at = match addresses(&found) {
            Ok(at) => at,
            Err(failure) => {
                return Err(failure);
            },
        };
        let text = document_text(&at, lines);
        assert(at.at().len() == 7);
        Ok(Self { body: text.as_str().as_bytes_vec() })
    }

    /// The serialised document.
    pub fn body(&self) -> (body: Vec<u8>)
        ensures
            body@ == self.body@,
    {
        self.body.clone()
    }
}

/// No link of a catalog is dead: every address in it is the path of a `GET`
/// operation of the contract with the linked identifier.
pub proof fn law_no_link_is_dead(catalog: ApiCatalog, api: ApiDocument, lines: GoalLines, link: int)
    requires
        catalog.is_of(api, lines),
        0 <= link < 7,
    ensures
        !is_unread(reads(api.paths@), linked()[link]),
{
    let at = choose|at: Seq<Seq<char>>|
        {
            &&& at.len() == 7
            &&& forall|i: int|
                0 <= i < 7 ==> reads_at(reads(api.paths@), #[trigger] linked()[i], at[i])
            &&& catalog.body@ == #[trigger] vstd::utf8::encode_utf8(document(at, lines))
        };
    assert(reads_at(reads(api.paths@), linked()[link], at[link]));
}

/// Each goal is answered by the operation that was judged to answer it, and each line is
/// that goal's own.
pub proof fn law_each_goal_has_its_own_answer(goal: ReportGoal, lines: GoalLines)
    ensures
        answering_id(goal) == "asset_snapshot_report"@ <==> goal is AssetSnapshot,
        answering_id(goal) == "flow_report"@ <==> goal is MoneyFlow,
        answering_id(goal) == "returns_report"@ <==> goal is Returns,
        answering_id(goal) == "reconciliation"@ <==> goal is Reconciliation,
        goal is AssetSnapshot ==> lines.line(goal) == lines.asset_snapshot@,
        goal is MoneyFlow ==> lines.line(goal) == lines.money_flow@,
        goal is Returns ==> lines.line(goal) == lines.returns_report@,
        goal is Reconciliation ==> lines.line(goal) == lines.reconciliation@,
{
    reveal_strlit("asset_snapshot_report");
    reveal_strlit("flow_report");
    reveal_strlit("returns_report");
    reveal_strlit("reconciliation");
    assert("reconciliation"@[2] == 'c');
    assert("returns_report"@[2] == 't');
    assert(answering_id(goal).len() > 0);
}

/// An identifier is read at a path exactly where the contract has a `GET` with that
/// identifier there: an operation under another method is not read anywhere.
pub proof fn law_only_a_get_is_read(paths: Seq<ApiPath>, operation_id: Seq<char>, path: Seq<char>)
    ensures
        reads_at(reads(paths), operation_id, path) <==> exists|k: int|
            0 <= k < paths.len() && (#[trigger] paths[k]).path@ == path && (
            paths[k].get matches Some(operation) && operation.operation_id matches Some(id) && id@
                == operation_id),
    decreases paths.len(),
{
    let found = reads(paths);
    if paths.len() > 0 {
        let shorter = paths.drop_last();
        let before = reads(shorter);
        law_only_a_get_is_read(shorter, operation_id, path);
        assert(found == before + read_of(paths.last()));
        if reads_at(found, operation_id, path) {
            let i = choose|i: int|
                0 <= i < found.len() && (#[trigger] found[i]).operation_id == operation_id
                    && found[i].path == path;
            if i < before.len() {
                assert(before[i] == found[i]);
                assert(reads_at(before, operation_id, path));
                let k = choose|k: int|
                    0 <= k < shorter.len() && (#[trigger] shorter[k]).path@ == path && (
                    shorter[k].get matches Some(operation) && operation.operation_id matches Some(
                        id,
                    ) && id@ == operation_id);
                assert(paths[k] == shorter[k]);
            } else {
                assert(found[i] == read_of(paths.last())[i - before.len()]);
                assert(paths[paths.len() - 1].path@ == path);
            }
        }
        if exists|k: int|
            0 <= k < paths.len() && (#[trigger] paths[k]).path@ == path && (
            paths[k].get matches Some(operation) && operation.operation_id matches Some(id) && id@
                == operation_id) {
            let k = choose|k: int|
                0 <= k < paths.len() && (#[trigger] paths[k]).path@ == path && (
                paths[k].get matches Some(operation) && operation.operation_id matches Some(id)
                    && id@ == operation_id);
            if k < shorter.len() {
                assert(shorter[k] == paths[k]);
                assert(reads_at(before, operation_id, path));
                let i = choose|i: int|
                    0 <= i < before.len() && (#[trigger] before[i]).operation_id == operation_id
                        && before[i].path == path;
                assert(found[i] == before[i]);
            } else {
                assert(found[before.len() as int] == read_of(paths.last())[0]);
            }
        }
    }
}

/// A link is a JSON object of its own goal, address and title.
pub proof fn law_a_link_states_its_goal_address_and_title(
    href: Seq<char>,
    title: Seq<char>,
    goal: Seq<char>,
)
    ensures
        link_text(href, title, Some(goal)) == "{\"goal\":"@ + outside::json_literal(goal)
            + ",\"href\":"@ + outside::json_literal(href) + ",\"title\":"@ + outside::json_literal(
            title,
        ) + ",\"type\":"@ + outside::json_literal("application/json"@) + "}"@,
        link_text(href, title, None) == "{\"href\":"@ + outside::json_literal(href) + ",\"title\":"@
            + outside::json_literal(title) + ",\"type\":"@ + outside::json_literal(
            "application/json"@,
        ) + "}"@,
{
    reveal(link_text);
    reveal_strlit("{\"goal\":");
    reveal_strlit(",");
    reveal_strlit("{");
    reveal_strlit("\"href\":");
    reveal_strlit(",\"href\":");
    reveal_strlit("{\"href\":");
    assert(","@ + "\"href\":"@ =~= ",\"href\":"@);
    assert("{"@ + "\"href\":"@ =~= "{\"href\":"@);
    assert(link_text(href, title, Some(goal)) =~= "{\"goal\":"@ + outside::json_literal(goal)
        + ",\"href\":"@ + outside::json_literal(href) + ",\"title\":"@ + outside::json_literal(
        title,
    ) + ",\"type\":"@ + outside::json_literal("application/json"@) + "}"@);
    assert(link_text(href, title, None) =~= "{\"href\":"@ + outside::json_literal(href)
        + ",\"title\":"@ + outside::json_literal(title) + ",\"type\":"@ + outside::json_literal(
        "application/json"@,
    ) + "}"@);
}

/// The published document is a linkset: under one anchor, what is related (the queue, the
/// scopes and the four goals, each at the address at which the contract reads its own
/// operation), the contract, and the status.
pub proof fn law_every_link_is_published_at_its_own_address(
    catalog: ApiCatalog,
    api: ApiDocument,
    lines: GoalLines,
)
    requires
        catalog.is_of(api, lines),
    ensures
        exists|
            queue: Seq<char>,
            scopes: Seq<char>,
            assets: Seq<char>,
            flow: Seq<char>,
            returned: Seq<char>,
            agreement: Seq<char>,
            status: Seq<char>,
        |
            {
                &&& reads_at(reads(api.paths@), "list_actions"@, queue)
                &&& reads_at(reads(api.paths@), "list_contours"@, scopes)
                &&& reads_at(reads(api.paths@), "asset_snapshot_report"@, assets)
                &&& reads_at(reads(api.paths@), "flow_report"@, flow)
                &&& reads_at(reads(api.paths@), "returns_report"@, returned)
                &&& reads_at(reads(api.paths@), "reconciliation"@, agreement)
                &&& reads_at(reads(api.paths@), "health"@, status)
                &&& catalog.body@ == #[trigger] vstd::utf8::encode_utf8(
                    "{\"linkset\":[{\"anchor\":"@ + outside::json_literal("/v1"@)
                        + ",\"related\":["@ + link_text(queue, QUEUE_TITLE@, None) + ","@
                        + link_text(scopes, SCOPES_TITLE@, None) + ","@ + link_text(
                        assets,
                        lines.asset_snapshot@,
                        Some("asset_snapshot"@),
                    ) + ","@ + link_text(flow, lines.money_flow@, Some("money_flow"@)) + ","@
                        + link_text(returned, lines.returns_report@, Some("returns"@)) + ","@
                        + link_text(
                        agreement,
                        lines.reconciliation@,
                        Some("reconciliation"@),
                    ) + "],\"service-desc\":["@ + link_text(
                        "/v1/openapi.json"@,
                        CONTRACT_TITLE@,
                        None,
                    ) + "],\"status\":["@ + link_text(status, STATUS_TITLE@, None) + "]}]}"@,
                )
            },
{
    let found = reads(api.paths@);
    let at = choose|at: Seq<Seq<char>>|
        {
            &&& at.len() == 7
            &&& forall|i: int| 0 <= i < 7 ==> reads_at(found, #[trigger] linked()[i], at[i])
            &&& catalog.body@ == #[trigger] vstd::utf8::encode_utf8(document(at, lines))
        };
    assert(reads_at(found, linked()[0], at[0]));
    assert(reads_at(found, linked()[1], at[1]));
    assert(reads_at(found, linked()[2], at[2]));
    assert(reads_at(found, linked()[3], at[3]));
    assert(reads_at(found, linked()[4], at[4]));
    assert(reads_at(found, linked()[5], at[5]));
    assert(reads_at(found, linked()[6], at[6]));
    assert(document(at, lines) == "{\"linkset\":[{\"anchor\":"@ + outside::json_literal("/v1"@)
        + ",\"related\":["@ + link_text(at[0], QUEUE_TITLE@, None) + ","@ + link_text(
        at[1],
        SCOPES_TITLE@,
        None,
    ) + ","@ + link_text(at[2], lines.asset_snapshot@, Some("asset_snapshot"@)) + ","@ + link_text(
        at[3],
        lines.money_flow@,
        Some("money_flow"@),
    ) + ","@ + link_text(at[4], lines.returns_report@, Some("returns"@)) + ","@ + link_text(
        at[5],
        lines.reconciliation@,
        Some("reconciliation"@),
    ) + "],\"service-desc\":["@ + link_text("/v1/openapi.json"@, CONTRACT_TITLE@, None)
        + "],\"status\":["@ + link_text(at[6], STATUS_TITLE@, None) + "]}]}"@);
}

/// What follows a part may be read as one text behind it.
proof fn lemma_one_text_behind(before: Seq<char>, part: Seq<char>, last: Seq<char>)
    ensures
        before + part + last == before + (part + last),
{
    assert(before + part + last =~= before + (part + last));
}

/// Each goal's link stands in the published document with that goal's own word, that
/// goal's own line and the path at which the contract has the `GET` that answers it.
pub proof fn law_each_goal_is_linked_to_its_own_answer(
    catalog: ApiCatalog,
    api: ApiDocument,
    lines: GoalLines,
)
    requires
        catalog.is_of(api, lines),
    ensures
        exists|path: Seq<char>, before: Seq<char>, after: Seq<char>|
            {
                &&& exists|k: int|
                    0 <= k < api.paths@.len() && (#[trigger] api.paths@[k]).path@ == path && (
                    api.paths@[k].get matches Some(operation)
                        && operation.operation_id matches Some(id) && id@ == "asset_snapshot_report"@)
                &&& catalog.body@ == #[trigger] vstd::utf8::encode_utf8(
                    before + ("{\"goal\":"@ + outside::json_literal("asset_snapshot"@) + ",\"href\":"@
                        + outside::json_literal(path) + ",\"title\":"@ + outside::json_literal(
                        lines.asset_snapshot@,
                    ) + ",\"type\":"@ + outside::json_literal("application/json"@) + "}"@) + after,
                )
            },
        exists|path: Seq<char>, before: Seq<char>, after: Seq<char>|
            {
                &&& exists|k: int|
                    0 <= k < api.paths@.len() && (#[trigger] api.paths@[k]).path@ == path && (
                    api.paths@[k].get matches Some(operation)
                        && operation.operation_id matches Some(id) && id@ == "flow_report"@)
                &&& catalog.body@ == #[trigger] vstd::utf8::encode_utf8(
                    before + ("{\"goal\":"@ + outside::json_literal("money_flow"@) + ",\"href\":"@
                        + outside::json_literal(path) + ",\"title\":"@ + outside::json_literal(
                        lines.money_flow@,
                    ) + ",\"type\":"@ + outside::json_literal("application/json"@) + "}"@) + after,
                )
            },
        exists|path: Seq<char>, before: Seq<char>, after: Seq<char>|
            {
                &&& exists|k: int|
                    0 <= k < api.paths@.len() && (#[trigger] api.paths@[k]).path@ == path && (
                    api.paths@[k].get matches Some(operation)
                        && operation.operation_id matches Some(id) && id@ == "returns_report"@)
                &&& catalog.body@ == #[trigger] vstd::utf8::encode_utf8(
                    before + ("{\"goal\":"@ + outside::json_literal("returns"@) + ",\"href\":"@
                        + outside::json_literal(path) + ",\"title\":"@ + outside::json_literal(
                        lines.returns_report@,
                    ) + ",\"type\":"@ + outside::json_literal("application/json"@) + "}"@) + after,
                )
            },
        exists|path: Seq<char>, before: Seq<char>, after: Seq<char>|
            {
                &&& exists|k: int|
                    0 <= k < api.paths@.len() && (#[trigger] api.paths@[k]).path@ == path && (
                    api.paths@[k].get matches Some(operation)
                        && operation.operation_id matches Some(id) && id@ == "reconciliation"@)
                &&& catalog.body@ == #[trigger] vstd::utf8::encode_utf8(
                    before + ("{\"goal\":"@ + outside::json_literal("reconciliation"@) + ",\"href\":"@
                        + outside::json_literal(path) + ",\"title\":"@ + outside::json_literal(
                        lines.reconciliation@,
                    ) + ",\"type\":"@ + outside::json_literal("application/json"@) + "}"@) + after,
                )
            },
{
    law_every_link_is_published_at_its_own_address(catalog, api, lines);
    let (queue, scopes, assets, flow, returned, agreement, status) = choose|
        queue: Seq<char>,
        scopes: Seq<char>,
        assets: Seq<char>,
        flow: Seq<char>,
        returned: Seq<char>,
        agreement: Seq<char>,
        status: Seq<char>,
    |
        {
            &&& reads_at(reads(api.paths@), "list_actions"@, queue)
            &&& reads_at(reads(api.paths@), "list_contours"@, scopes)
            &&& reads_at(reads(api.paths@), "asset_snapshot_report"@, assets)
            &&& reads_at(reads(api.paths@), "flow_report"@, flow)
            &&& reads_at(reads(api.paths@), "returns_report"@, returned)
            &&& reads_at(reads(api.paths@), "reconciliation"@, agreement)
            &&& reads_at(reads(api.paths@), "health"@, status)
            &&& catalog.body@ == #[trigger] vstd::utf8::encode_utf8(
                "{\"linkset\":[{\"anchor\":"@ + outside::json_literal("/v1"@) + ",\"related\":["@
                    + link_text(queue, QUEUE_TITLE@, None) + ","@ + link_text(
                    scopes,
                    SCOPES_TITLE@,
                    None,
                ) + ","@ + link_text(assets, lines.asset_snapshot@, Some("asset_snapshot"@))
                    + ","@ + link_text(flow, lines.money_flow@, Some("money_flow"@)) + ","@
                    + link_text(returned, lines.returns_report@, Some("returns"@)) + ","@
                    + link_text(agreement, lines.reconciliation@, Some("reconciliation"@))
                    + "],\"service-desc\":["@ + link_text(
                    "/v1/openapi.json"@,
                    CONTRACT_TITLE@,
                    None,
                ) + "],\"status\":["@ + link_text(status, STATUS_TITLE@, None) + "]}]}"@,
            )
        };
    law_only_a_get_is_read(api.paths@, "asset_snapshot_report"@, assets);
    law_only_a_get_is_read(api.paths@, "flow_report"@, flow);
    law_only_a_get_is_read(api.paths@, "returns_report"@, returned);
    law_only_a_get_is_read(api.paths@, "reconciliation"@, agreement);
    law_a_link_states_its_goal_address_and_title(
        assets,
        lines.asset_snapshot@,
        "asset_snapshot"@,
    );
    law_a_link_states_its_goal_address_and_title(flow, lines.money_flow@, "money_flow"@);
    law_a_link_states_its_goal_address_and_title(returned, lines.returns_report@, "returns"@);
    law_a_link_states_its_goal_address_and_title(
        agreement,
        lines.reconciliation@,
        "reconciliation"@,
    );
    let first = link_text(assets, lines.asset_snapshot@, Some("asset_snapshot"@));
    let second = link_text(flow, lines.money_flow@, Some("money_flow"@));
    let third = link_text(returned, lines.returns_report@, Some("returns"@));
    let fourth = link_text(agreement, lines.reconciliation@, Some("reconciliation"@));
    let head = "{\"linkset\":[{\"anchor\":"@ + outside::json_literal("/v1"@) + ",\"related\":["@
        + link_text(queue, QUEUE_TITLE@, None) + ","@ + link_text(scopes, SCOPES_TITLE@, None)
        + ","@;
    let contract = link_text("/v1/openapi.json"@, CONTRACT_TITLE@, None);
    let state = link_text(status, STATUS_TITLE@, None);
    let to_second = head + first + ","@;
    let to_third = to_second + second + ","@;
    let to_fourth = to_third + third + ","@;
    let end1 = "],\"service-desc\":["@;
    let end2 = end1 + contract;
    let end3 = end2 + "],\"status\":["@;
    let end4 = end3 + state;
    let end5 = end4 + "]}]}"@;
    let upto = to_fourth + fourth;
    lemma_one_text_behind(upto, end1, contract);
    lemma_one_text_behind(upto, end2, "],\"status\":["@);
    lemma_one_text_behind(upto, end3, state);
    lemma_one_text_behind(upto, end4, "]}]}"@);
    let body = upto + end5;
    assert(catalog.body@ == vstd::utf8::encode_utf8(body));
    let behind_third = ","@ + fourth + end5;
    lemma_one_text_behind(to_third + third, ","@, fourth);
    lemma_one_text_behind(to_third + third, ","@ + fourth, end5);
    assert(body == to_third + third + behind_third);
    let behind_second = ","@ + third + behind_third;
    lemma_one_text_behind(to_second + second, ","@, third);
    lemma_one_text_behind(to_second + second, ","@ + third, behind_third);
    assert(body == to_second + second + behind_second);
    let behind_first = ","@ + second + behind_second;
    lemma_one_text_behind(head + first, ","@, second);
    lemma_one_text_behind(head + first, ","@ + second, behind_second);
    assert(body == head + first + behind_first);
    assert(catalog.body@ == vstd::utf8::encode_utf8(
        head + ("{\"goal\":"@ + outside::json_literal("asset_snapshot"@) + ",\"href\":"@
            + outside::json_literal(assets) + ",\"title\":"@ + outside::json_literal(
            lines.asset_snapshot@,
        ) + ",\"type\":"@ + outside::json_literal("application/json"@) + "}"@) + behind_first,
    ));
    assert(catalog.body@ == vstd::utf8::encode_utf8(
        to_second + ("{\"goal\":"@ + outside::json_literal("money_flow"@) + ",\"href\":"@
            + outside::json_literal(flow) + ",\"title\":"@ + outside::json_literal(
            lines.money_flow@,
        ) + ",\"type\":"@ + outside::json_literal("application/json"@) + "}"@) + behind_second,
    ));
    assert(catalog.body@ == vstd::utf8::encode_utf8(
        to_third + ("{\"goal\":"@ + outside::json_literal("returns"@) + ",\"href\":"@
            + outside::json_literal(returned) + ",\"title\":"@ + outside::json_literal(
            lines.returns_report@,
        ) + ",\"type\":"@ + outside::json_literal("application/json"@) + "}"@) + behind_third,
    ));
    assert(catalog.body@ == vstd::utf8::encode_utf8(
        to_fourth + ("{\"goal\":"@ + outside::json_literal("reconciliation"@) + ",\"href\":"@
            + outside::json_literal(agreement) + ",\"title\":"@ + outside::json_literal(
            lines.reconciliation@,
        ) + ",\"type\":"@ + outside::json_literal("application/json"@) + "}"@) + end5,
    ));
}

/// A `GET` repeats an identifier exactly where a path before it has a `GET` with the same.
pub proof fn law_a_repeated_identifier_stands_at_two_paths(paths: Seq<ApiPath>, index: int)
    ensures
        repeats(paths, index) <==> 0 <= index < paths.len() && (
        paths[index].get matches Some(operation) && operation.operation_id matches Some(id)
            && exists|k: int|
            0 <= k < index && ((#[trigger] paths[k]).get matches Some(earlier)
                && earlier.operation_id matches Some(known) && known@ == id@)),
{
    if 0 <= index < paths.len() && read_of(paths[index]).len() == 1 {
        let shorter = paths.take(index);
        let found = reads(shorter);
        let operation_id = read_of(paths[index])[0].operation_id;
        if repeats(paths, index) {
            let i = choose|i: int|
                0 <= i < found.len() && (#[trigger] found[i]).operation_id == operation_id;
            law_only_a_get_is_read(shorter, operation_id, found[i].path);
            assert(reads_at(found, operation_id, found[i].path));
            let k = choose|k: int|
                0 <= k < shorter.len() && (#[trigger] shorter[k]).path@ == found[i].path && (
                shorter[k].get matches Some(operation) && operation.operation_id matches Some(id)
                    && id@ == operation_id);
            assert(paths[k] == shorter[k]);
        }
        if exists|k: int|
            0 <= k < index && ((#[trigger] paths[k]).get matches Some(earlier)
                && earlier.operation_id matches Some(known) && known@ == operation_id) {
            let k = choose|k: int|
                0 <= k < index && ((#[trigger] paths[k]).get matches Some(earlier)
                    && earlier.operation_id matches Some(known) && known@ == operation_id);
            assert(shorter[k] == paths[k]);
            law_only_a_get_is_read(shorter, operation_id, shorter[k].path@);
            let i = choose|i: int|
                0 <= i < found.len() && (#[trigger] found[i]).operation_id == operation_id
                    && found[i].path == shorter[k].path@;
            assert(found[i].operation_id == operation_id);
        }
    }
}

/// The first link that is missing is named: the queue and the scopes are looked for
/// first, then the goals in their order, and the status last.
pub proof fn law_the_first_missing_link_is_named(found: Seq<ReadView>, index: int)
    requires
        is_first_unread(found, index),
    ensures
        forall|i: int|
            0 <= i < found.len() ==> (#[trigger] found[i]).operation_id != linked()[index],
        index > 0 ==> exists|path: Seq<char>| reads_at(found, "list_actions"@, path),
        index > 1 ==> exists|path: Seq<char>| reads_at(found, "list_contours"@, path),
        index > 2 ==> exists|path: Seq<char>| reads_at(found, "asset_snapshot_report"@, path),
        index > 3 ==> exists|path: Seq<char>| reads_at(found, "flow_report"@, path),
        index > 4 ==> exists|path: Seq<char>| reads_at(found, "returns_report"@, path),
        index > 5 ==> exists|path: Seq<char>| reads_at(found, "reconciliation"@, path),
        linked()[index] == if index == 0 {
            "list_actions"@
        } else if index == 1 {
            "list_contours"@
        } else if index == 2 {
            "asset_snapshot_report"@
        } else if index == 3 {
            "flow_report"@
        } else if index == 4 {
            "returns_report"@
        } else if index == 5 {
            "reconciliation"@
        } else {
            "health"@
        },
{
    assert(index > 0 ==> exists|path: Seq<char>| reads_at(found, linked()[0], path));
    assert(index > 1 ==> exists|path: Seq<char>| reads_at(found, linked()[1], path));
    assert(index > 2 ==> exists|path: Seq<char>| reads_at(found, linked()[2], path));
    assert(index > 3 ==> exists|path: Seq<char>| reads_at(found, linked()[3], path));
    assert(index > 4 ==> exists|path: Seq<char>| reads_at(found, linked()[4], path));
    assert(index > 5 ==> exists|path: Seq<char>| reads_at(found, linked()[5], path));
}

/// A failure says which identifier it is about, and whether that was missing or declared
/// twice.
pub proof fn law_a_link_failure_says_what_failed(operation_id: String)
    ensures
        link_failure_text((ApiCatalogError::MissingOperation { operation_id }))
            == "catalog link "@ + operation_id@
            + " resolves to no GET operation in the generated document"@,
        link_failure_text((ApiCatalogError::DuplicateOperationId { operation_id }))
            == "operation_id "@ + operation_id@ + " is declared on more than one GET operation"@,
{
}

/// Each link is titled with what it is, to a client that knows nothing.
pub proof fn law_each_link_is_titled_with_what_it_is()
    ensures
        QUEUE_TITLE@
            == "What this instance needs next, computed from its own state. Each item names the operation that closes it, the fields already decided, and the goals below it stands in the way of. Work this queue rather than reconstructing an order of setup."@,
        SCOPES_TITLE@
            == "The scopes a report is computed over, each with the owner's own name for it. Every goal below requires one of these ids: read the scope by name here, then call by id."@,
        CONTRACT_TITLE@
            == "The contract: every route, request, response and refusal this instance serves, generated from its handlers. Read it instead of asking which routes exist or what a refusal looks like."@,
        STATUS_TITLE@
            == "Whether the instance is answering, and the schema and projection versions it answers under."@,
{
}

} // verus!
