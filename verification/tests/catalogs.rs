//! The action catalog and the discovery document.

use iaam_server::action_catalog::{action_failure, ActionCatalog, ActionCatalogError};
use iaam_server::api_catalog::{get_operations, link, link_failure};
use iaam_server::api_catalog::{answering_operation, ApiCatalog, ApiCatalogError, GoalLines};
use iaam_server::dto::action::{is_not_set, OwnerQuestionDto, ReportStandingDto};
use iaam_server::dto::report::{ClosingOperationDto, ConfidenceDto};
use iaam_server::ids::{AccountId, InstrumentId, Uuid};
use iaam_server::ledger::action::{OwnerQuestion, ReportStanding};
use iaam_server::ledger::goal::{OperationKey, ReportGoal, Scope};
use iaam_server::ledger::report::{Caveat, CaveatSubject, ReportConfidence};
use iaam_server::money::CurrencyCode;
use iaam_server::openapi::{request_schema, ApiDocument, ApiOperation, ApiPath};
use iaam_server::openapi::{BodySchema, MediaContent};

fn operation(id: &str) -> Option<ApiOperation> {
    Some(ApiOperation {
        operation_id: Some(id.to_owned()),
        request_body: None,
    })
}

fn path(path: &str) -> ApiPath {
    ApiPath {
        path: path.to_owned(),
        get: None,
        put: None,
        post: None,
        delete: None,
        options: None,
        head: None,
        patch: None,
        trace: None,
    }
}

fn reading(at: &str, id: &str) -> ApiPath {
    ApiPath {
        get: operation(id),
        ..path(at)
    }
}

fn paths() -> Vec<ApiPath> {
    vec![
        ApiPath {
            get: operation("list_actions"),
            post: Some(ApiOperation {
                operation_id: Some("submit".to_owned()),
                request_body: Some(vec![
                    MediaContent {
                        media_type: "text/plain".to_owned(),
                        schema: Some(BodySchema::Inline),
                    },
                    MediaContent {
                        media_type: "application/json".to_owned(),
                        schema: Some(BodySchema::Reference("#/x/Submit".to_owned())),
                    },
                ]),
            }),
            ..path("/v1/actions")
        },
        reading("/v1/contours", "list_contours"),
        reading("/v1/reports/assets", "asset_snapshot_report"),
        reading("/v1/reports/flow", "flow_report"),
        reading("/v1/reports/returns", "returns_report"),
        reading("/v1/reconciliation", "reconciliation"),
        reading("/v1/health", "health"),
    ]
}

fn keys() -> Vec<OperationKey> {
    vec![OperationKey {
        operation_id: "submit".to_owned(),
        required_scope: Scope::Agent,
    }]
}

fn lines() -> GoalLines {
    GoalLines {
        asset_snapshot: "assets".to_owned(),
        money_flow: "a \"flow\"".to_owned(),
        returns_report: "returns".to_owned(),
        reconciliation: "agreement".to_owned(),
    }
}

fn api() -> ApiDocument {
    ApiDocument { paths: paths() }
}

#[test]
fn a_catalog_resolves_actions_and_answers() {
    let catalog = ActionCatalog::from_openapi(&api(), &keys()).expect("a whole contract");
    let submit = catalog.operation("submit");
    assert_eq!(submit.method, "POST");
    assert_eq!(submit.path, "/v1/actions");
    assert_eq!(submit.request_schema.as_deref(), Some("#/x/Submit"));
    assert_eq!(submit.required_scope, Scope::Agent);
    let answer = catalog.answering(ReportGoal::Returns);
    assert_eq!(answer.operation_id, "returns_report");
    assert_eq!(answer.method, "GET");
    assert_eq!(answer.path, "/v1/reports/returns");
}

#[test]
fn every_call_carries_its_own_address_schema_and_scope() {
    let mut contract = paths();
    contract.push(ApiPath {
        post: operation("abandon"),
        ..path("/v1/sessions/abandon")
    });
    let key = |operation_id: &str, required_scope: Scope| OperationKey {
        operation_id: operation_id.to_owned(),
        required_scope,
    };
    let keys = vec![
        key("abandon", Scope::Owner),
        key("submit", Scope::Agent),
        key("health", Scope::ReadOnly),
    ];
    let catalog = ActionCatalog::from_openapi(&ApiDocument { paths: contract }, &keys)
        .expect("a whole contract");
    let calls = [
        ("abandon", "POST", "/v1/sessions/abandon", None, Scope::Owner),
        ("submit", "POST", "/v1/actions", Some("#/x/Submit"), Scope::Agent),
        ("health", "GET", "/v1/health", None, Scope::ReadOnly),
    ];
    for (operation_id, method, address, schema, scope) in calls {
        let call = catalog.operation(operation_id);
        assert_eq!(call.operation_id, operation_id);
        assert_eq!(call.method, method);
        assert_eq!(call.path, address);
        assert_eq!(call.request_schema.as_deref(), schema);
        assert_eq!(call.required_scope, scope);
    }
}

#[test]
fn every_defect_of_a_contract_is_named() {
    let mut without_id = paths();
    without_id[1].get = Some(ApiOperation {
        operation_id: None,
        request_body: None,
    });
    let missing = ActionCatalog::from_openapi(&ApiDocument { paths: without_id }, &keys())
        .expect_err("an operation without an identifier");
    assert_eq!(
        action_failure(&missing),
        "operation GET /v1/contours has no operation_id"
    );

    let mut twice = paths();
    twice.push(reading("/v1/again", "health"));
    let duplicate = ActionCatalog::from_openapi(&ApiDocument { paths: twice }, &keys())
        .expect_err("an identifier declared twice");
    assert_eq!(
        duplicate,
        ActionCatalogError::DuplicateOperationId {
            operation_id: "health".to_owned()
        }
    );
    assert_eq!(
        action_failure(&duplicate),
        "operation_id health is declared more than once"
    );

    let unknown = vec![OperationKey {
        operation_id: "nothing".to_owned(),
        required_scope: Scope::Owner,
    }];
    let unresolved =
        ActionCatalog::from_openapi(&api(), &unknown).expect_err("an action nobody serves");
    assert_eq!(
        action_failure(&unresolved),
        "action operation nothing does not resolve to an OpenAPI operation"
    );

    let mut unanswered = paths();
    unanswered.remove(3);
    let unread = ActionCatalog::from_openapi(&ApiDocument { paths: unanswered }, &keys())
        .expect_err("a goal nothing answers");
    assert_eq!(
        action_failure(&unread),
        "report answer flow_report does not resolve to an OpenAPI GET operation"
    );
}

#[test]
fn an_answer_must_be_a_read() {
    let mut written = paths();
    written[3].get = None;
    written[3].post = operation("flow_report");
    let refused = ActionCatalog::from_openapi(&ApiDocument { paths: written }, &keys())
        .expect_err("a report that is written");
    assert_eq!(
        refused,
        ActionCatalogError::MissingAnswerOperation {
            operation_id: "flow_report".to_owned()
        }
    );
}

#[test]
fn a_request_schema_is_the_reference_of_the_json_body() {
    let referenced = paths()[0].post.clone().expect("a posting");
    assert_eq!(request_schema(&referenced).as_deref(), Some("#/x/Submit"));
    let bare = operation("x").expect("an operation");
    assert_eq!(request_schema(&bare), None);
    let inline = ApiOperation {
        operation_id: None,
        request_body: Some(vec![MediaContent {
            media_type: "application/json".to_owned(),
            schema: Some(BodySchema::Inline),
        }]),
    };
    assert_eq!(request_schema(&inline), None);
}

#[test]
fn the_discovery_document_links_every_goal() {
    let catalog = ApiCatalog::from_openapi(&api(), &lines()).expect("a whole contract");
    let body = String::from_utf8(catalog.body()).expect("a text");
    let json: serde_json::Value = serde_json::from_str(&body).expect("a JSON document");
    let set = &json["linkset"][0];
    assert_eq!(set["anchor"], "/v1");
    assert_eq!(set["related"].as_array().map(|links| links.len()), Some(6));
    assert_eq!(set["related"][0]["href"], "/v1/actions");
    assert_eq!(set["related"][1]["href"], "/v1/contours");
    assert_eq!(set["related"][2]["goal"], "asset_snapshot");
    assert_eq!(set["related"][3]["href"], "/v1/reports/flow");
    assert_eq!(set["related"][3]["title"], "a \"flow\"");
    assert_eq!(set["related"][3]["type"], "application/json");
    assert_eq!(set["service-desc"][0]["href"], "/v1/openapi.json");
    assert_eq!(set["status"][0]["href"], "/v1/health");
    assert!(body.starts_with("{\"linkset\":[{\"anchor\":\"/v1\",\"related\":["));
}

#[test]
fn a_dead_link_fails_the_discovery_document() {
    let mut dead = paths();
    dead.remove(6);
    let missing = ApiCatalog::from_openapi(&ApiDocument { paths: dead }, &lines())
        .expect_err("a link that is dead");
    assert_eq!(
        link_failure(&missing),
        "catalog link health resolves to no GET operation in the generated document"
    );
    let mut twice = paths();
    twice.push(reading("/v1/again", "health"));
    let duplicate = ApiCatalog::from_openapi(&ApiDocument { paths: twice }, &lines())
        .expect_err("a link with two ends");
    assert_eq!(
        link_failure(&duplicate),
        "operation_id health is declared on more than one GET operation"
    );
    assert_eq!(
        duplicate,
        ApiCatalogError::DuplicateOperationId {
            operation_id: "health".to_owned()
        }
    );
}

#[test]
fn only_reads_are_indexed() {
    let found = get_operations(&api()).expect("no read is declared twice");
    let ids: Vec<&str> = found
        .iter()
        .map(|entry| entry.operation_id.as_str())
        .collect();
    assert!(ids.contains(&"health"));
    assert!(!ids.contains(&"submit"));
    assert_eq!(ids.len(), 7);
}

#[test]
fn a_link_is_a_json_object() {
    assert_eq!(
        link("/x", "a \"b\"", Some("g")),
        "{\"goal\":\"g\",\"href\":\"/x\",\"title\":\"a \\\"b\\\"\",\"type\":\"application/json\"}"
    );
    assert_eq!(
        link("/x", "t", None),
        "{\"href\":\"/x\",\"title\":\"t\",\"type\":\"application/json\"}"
    );
    assert_eq!(answering_operation(ReportGoal::MoneyFlow), "flow_report");
}

#[test]
fn a_title_is_escaped_as_json_asks() {
    assert_eq!(
        link("/x", "a\\b\n\t\r\u{8}\u{c}\u{1}\u{1f}\u{7f}/é", None),
        "{\"href\":\"/x\",\"title\":\"a\\\\b\\n\\t\\r\\b\\f\\u0001\\u001f\u{7f}/é\",\
         \"type\":\"application/json\"}"
    );
}

#[test]
fn a_caveat_names_the_operations_that_close_it() {
    let catalog = ActionCatalog::from_openapi(&api(), &keys()).expect("a whole contract");
    let confidence = ReportConfidence {
        goal: ReportGoal::MoneyFlow,
        caveats: vec![
            Caveat {
                kind: "gap".to_owned(),
                subject: CaveatSubject::AccountCurrency {
                    account: AccountId(Uuid::from_u128(1)),
                    currency: CurrencyCode::Eur,
                },
                detail: "d".to_owned(),
                see: "s".to_owned(),
                closed_by: vec!["submit".to_owned()],
            },
            Caveat {
                kind: "gap".to_owned(),
                subject: CaveatSubject::Instrument(InstrumentId(Uuid::from_u128(2))),
                detail: "d".to_owned(),
                see: "s".to_owned(),
                closed_by: Vec::new(),
            },
        ],
    };
    let dto = ConfidenceDto::from_domain(&confidence, &catalog);
    assert_eq!(dto.goal, "money_flow");
    assert!(!dto.complete);
    assert_eq!(
        dto.caveats[0].closed_by,
        vec![ClosingOperationDto {
            operation_id: "submit".to_owned(),
            method: "POST".to_owned(),
            path: "/v1/actions".to_owned(),
            request_schema: Some("#/x/Submit".to_owned()),
            required_scope: "agent".to_owned(),
        }]
    );
    let whole = ConfidenceDto::from_domain(
        &ReportConfidence {
            goal: ReportGoal::Returns,
            caveats: Vec::new(),
        },
        &catalog,
    );
    assert!(whole.complete);
}

#[test]
fn standings_and_questions_are_copied() {
    let standing = ReportStandingDto::from_domain(&ReportStanding {
        goal: ReportGoal::Reconciliation,
        answers: "whether it agrees".to_owned(),
        blocked_by: vec!["a".to_owned(), "b".to_owned()],
    });
    assert_eq!(standing.goal, "reconciliation");
    assert_eq!(standing.answers, "whether it agrees");
    assert_eq!(standing.blocked_by, vec!["a".to_owned(), "b".to_owned()]);
    let question = OwnerQuestionDto::from_domain(&OwnerQuestion {
        ask: "which?".to_owned(),
        consequence: "then".to_owned(),
    });
    assert_eq!(question.ask, "which?");
    assert_eq!(question.consequence, "then");
    assert!(is_not_set(&false));
    assert!(!is_not_set(&true));
}
