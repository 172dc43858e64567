//! Tokens, authentication and claiming.

use iaam_server::auth::{authenticate, bearer, hash_token, principal};
use iaam_server::auth::{ApiFailure, Event, Stage, Step, TokenUse};
use iaam_server::claim::{arm, ClaimCode, ClaimFailure, SoleOwner};
use iaam_server::claim::{CLAIM_BYTES, CLAIM_LIFETIME};
use iaam_server::dto::token::{BrokerAccessDto, BrokerEnvironmentDto};
use iaam_server::dto::token::{IssuedTokenDto, TokenDto, TokenScopeDto};
use iaam_server::ids::Uuid;
use iaam_server::ledger::goal::Scope;
use iaam_server::ledger::token::{BrokerAccessView, BrokerEnvironment, IssuedToken, TokenView};

#[test]
fn the_hash_is_stable_and_does_not_contain_the_token() {
    let hash = hash_token("secret");
    assert_eq!(hash, hash_token("secret"));
    assert_eq!(hash.len(), 64);
    assert!(!hash.contains("secret"));
    assert_ne!(hash, hash_token("secret "));
}

#[test]
fn different_tokens_hash_differently() {
    assert_ne!(hash_token("a"), hash_token("b"));
    assert_ne!(hash_token(""), hash_token(" "));
}

#[test]
fn the_hash_is_the_digest_in_lower_case_hexadecimal() {
    assert_eq!(
        hash_token("abc"),
        "ba7816bf8f01cfea414140de5dae2223b00361a396177a9cb410ff61f20015ad"
    );
    assert_eq!(
        hash_token(""),
        "e3b0c44298fc1c149afbf4c8996fb92427ae41e4649b934ca495991b7852b855"
    );
}

#[test]
fn a_bearer_token_is_what_follows_the_scheme() {
    assert_eq!(bearer(Some("Bearer abc")), Some("abc".to_owned()));
    assert_eq!(bearer(Some("Bearer  abc")), Some(" abc".to_owned()));
    assert_eq!(bearer(Some("Bearer ")), None);
    assert_eq!(bearer(Some("Bearer")), None);
    assert_eq!(bearer(Some("bearer abc")), None);
    assert_eq!(bearer(Some("Basic abcdef")), None);
    assert_eq!(bearer(Some("")), None);
    assert_eq!(bearer(None), None);
}

type Answer = Step<&'static str, &'static str>;

#[test]
fn a_known_token_passes_and_its_use_is_logged() {
    let first: Answer = authenticate(
        Stage::Presented,
        Event::Token(Some("abc".to_owned())),
        "/v1/actions",
    );
    let Step::Continue(limiting) = first else {
        panic!("the limiter is asked first");
    };
    assert_eq!(
        limiting,
        Stage::Limiting {
            hash: hash_token("abc")
        }
    );
    let second: Answer = authenticate(limiting, Event::Wait(None), "/v1/actions");
    let Step::Continue(looking) = second else {
        panic!("the store is asked next");
    };
    let third: Answer = authenticate(looking, Event::Found(Ok(Some("owner"))), "/v1/actions");
    assert_eq!(
        third,
        Step::Pass {
            principal: "owner",
            token_use: TokenUse {
                hash: hash_token("abc"),
                route: "/v1/actions".to_owned(),
                outcome: "accepted".to_owned(),
            },
        }
    );
}

fn rejected(token: &str, route: &str) -> Option<TokenUse> {
    Some(TokenUse {
        hash: hash_token(token),
        route: route.to_owned(),
        outcome: "rejected".to_owned(),
    })
}

#[test]
fn every_refusal_says_why() {
    let none: Answer = authenticate(Stage::Presented, Event::Token(None), "/v1");
    assert_eq!(
        none,
        Step::Refuse {
            failure: ApiFailure::Unauthorized,
            token_use: None,
        }
    );
    let looking = || Stage::Looking {
        hash: hash_token("abc"),
    };
    let unknown: Answer = authenticate(looking(), Event::Found(Ok(None)), "/v1");
    assert_eq!(
        unknown,
        Step::Refuse {
            failure: ApiFailure::InvalidToken,
            token_use: None,
        }
    );
    let broken: Answer = authenticate(looking(), Event::Found(Err("closed")), "/v1");
    assert_eq!(
        broken,
        Step::Refuse {
            failure: ApiFailure::Store("closed"),
            token_use: None,
        }
    );
}

#[test]
fn a_revoked_token_is_refused_and_its_use_is_logged() {
    let looking = Stage::Looking {
        hash: hash_token("abc"),
    };
    let revoked: Answer = authenticate(looking, Event::Revoked, "/v1/actions");
    assert_eq!(
        revoked,
        Step::Refuse {
            failure: ApiFailure::InvalidToken,
            token_use: rejected("abc", "/v1/actions"),
        }
    );
}

#[test]
fn a_token_that_comes_too_often_is_refused_and_its_use_is_logged() {
    let throttle = || {
        let limiting = Stage::Limiting {
            hash: hash_token("abc"),
        };
        let often: Answer = authenticate(limiting, Event::Wait(Some(17)), "/v1");
        let Step::Continue(throttled) = often else {
            panic!("the store is asked whose log the use belongs in");
        };
        throttled
    };
    assert_eq!(
        throttle(),
        Stage::Throttled {
            hash: hash_token("abc"),
            retry_after: 17,
        }
    );
    let refused = |token_use: Option<TokenUse>| Step::Refuse {
        failure: ApiFailure::TooManyRequests { retry_after: 17 },
        token_use,
    };
    let known: Answer = authenticate(throttle(), Event::Found(Ok(Some("owner"))), "/v1");
    assert_eq!(known, refused(rejected("abc", "/v1")));
    let revoked: Answer = authenticate(throttle(), Event::Revoked, "/v1");
    assert_eq!(revoked, refused(rejected("abc", "/v1")));
    let unknown: Answer = authenticate(throttle(), Event::Found(Ok(None)), "/v1");
    assert_eq!(unknown, refused(None));
    let broken: Answer = authenticate(throttle(), Event::Found(Err("closed")), "/v1");
    assert_eq!(broken, refused(None));
}

#[test]
fn a_handler_without_a_principal_refuses() {
    let known: Result<u8, ApiFailure<u8>> = principal(Some(7));
    assert_eq!(known, Ok(7));
    let unknown: Result<u8, ApiFailure<u8>> = principal(None);
    assert_eq!(unknown, Err(ApiFailure::Unauthorized));
}

#[test]
fn a_code_is_accepted_once_issued_and_nothing_else_is() {
    let (code, stored) = ClaimCode::issue(5).expect("code generated");
    assert!(stored.accepts(&code, 5));
    assert!(!stored.accepts(&format!("{code}0"), 5));
    assert!(!stored.accepts("", 5));
}

#[test]
fn the_code_itself_is_not_kept_in_memory() {
    let (code, stored) = ClaimCode::issue(0).expect("code generated");
    assert_ne!(stored.hash(), code);
    assert_eq!(stored.hash(), hash_token(&code));
}

#[test]
fn two_codes_never_coincide() {
    let (first, _) = ClaimCode::issue(0).expect("code generated");
    let (second, _) = ClaimCode::issue(0).expect("code generated");
    assert_ne!(first, second);
    assert_eq!(first.len(), CLAIM_BYTES * 2);
}

#[test]
fn a_code_expires_after_fifteen_minutes() {
    let (code, stored) = ClaimCode::of_secret(&vec![0x00, 0x7f, 0xff], 1_000);
    assert_eq!(code, "007fff");
    assert_eq!(CLAIM_LIFETIME, 900_000_000_000);
    assert!(stored.accepts(&code, 1_000 + CLAIM_LIFETIME - 1));
    assert!(!stored.accepts(&code, 1_000 + CLAIM_LIFETIME));
    assert!(!stored.accepts("007ffe", 1_000));
    // A clock that seems to have gone back has not moved.
    assert!(stored.accepts(&code, 0));
}

#[test]
fn a_code_is_issued_exactly_where_a_secret_was_drawn() {
    let (code, stored) = ClaimCode::of_draw(Some(vec![0x0a, 0xb1]), 7).expect("a secret was drawn");
    assert_eq!(code, "0ab1");
    assert_eq!(stored.hash(), hash_token("0ab1"));
    assert!(stored.accepts("0ab1", 7));
    assert!(matches!(
        ClaimCode::of_draw(None, 7),
        Err(ClaimFailure::NoRandomness)
    ));
}

#[test]
fn only_an_instance_without_an_owner_is_armed() {
    let armed = arm(SoleOwner::Nobody, 3).expect("code generated");
    let (code, stored) = armed.expect("nobody owns the instance");
    assert!(stored.accepts(&code, 3));
    let single = arm(SoleOwner::Single(Uuid::from_u128(1)), 3).expect("no code is needed");
    assert!(single.is_none());
    let several = arm(SoleOwner::Several, 3).expect("no code is needed");
    assert!(several.is_none());
}

#[test]
fn an_issued_token_never_reaches_the_debug_output() {
    const ISSUED: &str = "0123456789abcdef0123456789abcdef";
    let response = IssuedTokenDto {
        id: Uuid::from_u128(9),
        token: ISSUED.into(),
        label: "home agent".into(),
        scope: TokenScopeDto::Agent,
    };

    let printed = response.redacted();
    assert!(
        !printed.contains(ISSUED),
        "token leaked into debug output: {printed}"
    );
    assert!(
        printed.contains("home agent"),
        "the label is not secret and must remain visible: {printed}"
    );
    assert_eq!(
        printed,
        "IssuedTokenDto { id: 00000000-0000-0000-0000-000000000009, token: \"<redacted>\", \
         label: \"home agent\", scope: Agent }"
    );
}

#[test]
fn a_label_is_printed_as_a_text_is_for_debugging() {
    let label = "a\"b\\c\u{8}\n\u{7f}é";
    let response = IssuedTokenDto {
        id: Uuid::from_u128(9),
        token: "secret".into(),
        label: label.into(),
        scope: TokenScopeDto::Agent,
    };
    let printed = response.redacted();
    assert!(printed.contains(", label: \"a\\\"b\\\\c\\u{8}\\n\\u{7f}é\", scope: Agent }"));
    assert!(printed.contains(&format!("{label:?}")));
}

#[test]
fn tokens_and_accesses_are_shown_without_their_secrets() {
    let issued = IssuedTokenDto::from_domain(IssuedToken {
        id: Uuid::from_u128(1),
        token: "t".to_owned(),
        label: "l".to_owned(),
        scope: Scope::ReadOnly,
    });
    assert_eq!(issued.token, "t");
    assert_eq!(issued.scope, TokenScopeDto::ReadOnly);
    let token = TokenDto::from_domain(TokenView {
        id: Uuid::from_u128(1),
        label: "l".to_owned(),
        scope: Scope::Owner,
        created_at: "2026-01-01T00:00:00Z".to_owned(),
        revoked_at: None,
    });
    assert_eq!(token.scope, TokenScopeDto::Owner);
    assert_eq!(token.created_at, "2026-01-01T00:00:00Z");
    let access = BrokerAccessDto::from_domain(BrokerAccessView {
        id: Uuid::from_u128(2),
        broker: "b".to_owned(),
        environment: "prod".to_owned(),
        scope: "read".to_owned(),
        created_at: "c".to_owned(),
        revoked_at: Some("r".to_owned()),
    });
    assert_eq!(access.broker, "b");
    assert_eq!(access.revoked_at, Some("r".to_owned()));
    assert_eq!(
        BrokerEnvironmentDto::Sandbox.to_domain(),
        BrokerEnvironment::Sandbox
    );
}
