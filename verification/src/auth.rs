//! Authentication: who presents a request, and whether it may pass.
//! A token is never kept or looked up as such, only its hash.

use crate::outside::sha_256;
use crate::outside;
use crate::relate;
use crate::text::{hex_text, same_text};
use crate::text;
use vstd::prelude::*;

verus! {

/// The hash of a token, as characters: the SHA-256 digest of its bytes in
/// hexadecimal digits.
pub open spec fn token_hash(token: Seq<char>) -> Seq<char> {
    text::hex(outside::sha_256_digest(vstd::utf8::encode_utf8(token)))
}

/// The hash of a token.
pub fn hash_token(token: &str) -> (hash: String)
    ensures
        hash@ == token_hash(token@),
        hash@.len() == 64,
{
    hex_text(&sha_256(token.as_bytes()))
}

/// The token in the value of an authorisation header: what follows the scheme, where
/// there is anything.
pub open spec fn token_in(value: Seq<char>) -> Option<Seq<char>> {
    if "Bearer "@.is_prefix_of(value) && value.len() > "Bearer "@.len() {
        Some(value.skip("Bearer "@.len() as int))
    } else {
        None
    }
}

/// The token in the value of an authorisation header, where there is a header.
pub fn bearer(header: Option<&str>) -> (token: Option<String>)
    ensures
        relate::says(
            token,
            match header {
                Some(value) => token_in(value@),
                None => None,
            },
        ),
{
    let value: &str = match header {
        Some(value) => value,
        None => {
            return None;
        },
    };
    proof {
        reveal_strlit("Bearer ");
    }
    let length: usize = value.unicode_len();
    if length <= 7 {
        return None;
    }
    let scheme = value.substring_char(0, 7);
    if !same_text(scheme, "Bearer ") {
        assert("Bearer "@.is_prefix_of(value@) ==> scheme@ =~= "Bearer "@);
        return None;
    }
    assert("Bearer "@.is_prefix_of(value@));
    let token = value.substring_char(7, length);
    assert(token@ =~= value@.skip(7));
    Some(token.to_owned())
}

/// Why a request may not pass. A store fails with a reason of its own.
#[derive(Debug, PartialEq, Eq)]
pub enum ApiFailure<E> {
    /// No token was presented.
    Unauthorized,
    /// The token was presented too often; it may be presented again after so many
    /// seconds.
    TooManyRequests { retry_after: u64 },
    /// No one is known by the token.
    InvalidToken,
    /// The store could not be asked.
    Store(E),
}

/// A use of a token that is to be written to its log.
#[derive(Debug, PartialEq, Eq)]
pub struct TokenUse {
    pub hash: String,
    pub route: String,
    pub outcome: String,
}

impl TokenUse {
    /// Whether this is the use of a hash on a route that was let pass.
    pub open spec fn accepts(self, hash: Seq<char>, route: Seq<char>) -> bool {
        &&& self.hash@ == hash
        &&& self.route@ == route
        &&& self.outcome@ == "accepted"@
    }

    /// Whether this is the use of a hash on a route that was refused.
    pub open spec fn rejects(self, hash: Seq<char>, route: Seq<char>) -> bool {
        &&& self.hash@ == hash
        &&& self.route@ == route
        &&& self.outcome@ == "rejected"@
    }

    /// The use of a hash on a route that was let pass.
    fn accepted(hash: String, route: &str) -> (token_use: Self)
        ensures
            token_use.accepts(hash@, route@),
    {
        Self { hash, route: route.to_owned(), outcome: "accepted".to_owned() }
    }

    /// The use of a hash on a route that was refused.
    fn rejected(hash: String, route: &str) -> (token_use: Self)
        ensures
            token_use.rejects(hash@, route@),
    {
        Self { hash, route: route.to_owned(), outcome: "rejected".to_owned() }
    }
}

/// How far the authentication of a request has come.
#[derive(Debug, PartialEq, Eq)]
pub enum Stage {
    /// Nothing is known of the request yet.
    Presented,
    /// The limiter is asked about the hash.
    Limiting { hash: String },
    /// The store is asked whose log the use of a token that came too often belongs
    /// in. Whatever it answers, the request waits.
    Throttled { hash: String, retry_after: u64 },
    /// The store is asked who is known by the hash.
    Looking { hash: String },
}

/// What became known of the request.
#[derive(Debug, PartialEq, Eq)]
pub enum Event<P, E> {
    /// The token it carries.
    Token(Option<String>),
    /// How long the limiter makes it wait.
    Wait(Option<u64>),
    /// Who is known by the hash.
    Found(Result<Option<P>, E>),
    /// The token of the hash was issued and has been revoked.
    Revoked,
}

/// What is to be done next.
#[derive(Debug, PartialEq, Eq)]
pub enum Step<P, E> {
    /// Ask, and come back with what became known.
    Continue(Stage),
    /// Write the use to the log of the token, and let the request pass whether or
    /// not that succeeds.
    Pass { principal: P, token_use: TokenUse },
    /// Write the use, where there is one, to the log of the token, and refuse the
    /// request whether or not that succeeds.
    Refuse { failure: ApiFailure<E>, token_use: Option<TokenUse> },
}

/// Whether an event answers what a stage asks.
pub open spec fn answers<P, E>(event: Event<P, E>, stage: Stage) -> bool {
    match stage {
        Stage::Presented => event is Token,
        Stage::Limiting { hash } => event is Wait,
        Stage::Throttled { hash, retry_after } => event is Found || event is Revoked,
        Stage::Looking { hash } => event is Found || event is Revoked,
    }
}

/// Whether a step refuses a request and writes nothing to a log.
pub open spec fn refuses<P, E>(step: Step<P, E>, failure: ApiFailure<E>) -> bool {
    step == (Step::<P, E>::Refuse { failure, token_use: None })
}

/// Whether a step refuses a request and writes the refused use to the log of its
/// token.
pub open spec fn refuses_and_logs<P, E>(
    step: Step<P, E>,
    failure: ApiFailure<E>,
    hash: Seq<char>,
    route: Seq<char>,
) -> bool {
    step matches Step::Refuse { failure: why, token_use: Some(token_use) } && why == failure
        && token_use.rejects(hash, route)
}

/// What follows an event. A request without a token is refused before anything is
/// asked. One that comes too often is refused whatever the store answers. Every use
/// of a token that was issued is written to its log, a refused one too; what no token
/// was issued for has no log, and a store that fails names none.
pub open spec fn follows<P, E>(
    step: Step<P, E>,
    stage: Stage,
    event: Event<P, E>,
    route: Seq<char>,
) -> bool {
    match (stage, event) {
        (Stage::Presented, Event::Token(None)) => refuses(step, ApiFailure::Unauthorized),
        (Stage::Presented, Event::Token(Some(token))) => step matches Step::Continue(
            Stage::Limiting { hash },
        ) && hash@ == token_hash(token@),
        (
            Stage::Limiting { hash },
            Event::Wait(Some(retry_after)),
        ) => step == Step::<P, E>::Continue(
            (Stage::Throttled { hash, retry_after }),
        ),
        (Stage::Limiting { hash }, Event::Wait(None)) => step == Step::<P, E>::Continue(
            (Stage::Looking { hash }),
        ),
        (Stage::Throttled { hash, retry_after }, Event::Found(Ok(Some(known)))) => refuses_and_logs(
            step,
            (ApiFailure::TooManyRequests { retry_after }),
            hash@,
            route,
        ),
        (Stage::Throttled { hash, retry_after }, Event::Revoked) => refuses_and_logs(
            step,
            (ApiFailure::TooManyRequests { retry_after }),
            hash@,
            route,
        ),
        (Stage::Throttled { hash, retry_after }, Event::Found(_)) => refuses(
            step,
            (ApiFailure::TooManyRequests { retry_after }),
        ),
        (Stage::Looking { hash }, Event::Found(Err(failure))) => refuses(
            step,
            ApiFailure::Store(failure),
        ),
        (Stage::Looking { hash }, Event::Found(Ok(None))) => refuses(
            step,
            ApiFailure::InvalidToken,
        ),
        (Stage::Looking { hash }, Event::Revoked) => refuses_and_logs(
            step,
            ApiFailure::InvalidToken,
            hash@,
            route,
        ),
        (Stage::Looking { hash }, Event::Found(Ok(Some(known)))) => step matches Step::Pass {
            principal,
            token_use,
        } && principal == known && token_use.accepts(hash@, route),
        _ => false,
    }
}

/// The next step of the authentication of a request on a route.
pub fn authenticate<P, E>(stage: Stage, event: Event<P, E>, route: &str) -> (step: Step<P, E>)
    requires
        answers(event, stage),
    ensures
        follows(step, stage, event, route@),
{
    match (stage, event) {
        (Stage::Presented, Event::Token(Some(token))) => Step::Continue(
            Stage::Limiting { hash: hash_token(token.as_str()) },
        ),
        (Stage::Limiting { hash }, Event::Wait(Some(retry_after))) => Step::Continue(
            Stage::Throttled { hash, retry_after },
        ),
        (Stage::Limiting { hash }, Event::Wait(None)) => Step::Continue(Stage::Looking { hash }),
        (Stage::Throttled { hash, retry_after }, event) => Step::Refuse {
            failure: ApiFailure::TooManyRequests { retry_after },
            token_use: match event {
                Event::Found(Ok(Some(_))) => Some(TokenUse::rejected(hash, route)),
                Event::Revoked => Some(TokenUse::rejected(hash, route)),
                _ => None,
            },
        },
        (Stage::Looking { hash }, Event::Found(Err(failure))) => Step::Refuse {
            failure: ApiFailure::Store(failure),
            token_use: None,
        },
        (Stage::Looking { hash }, Event::Found(Ok(None))) => Step::Refuse {
            failure: ApiFailure::InvalidToken,
            token_use: None,
        },
        (Stage::Looking { hash }, Event::Revoked) => Step::Refuse {
            failure: ApiFailure::InvalidToken,
            token_use: Some(TokenUse::rejected(hash, route)),
        },
        (Stage::Looking { hash }, Event::Found(Ok(Some(principal)))) => Step::Pass {
            principal,
            token_use: TokenUse::accepted(hash, route),
        },
        _ => Step::Refuse { failure: ApiFailure::Unauthorized, token_use: None },
    }
}

/// Who was recognised, for a handler; a request that no one was recognised in is
/// refused.
pub fn principal<P, E>(recognised: Option<P>) -> (principal: Result<P, ApiFailure<E>>)
    ensures
        match recognised {
            Some(known) => principal == Ok::<P, ApiFailure<E>>(known),
            None => principal == Err::<P, ApiFailure<E>>(ApiFailure::Unauthorized),
        },
{
    match recognised {
        Some(known) => Ok(known),
        None => Err(ApiFailure::Unauthorized),
    }
}

/// A request passes exactly where someone is known by its token's hash and the limiter
/// lets it, and then that use is logged under the hash the limiter was asked about.
pub proof fn law_only_a_known_token_passes<P, E>(
    token: Option<String>,
    wait: Option<u64>,
    event: Event<P, E>,
    route: Seq<char>,
    asked: Step<P, E>,
    limited: Step<P, E>,
    answered: Step<P, E>,
    limiting: Stage,
    looking: Stage,
)
    requires
        follows(asked, Stage::Presented, Event::<P, E>::Token(token), route),
        asked == Step::<P, E>::Continue(limiting),
        follows(limited, limiting, Event::<P, E>::Wait(wait), route),
        limited == Step::<P, E>::Continue(looking),
        follows(answered, looking, event, route),
    ensures
        token is Some,
        answered is Pass <==> wait is None && (event matches Event::Found(Ok(known)) && known
            is Some),
        answered matches Step::Pass { principal, token_use } ==> token_use.accepts(
            token_hash(token->0@),
            route,
        ) && event == Event::<P, E>::Found(Ok(Some(principal))),
{
}

/// A request that carries no token is refused at once, and nothing is asked or logged
/// for it.
pub proof fn law_nothing_is_asked_without_a_token<P, E>(route: Seq<char>, step: Step<P, E>)
    requires
        follows(step, Stage::Presented, Event::<P, E>::Token(None), route),
    ensures
        refuses(step, ApiFailure::Unauthorized),
{
}

/// Whether an answer of the store names a token that was issued.
pub open spec fn names_a_token<P, E>(event: Event<P, E>) -> bool {
    match event {
        Event::Found(Ok(known)) => known is Some,
        Event::Revoked => true,
        _ => false,
    }
}

/// A token that comes too often is refused with the wait the limiter gave, whatever
/// the store answers. Where the token was issued, the refused use is logged under its
/// hash and the route of the request; where it was not, nothing is.
pub proof fn law_a_throttled_use_is_refused_and_logged<P, E>(
    token: Option<String>,
    retry_after: u64,
    event: Event<P, E>,
    route: Seq<char>,
    asked: Step<P, E>,
    limited: Step<P, E>,
    answered: Step<P, E>,
    limiting: Stage,
    throttled: Stage,
)
    requires
        follows(asked, Stage::Presented, Event::<P, E>::Token(token), route),
        asked == Step::<P, E>::Continue(limiting),
        follows(limited, limiting, Event::<P, E>::Wait(Some(retry_after)), route),
        limited == Step::<P, E>::Continue(throttled),
        follows(answered, throttled, event, route),
    ensures
        token is Some,
        names_a_token(event) ==> refuses_and_logs(
            answered,
            (ApiFailure::TooManyRequests { retry_after }),
            token_hash(token->0@),
            route,
        ),
        !names_a_token(event) ==> refuses(answered, (ApiFailure::TooManyRequests { retry_after })),
{
}

/// The use that a step writes to a log.
pub open spec fn logged_use<P, E>(step: Step<P, E>) -> Option<TokenUse> {
    match step {
        Step::Continue(stage) => None,
        Step::Pass { principal, token_use } => Some(token_use),
        Step::Refuse { failure, token_use } => token_use,
    }
}

/// Once the store has answered, the use is logged exactly where a token was issued:
/// as accepted where the request passes, and as rejected where it is refused.
pub proof fn law_every_use_of_an_issued_token_is_logged<P, E>(
    hash: String,
    stage: Stage,
    event: Event<P, E>,
    route: Seq<char>,
    step: Step<P, E>,
)
    requires
        match stage {
            Stage::Throttled { hash: asked, retry_after } => asked == hash,
            Stage::Looking { hash: asked } => asked == hash,
            _ => false,
        },
        follows(step, stage, event, route),
    ensures
        logged_use(step) is Some <==> names_a_token(event),
        logged_use(step) matches Some(token_use) ==> if step is Pass {
            token_use.accepts(hash@, route)
        } else {
            step is Refuse && token_use.rejects(hash@, route)
        },
{
}

/// The token of a header is what stands behind the scheme, where anything does: a header
/// is its scheme and its token and nothing else.
pub proof fn law_a_header_is_its_scheme_and_its_token(value: Seq<char>, token: Seq<char>)
    ensures
        token_in(value) == Some(token) <==> value == "Bearer "@ + token && token.len() > 0,
{
    reveal_strlit("Bearer ");
    if token_in(value) == Some(token) {
        assert(value =~= "Bearer "@ + token);
    }
    if value == "Bearer "@ + token && token.len() > 0 {
        assert("Bearer "@.is_prefix_of(value));
        assert(value.skip(7) =~= token);
    }
}

/// The hash of a token is the digest of its bytes in hexadecimal digits.
pub proof fn law_a_hash_is_the_digest_in_hexadecimal(token: Seq<char>, place: int)
    requires
        0 <= place < outside::sha_256_digest(vstd::utf8::encode_utf8(token)).len(),
    ensures
        token_hash(token).len() == 2 * outside::sha_256_digest(
            vstd::utf8::encode_utf8(token),
        ).len(),
        token_hash(token)[2 * place] == "0123456789abcdef"@[outside::sha_256_digest(
            vstd::utf8::encode_utf8(token),
        )[place] as int / 16],
        token_hash(token)[2 * place + 1] == "0123456789abcdef"@[outside::sha_256_digest(
            vstd::utf8::encode_utf8(token),
        )[place] as int % 16],
{
    text::law_a_byte_is_two_hexadecimal_digits(
        outside::sha_256_digest(vstd::utf8::encode_utf8(token)),
        place,
    );
}

/// A logged use states the hash, the route and how the request came out.
pub proof fn law_a_use_states_hash_route_and_outcome(
    token_use: TokenUse,
    hash: Seq<char>,
    route: Seq<char>,
)
    ensures
        token_use.accepts(hash, route) <==> token_use.hash@ == hash && token_use.route@ == route
            && token_use.outcome@ == "accepted"@,
        token_use.rejects(hash, route) <==> token_use.hash@ == hash && token_use.route@ == route
            && token_use.outcome@ == "rejected"@,
{
}

/// A request is refused for what became known of it: without a token as unauthorised; with
/// a token that is unknown or revoked as invalid; where the store fails, with its failure;
/// and one that the limiter holds back, with the limiter's wait, whatever else is known.
pub proof fn law_a_refusal_says_what_became_known<P, E>(
    hash: String,
    retry_after: u64,
    failure: E,
    answer: Event<P, E>,
    route: Seq<char>,
    step: Step<P, E>,
)
    ensures
        follows(step, Stage::Presented, Event::<P, E>::Token(None), route) ==> step == (Step::<
            P,
            E,
        >::Refuse { failure: ApiFailure::Unauthorized, token_use: None }),
        follows(
            step,
            (Stage::Looking { hash }),
            Event::<P, E>::Found(Ok(None)),
            route,
        ) ==> step == (Step::<P, E>::Refuse {
            failure: ApiFailure::InvalidToken,
            token_use: None,
        }),
        follows(step, (Stage::Looking { hash }), Event::<P, E>::Found(Err(failure)), route)
            ==> step == (Step::<P, E>::Refuse {
            failure: ApiFailure::Store(failure),
            token_use: None,
        }),
        follows(step, (Stage::Looking { hash }), Event::<P, E>::Revoked, route) ==> (
        step matches Step::Refuse { failure: why, token_use: Some(token_use) } && why
            == ApiFailure::<E>::InvalidToken && token_use.hash@ == hash@ && token_use.route@
            == route && token_use.outcome@ == "rejected"@),
        follows(step, (Stage::Throttled { hash, retry_after }), answer, route) ==> (
        step matches Step::Refuse { failure: why, token_use } && why
            == ApiFailure::<E>::TooManyRequests { retry_after }),
{
}

/// What is asked next: the limiter about the hash of the token, then the store about the
/// same hash.
pub proof fn law_one_hash_is_asked_about<P, E>(
    token: String,
    hash: String,
    wait: Option<u64>,
    route: Seq<char>,
    step: Step<P, E>,
)
    ensures
        follows(step, Stage::Presented, Event::<P, E>::Token(Some(token)), route) ==> (
        step matches Step::Continue(Stage::Limiting { hash: asked }) && asked@ == token_hash(
            token@,
        )),
        follows(step, (Stage::Limiting { hash }), Event::<P, E>::Wait(None), route) ==> step
            == Step::<P, E>::Continue((Stage::Looking { hash })),
        wait matches Some(retry_after) ==> (follows(
            step,
            (Stage::Limiting { hash }),
            Event::<P, E>::Wait(wait),
            route,
        ) ==> step == Step::<P, E>::Continue((Stage::Throttled { hash, retry_after }))),
{
}

} // verus!
