//! Claiming an instance that has no owner yet, with a code that is shown once.

use crate::auth::hash_token;
use crate::auth;
use crate::ids::Uuid;
use crate::outside::random_bytes;
use crate::outside;
use crate::text::{hex_text, same_text};
use crate::text;
use vstd::prelude::*;

verus! {

/// How long a claim code remains valid, in nanoseconds: fifteen minutes.
pub const CLAIM_LIFETIME: u64 = 15 * 60 * 1_000_000_000;

/// The number of random bytes in a code.
pub const CLAIM_BYTES: usize = 16;

/// An issued claim code. The hash is kept and the code is not. The time is that of a
/// clock that only goes forward, in nanoseconds, and not the time of day.
pub struct ClaimCode {
    hash: String,
    issued_at: u64,
}

/// Why no code could be issued.
#[derive(Debug, Clone, Copy, PartialEq, Eq, Structural)]
pub enum ClaimFailure {
    /// The system has no source of randomness.
    NoRandomness,
}

/// How many owners an instance has.
#[derive(Debug, Clone, Copy, PartialEq, Eq, Structural)]
pub enum SoleOwner {
    Nobody,
    Single(Uuid),
    Several,
}

impl ClaimCode {
    /// The hash that is kept.
    pub closed spec fn kept_hash(self) -> Seq<char> {
        self.hash@
    }

    /// When the code was issued.
    pub closed spec fn issued(self) -> u64 {
        self.issued_at
    }

    /// Whether this is what is kept of a code that was issued at a moment.
    pub open spec fn keeps(self, code: Seq<char>, now: u64) -> bool {
        &&& self.kept_hash() == auth::token_hash(code)
        &&& self.issued() == now
    }

    /// Whether the code is still valid. A clock that seems to have gone back has not
    /// moved.
    pub open spec fn is_fresh(self, now: u64) -> bool {
        now - self.issued() < CLAIM_LIFETIME
    }

    /// The code that is made of a secret, and what is kept of it.
    pub fn of_secret(secret: &Vec<u8>, now: u64) -> (issued: (String, Self))
        ensures
            issued.0@ == text::hex(secret@),
            issued.1.keeps(issued.0@, now),
    {
        let code = hex_text(secret);
        let stored = Self { hash: hash_token(code.as_str()), issued_at: now };
        (code, stored)
    }

    /// A fresh code, and what is kept of it. The code is kept nowhere.
    pub fn issue(now: u64) -> (issued: Result<(String, Self), ClaimFailure>)
        ensures
            match issued {
                Ok((code, stored)) => {
                    &&& stored.keeps(code@, now)
                    &&& exists|secret: Seq<u8>|
                        secret.len() == CLAIM_BYTES && code@ == #[trigger] text::hex(secret)
                },
                Err(failure) => failure == ClaimFailure::NoRandomness,
            },
    {
        Self::of_draw(random_bytes(CLAIM_BYTES), now)
    }

    /// The code that is made of what the source of randomness gave: a code where it
    /// gave a secret, and a failure exactly where it gave none.
    pub fn of_draw(draw: Option<Vec<u8>>, now: u64) -> (
        issued: Result<(String, Self), ClaimFailure>
    )
        ensures
            match (draw, issued) {
                (Some(secret), Ok((code, stored))) => {
                    &&& code@ == text::hex(secret@)
                    &&& stored.keeps(code@, now)
                },
                (None, Err(failure)) => failure == ClaimFailure::NoRandomness,
                _ => false,
            },
    {
        match draw {
            Some(secret) => Ok(Self::of_secret(&secret, now)),
            None => Err(ClaimFailure::NoRandomness),
        }
    }

    /// The hash that is kept.
    pub fn hash(&self) -> (hash: &str)
        ensures
            hash@ == self.kept_hash(),
    {
        self.hash.as_str()
    }

    /// Whether a submitted code is valid. A wrong code and an expired one are told
    /// alike.
    pub fn accepts(&self, code: &str, now: u64) -> (accepted: bool)
        ensures
            accepted == (self.is_fresh(now) && self.kept_hash() == auth::token_hash(code@)),
    {
        let elapsed: u64 = if now < self.issued_at {
            0
        } else {
            now - self.issued_at
        };
        elapsed < CLAIM_LIFETIME && same_text(self.hash.as_str(), hash_token(code).as_str())
    }
}

/// The code to show, and what is kept of it, where an instance has no owner; nothing
/// at all where it has one or several.
pub fn arm(owner: SoleOwner, now: u64) -> (armed: Result<Option<(String, ClaimCode)>, ClaimFailure>)
    ensures
        owner != SoleOwner::Nobody ==> armed == Ok::<Option<(String, ClaimCode)>, ClaimFailure>(
            None,
        ),
        owner == SoleOwner::Nobody ==> match armed {
            Ok(Some((code, stored))) => stored.keeps(code@, now) && code@.len() == 2 * CLAIM_BYTES,
            Ok(None) => false,
            Err(failure) => failure == ClaimFailure::NoRandomness,
        },
{
    match owner {
        SoleOwner::Nobody => match ClaimCode::issue(now) {
            Ok(issued) => Ok(Some(issued)),
            Err(failure) => Err(failure),
        },
        SoleOwner::Single(_) => Ok(None),
        SoleOwner::Several => Ok(None),
    }
}

/// An issued code is accepted for as long as it is fresh.
pub proof fn law_an_issued_code_is_accepted_until_it_expires(
    stored: ClaimCode,
    code: Seq<char>,
    issued: u64,
    now: u64,
)
    requires
        stored.keeps(code, issued),
    ensures
        stored.is_fresh(now) && stored.kept_hash() == auth::token_hash(code) <==> now
            < issued + CLAIM_LIFETIME,
{
}

/// Whatever else is accepted has the digest of the code that was issued.
pub proof fn law_nothing_else_is_accepted(
    stored: ClaimCode,
    code: Seq<char>,
    issued: u64,
    submitted: Seq<char>,
    now: u64,
)
    requires
        stored.keeps(code, issued),
        stored.is_fresh(now) && stored.kept_hash() == auth::token_hash(submitted),
    ensures
        outside::sha_256_digest(vstd::utf8::encode_utf8(submitted)) == outside::sha_256_digest(
            vstd::utf8::encode_utf8(code),
        ),
{
    text::lemma_hex_tells_the_bytes(
        outside::sha_256_digest(vstd::utf8::encode_utf8(submitted)),
        outside::sha_256_digest(vstd::utf8::encode_utf8(code)),
    );
}

/// A code is fresh for fifteen minutes from its issue, and not a nanosecond longer.
pub proof fn law_a_code_is_fresh_for_fifteen_minutes(stored: ClaimCode, now: u64)
    ensures
        stored.is_fresh(now) <==> now < stored.issued() + 900_000_000_000,
{
}

/// What is kept of a code is the hash of it and the moment of its issue.
pub proof fn law_only_the_hash_is_kept(stored: ClaimCode, code: Seq<char>, now: u64)
    ensures
        stored.keeps(code, now) <==> stored.kept_hash() == auth::token_hash(code)
            && stored.issued() == now,
{
}

/// A code is thirty-two hexadecimal digits long.
pub proof fn law_a_code_is_thirty_two_digits_long(secret: Seq<u8>)
    requires
        secret.len() == CLAIM_BYTES,
    ensures
        text::hex(secret).len() == 32,
{
}

} // verus!
