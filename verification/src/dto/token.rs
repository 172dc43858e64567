//! Broker accesses and access tokens on the wire.

use crate::ids::Uuid;
use crate::ledger::goal::Scope;
use crate::ledger::token::{BrokerAccessView, BrokerEnvironment, IssuedToken, TokenView};
use crate::outside::debug_text;
use crate::outside;
use vstd::prelude::*;

verus! {

/// The broker environment an access belongs to.
#[derive(Debug, Clone, Copy, PartialEq, Eq, Structural)]
pub enum BrokerEnvironmentDto {
    /// The live environment.
    Prod,
    /// The test environment.
    Sandbox,
}

impl BrokerEnvironmentDto {
    /// The value of the ledger it stands for.
    pub open spec fn denotes(self) -> BrokerEnvironment {
        match self {
            Self::Prod => BrokerEnvironment::Prod,
            Self::Sandbox => BrokerEnvironment::Sandbox,
        }
    }

    /// The value of the ledger it stands for.
    pub fn to_domain(self) -> (environment: BrokerEnvironment)
        ensures
            environment == self.denotes(),
    {
        match self {
            Self::Prod => BrokerEnvironment::Prod,
            Self::Sandbox => BrokerEnvironment::Sandbox,
        }
    }
}

/// A broker access, without its secret.
#[derive(Debug, Clone, PartialEq, Eq)]
pub struct BrokerAccessDto {
    pub id: Uuid,
    pub broker: String,
    pub environment: String,
    pub scope: String,
    pub created_at: String,
    pub revoked_at: Option<String>,
}

impl BrokerAccessDto {
    /// What the wire form says of the record it was rendered from.
    pub open spec fn shows(self, access: BrokerAccessView) -> bool {
        &&& self.id == access.id
        &&& self.broker == access.broker
        &&& self.environment == access.environment
        &&& self.scope == access.scope
        &&& self.created_at == access.created_at
        &&& self.revoked_at == access.revoked_at
    }

    /// The wire form of the record.
    pub fn from_domain(access: BrokerAccessView) -> (dto: Self)
        ensures
            dto.shows(access),
    {
        Self {
            id: access.id,
            broker: access.broker,
            environment: access.environment,
            scope: access.scope,
            created_at: access.created_at,
            revoked_at: access.revoked_at,
        }
    }
}

/// What a token may do.
#[derive(Debug, Clone, Copy, PartialEq, Eq, Structural)]
pub enum TokenScopeDto {
    Owner,
    Agent,
    ReadOnly,
}

impl TokenScopeDto {
    /// The value of the ledger it stands for.
    pub open spec fn denotes(self) -> Scope {
        match self {
            Self::Owner => Scope::Owner,
            Self::Agent => Scope::Agent,
            Self::ReadOnly => Scope::ReadOnly,
        }
    }

    /// The wire value that stands for a value of the ledger.
    pub fn from_domain(scope: Scope) -> (dto: Self)
        ensures
            dto.denotes() == scope,
    {
        match scope {
            Scope::Owner => Self::Owner,
            Scope::Agent => Self::Agent,
            Scope::ReadOnly => Self::ReadOnly,
        }
    }
}

/// A token to issue.
#[derive(Debug, Clone, PartialEq, Eq)]
pub struct CreateTokenRequest {
    pub label: String,
    pub scope: TokenScopeDto,
}

/// A token that was just issued. The secret is shown once, here, and nowhere else:
/// the type prints itself through `redacted` alone.
pub struct IssuedTokenDto {
    pub id: Uuid,
    pub token: String,
    pub label: String,
    pub scope: TokenScopeDto,
}

impl TokenScopeDto {
    /// The name of the scope in a printed value.
    pub open spec fn name(self) -> Seq<char> {
        match self {
            Self::Owner => "Owner"@,
            Self::Agent => "Agent"@,
            Self::ReadOnly => "ReadOnly"@,
        }
    }

    fn printed(self) -> (name: &'static str)
        ensures
            name@ == self.name(),
    {
        match self {
            Self::Owner => "Owner",
            Self::Agent => "Agent",
            Self::ReadOnly => "ReadOnly",
        }
    }
}

impl IssuedTokenDto {
    /// What the wire form says of the token.
    pub open spec fn shows(self, issued: IssuedToken) -> bool {
        &&& self.id == issued.id
        &&& self.token == issued.token
        &&& self.label == issued.label
        &&& self.scope.denotes() == issued.scope
    }

    /// The wire form of the token.
    pub fn from_domain(issued: IssuedToken) -> (dto: Self)
        ensures
            dto.shows(issued),
    {
        Self {
            id: issued.id,
            token: issued.token,
            label: issued.label,
            scope: TokenScopeDto::from_domain(issued.scope),
        }
    }

    /// The printed value, a stated text where the secret would be. The label is quoted
    /// and escaped as a text is when it is printed for debugging.
    pub open spec fn redaction(self) -> Seq<char> {
        "IssuedTokenDto { id: "@ + self.id.text()
            + ", token: \"<redacted>\", label: "@ + outside::str_debug(self.label@)
            + ", scope: "@ + self.scope.name() + " }"@
    }

    /// The printed value, without the secret.
    pub fn redacted(&self) -> (text: String)
        ensures
            text@ == self.redaction(),
    {
        let mut text = "IssuedTokenDto { id: ".to_owned();
        text.append(self.id.to_text().as_str());
        text.append(", token: \"<redacted>\", label: ");
        text.append(debug_text(self.label.as_str()).as_str());
        text.append(", scope: ");
        text.append(self.scope.printed());
        text.append(" }");
        text
    }
}

/// What is printed of a token tells nothing of its secret: tokens that differ in
/// the secret alone print alike.
pub proof fn law_printing_tells_nothing_of_the_secret(one: IssuedTokenDto, other: IssuedTokenDto)
    requires
        one.id == other.id,
        one.label@ == other.label@,
        one.scope == other.scope,
    ensures
        one.redaction() == other.redaction(),
{
}

/// A token, without its secret.
#[derive(Debug, Clone, PartialEq, Eq)]
pub struct TokenDto {
    pub id: Uuid,
    pub label: String,
    pub scope: TokenScopeDto,
    pub created_at: String,
    pub revoked_at: Option<String>,
}

impl TokenDto {
    /// What the wire form says of the record it was rendered from.
    pub open spec fn shows(self, token: TokenView) -> bool {
        &&& self.id == token.id
        &&& self.label == token.label
        &&& self.scope.denotes() == token.scope
        &&& self.created_at == token.created_at
        &&& self.revoked_at == token.revoked_at
    }

    /// The wire form of the record.
    pub fn from_domain(token: TokenView) -> (dto: Self)
        ensures
            dto.shows(token),
    {
        Self {
            id: token.id,
            label: token.label,
            scope: TokenScopeDto::from_domain(token.scope),
            created_at: token.created_at,
            revoked_at: token.revoked_at,
        }
    }
}

/// Each `BrokerEnvironmentDto` denotes its namesake in the ledger, and no two denote one.
pub proof fn law_broker_environment_denotes_its_namesake(dto: BrokerEnvironmentDto)
    ensures
        dto is Prod <==> dto.denotes() is Prod,
        dto is Sandbox <==> dto.denotes() is Sandbox,
{
}

/// Each `TokenScopeDto` denotes its namesake in the ledger, and no two denote one.
pub proof fn law_token_scope_denotes_its_namesake(dto: TokenScopeDto)
    ensures
        dto is Owner <==> dto.denotes() is Owner,
        dto is Agent <==> dto.denotes() is Agent,
        dto is ReadOnly <==> dto.denotes() is ReadOnly,
{
}

/// A `BrokerAccessDto` tells each part of what it shows in a field of its own.
pub proof fn law_broker_access_is_told_part_by_part(
    dto: BrokerAccessDto,
    access: BrokerAccessView,
)
    requires
        dto.shows(access),
    ensures
        dto.id == access.id,
        dto.broker == access.broker,
        dto.environment == access.environment,
        dto.scope == access.scope,
        dto.created_at == access.created_at,
        dto.revoked_at == access.revoked_at,
{
}

/// An `IssuedTokenDto` tells each part of what it shows in a field of its own.
pub proof fn law_issued_token_is_told_part_by_part(
    dto: IssuedTokenDto,
    issued: IssuedToken,
)
    requires
        dto.shows(issued),
    ensures
        dto.id == issued.id,
        dto.token == issued.token,
        dto.label == issued.label,
        dto.scope.denotes() == issued.scope,
{
}

/// A `TokenDto` tells each part of what it shows in a field of its own.
pub proof fn law_token_is_told_part_by_part(
    dto: TokenDto,
    token: TokenView,
)
    requires
        dto.shows(token),
    ensures
        dto.id == token.id,
        dto.label == token.label,
        dto.scope.denotes() == token.scope,
        dto.created_at == token.created_at,
        dto.revoked_at == token.revoked_at,
{
}

/// A token is printed with its identifier, its label and its scope, and a stated text in
/// place of its secret.
pub proof fn law_a_token_is_printed_without_its_secret(dto: IssuedTokenDto)
    ensures
        dto.scope is Owner ==> dto.redaction() == "IssuedTokenDto { id: "@ + dto.id.text()
            + ", token: \"<redacted>\", label: "@ + outside::str_debug(dto.label@) + ", scope: "@
            + "Owner"@ + " }"@,
        dto.scope is Agent ==> dto.redaction() == "IssuedTokenDto { id: "@ + dto.id.text()
            + ", token: \"<redacted>\", label: "@ + outside::str_debug(dto.label@) + ", scope: "@
            + "Agent"@ + " }"@,
        dto.scope is ReadOnly ==> dto.redaction() == "IssuedTokenDto { id: "@ + dto.id.text()
            + ", token: \"<redacted>\", label: "@ + outside::str_debug(dto.label@) + ", scope: "@
            + "ReadOnly"@ + " }"@,
{
}

} // verus!
