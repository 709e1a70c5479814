//! The claims record and its parts.

use crate::error::ClaimsError;
use vstd::prelude::*;

verus! {

/// The claims that a SurrealDB token carries in its payload.
///
/// The three times are seconds since the Unix epoch. Nothing relates the
/// fields to one another: a record may expire before it becomes valid, and
/// nothing here says that anyone signed it.
#[derive(Debug, Clone)]
pub struct SurrealJWTClaims<T> {
    /// Issued at. On the wire: `iat`.
    pub iat: u64,
    /// Not valid before. On the wire: `nbf`.
    pub nbf: u64,
    /// Expires at. On the wire: `exp`.
    pub exp: u64,
    /// Who issued the token. On the wire: `iss`.
    pub iss: String,
    /// The token's own identifier. On the wire: `jti`.
    pub jti: String,
    /// The namespace that the token is for. On the wire: `NS`.
    pub ns: String,
    /// The database that the token is for. On the wire: `DB`.
    pub db: String,
    /// The access claims, of whatever shape the caller chose. On the wire: `AC`.
    pub ac: T,
    /// The subject that the token stands for. On the wire: `ID`.
    pub id: String,
}

/// A claims record as a mathematical value: the texts as sequences of
/// characters, the access claims as they are.
pub struct ClaimsView<T> {
    pub iat: u64,
    pub nbf: u64,
    pub exp: u64,
    pub iss: Seq<char>,
    pub jti: Seq<char>,
    pub ns: Seq<char>,
    pub db: Seq<char>,
    pub ac: T,
    pub id: Seq<char>,
}

impl<T> View for SurrealJWTClaims<T> {
    type V = ClaimsView<T>;

    open spec fn view(&self) -> ClaimsView<T> {
        ClaimsView {
            iat: self.iat,
            nbf: self.nbf,
            exp: self.exp,
            iss: self.iss@,
            jti: self.jti@,
            ns: self.ns@,
            db: self.db@,
            ac: self.ac,
            id: self.id@,
        }
    }
}

/// The nine claims of a record.
#[derive(Clone, Copy, Debug, PartialEq, Eq, Structural)]
pub enum Claim {
    /// When the token was issued.
    IssuedAt,
    /// The time before which the token is not valid.
    NotBefore,
    /// The time after which the token is not valid.
    ExpiresAt,
    /// Who issued the token.
    Issuer,
    /// The token's own identifier.
    TokenId,
    /// The namespace that the token is for.
    Namespace,
    /// The database that the token is for.
    Database,
    /// What the token allows, in a shape of the caller's choice.
    AccessClaims,
    /// The subject that the token stands for.
    Subject,
}

impl Claim {
    /// The key under which a claim stands in the payload. The issuer of the
    /// tokens fixed these, letter for letter: four of them are upper case.
    pub open spec fn wire_name(self) -> Seq<char> {
        match self {
            Claim::IssuedAt => "iat"@,
            Claim::NotBefore => "nbf"@,
            Claim::ExpiresAt => "exp"@,
            Claim::Issuer => "iss"@,
            Claim::TokenId => "jti"@,
            Claim::Namespace => "NS"@,
            Claim::Database => "DB"@,
            Claim::AccessClaims => "AC"@,
            Claim::Subject => "ID"@,
        }
    }

    /// The key under which this claim stands in the payload.
    pub fn key(self) -> (name: &'static str)
        ensures
            name@ == self.wire_name(),
    {
        match self {
            Claim::IssuedAt => "iat",
            Claim::NotBefore => "nbf",
            Claim::ExpiresAt => "exp",
            Claim::Issuer => "iss",
            Claim::TokenId => "jti",
            Claim::Namespace => "NS",
            Claim::Database => "DB",
            Claim::AccessClaims => "AC",
            Claim::Subject => "ID",
        }
    }
}

/// The claims as a payload was found to hold them: each one present in its
/// required shape, or not.
#[derive(Debug, Clone)]
pub struct FoundClaims<T> {
    pub iat: Option<u64>,
    pub nbf: Option<u64>,
    pub exp: Option<u64>,
    pub iss: Option<String>,
    pub jti: Option<String>,
    pub ns: Option<String>,
    pub db: Option<String>,
    pub ac: Option<T>,
    pub id: Option<String>,
}

/// Found claims as a mathematical value.
pub struct FoundView<T> {
    pub iat: Option<u64>,
    pub nbf: Option<u64>,
    pub exp: Option<u64>,
    pub iss: Option<Seq<char>>,
    pub jti: Option<Seq<char>>,
    pub ns: Option<Seq<char>>,
    pub db: Option<Seq<char>>,
    pub ac: Option<T>,
    pub id: Option<Seq<char>>,
}

/// The characters of a text that may be absent.
pub open spec fn text_view(text: Option<String>) -> Option<Seq<char>> {
    match text {
        Some(t) => Some(t@),
        None => None,
    }
}

/// An extraction's outcome as a mathematical value.
pub open spec fn outcome_view<T>(outcome: Result<SurrealJWTClaims<T>, ClaimsError>) -> Result<
    ClaimsView<T>,
    ClaimsError,
> {
    match outcome {
        Ok(claims) => Ok(claims@),
        Err(e) => Err(e),
    }
}

impl<T> View for FoundClaims<T> {
    type V = FoundView<T>;

    open spec fn view(&self) -> FoundView<T> {
        FoundView {
            iat: self.iat,
            nbf: self.nbf,
            exp: self.exp,
            iss: text_view(self.iss),
            jti: text_view(self.jti),
            ns: text_view(self.ns),
            db: text_view(self.db),
            ac: self.ac,
            id: text_view(self.id),
        }
    }
}

impl<T> FoundView<T> {
    /// Whether nothing is missing.
    pub open spec fn is_complete(self) -> bool {
        &&& self.iat is Some
        &&& self.nbf is Some
        &&& self.exp is Some
        &&& self.iss is Some
        &&& self.jti is Some
        &&& self.ns is Some
        &&& self.db is Some
        &&& self.ac is Some
        &&& self.id is Some
    }

    /// The record that the found claims make up: all nine where none is
    /// missing, `SchemaMismatch` where any is. No claim has a default.
    pub open spec fn completed(self) -> Result<ClaimsView<T>, ClaimsError> {
        if self.is_complete() {
            Ok(
                ClaimsView {
                    iat: self.iat->0,
                    nbf: self.nbf->0,
                    exp: self.exp->0,
                    iss: self.iss->0,
                    jti: self.jti->0,
                    ns: self.ns->0,
                    db: self.db->0,
                    ac: self.ac->0,
                    id: self.id->0,
                },
            )
        } else {
            Err(ClaimsError::SchemaMismatch)
        }
    }
}

impl<T> FoundClaims<T> {
    /// Makes the record out of the found claims, or fails with
    /// `SchemaMismatch` where one of the nine is missing.
    pub fn complete(self) -> (outcome: Result<SurrealJWTClaims<T>, ClaimsError>)
        ensures
            outcome_view(outcome) == self@.completed(),
    {
        match self {
            FoundClaims {
                iat: Some(iat),
                nbf: Some(nbf),
                exp: Some(exp),
                iss: Some(iss),
                jti: Some(jti),
                ns: Some(ns),
                db: Some(db),
                ac: Some(ac),
                id: Some(id),
            } => Ok(SurrealJWTClaims { iat, nbf, exp, iss, jti, ns, db, ac, id }),
            _ => Err(ClaimsError::SchemaMismatch),
        }
    }
}

} // verus!
