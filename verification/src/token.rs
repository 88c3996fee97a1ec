//! Issuing and validating signed, time-bounded identity tokens.
//!
//! A token is an opaque string that encodes a principal identifier, an
//! absolute expiration time in seconds since the epoch, and an optional
//! opaque extension payload, signed with HMAC-SHA512 under a base64-encoded
//! symmetric secret. Signing and signature checking are done by the
//! `jsonwebtoken` crate; what a given (secret, token) pair decodes to is a
//! fixed function of those two strings, named `decoded_claims` below. The
//! expiration check itself is carried out here, with zero leeway: a token is
//! valid only while the check time is strictly before its expiration.

use vstd::prelude::*;
use vstd::string::StringExecFns;

use jsonwebtoken::{Algorithm, DecodingKey, EncodingKey, Header, Validation};

use crate::errors::Error;

verus! {

/// The claims carried by a token: the principal identifier, the absolute
/// expiration time (seconds since the epoch), and an optional opaque
/// extension payload.
#[derive(Debug)]
pub struct UserClaims {
    pub pid: String,
    pub exp: u64,
    pub claims: Option<String>,
}

/// The mathematical content of a set of claims.
pub ghost struct ClaimsView {
    pub pid: Seq<char>,
    pub exp: u64,
    pub claims: Option<Seq<char>>,
}

impl View for UserClaims {
    type V = ClaimsView;

    open spec fn view(&self) -> ClaimsView {
        ClaimsView {
            pid: self.pid@,
            exp: self.exp,
            claims: match self.claims {
                Some(c) => Some(c@),
                None => None,
            },
        }
    }
}

pub open spec fn opt_str_view(o: Option<String>) -> Option<Seq<char>> {
    match o {
        Some(s) => Some(s@),
        None => None,
    }
}

/// Whether the secret is valid standard base64, i.e. whether
/// `from_base64_secret` accepts it. Depends on the secret alone.
pub uninterp spec fn base64_ok(secret: Seq<char>) -> bool;

/// The token string produced by signing the given claims under the given
/// secret. Header, claim serialization and HMAC signature are all fixed
/// functions of the inputs.
pub uninterp spec fn token_of(
    secret: Seq<char>,
    pid: Seq<char>,
    exp: u64,
    claims: Option<Seq<char>>,
) -> Seq<char>;

/// The claims that the given token yields under the given secret, when the
/// signature verifies and the claim fields are well formed; `None` otherwise.
/// Depends on the two strings alone — no time is consulted.
pub uninterp spec fn decoded_claims(secret: Seq<char>, token: Seq<char>) -> Option<ClaimsView>;

/// `a + b`, saturating at the largest representable value.
pub open spec fn sat_add(a: u64, b: u64) -> u64 {
    if a + b > u64::MAX {
        u64::MAX
    } else {
        (a + b) as u64
    }
}

/// A token is valid at time `now` when it decodes under the secret and `now`
/// is strictly before its expiration — zero leeway.
pub open spec fn spec_token_valid(secret: Seq<char>, token: Seq<char>, now: u64) -> bool {
    match decoded_claims(secret, token) {
        Some(c) => now < c.exp,
        None => false,
    }
}

/// Signs the claims under the secret.
///
/// Relies on `jsonwebtoken::encode` with an HS512 header and
/// `EncodingKey::from_base64_secret`: the key derivation fails exactly when
/// the secret is not valid base64, and with a valid key the encoding of these
/// claim fields never fails and is a fixed function of the inputs, which
/// decodes back to the same fields under the same secret.
#[verifier::external_body]
fn encode_token(secret: &str, pid: &str, exp: u64, extra: &Option<String>) -> (r: Option<String>)
    ensures
        r is Some <==> base64_ok(secret@),
        r matches Some(t) ==> t@ == token_of(secret@, pid@, exp, opt_str_view(*extra)),
        r matches Some(t) ==> decoded_claims(secret@, t@) == Some(
            ClaimsView { pid: pid@, exp, claims: opt_str_view(*extra) },
        ),
{
    let key = match EncodingKey::from_base64_secret(secret) {
        Ok(k) => k,
        Err(_) => return None,
    };
    let mut map = serde_json::Map::new();
    map.insert("pid".to_string(), serde_json::Value::String(pid.to_string()));
    map.insert("exp".to_string(), serde_json::Value::from(exp));
    if let Some(e) = extra {
        map.insert("claims".to_string(), serde_json::Value::String(e.clone()));
    }
    jsonwebtoken::encode(&Header::new(Algorithm::HS512), &serde_json::Value::Object(map), &key).ok()
}

/// Checks the token's signature under the secret and extracts its claims; the
/// expiration is not consulted here.
///
/// Relies on `jsonwebtoken::decode` restricted to HS512, with expiration
/// checking turned off, and `DecodingKey::from_base64_secret`: the outcome is
/// a fixed function of the secret and the token.
#[verifier::external_body]
fn decode_token(secret: &str, token: &str) -> (r: Option<UserClaims>)
    ensures
        match r {
            Some(c) => decoded_claims(secret@, token@) == Some(c@),
            None => decoded_claims(secret@, token@) is None,
        },
{
    let key = DecodingKey::from_base64_secret(secret).ok()?;
    let mut validation = Validation::new(Algorithm::HS512);
    validation.validate_exp = false;
    validation.required_spec_claims = std::collections::HashSet::new();
    let data = jsonwebtoken::decode::<serde_json::Value>(token, &key, &validation).ok()?;
    let pid = data.claims.get("pid")?.as_str()?.to_string();
    let exp = data.claims.get("exp")?.as_u64()?;
    let claims = match data.claims.get("claims") {
        Some(v) => Some(v.as_str()?.to_string()),
        None => None,
    };
    Some(UserClaims { pid, exp, claims })
}

/// The current time in whole seconds since the epoch.
///
/// Relies on `jsonwebtoken::get_current_timestamp`.
#[verifier::external_body]
pub fn now_seconds() -> u64 {
    jsonwebtoken::get_current_timestamp()
}

/// The token service: a long-lived symmetric secret under a fixed signing
/// algorithm.
pub struct JWT {
    pub secret: String,
}

impl JWT {
    pub fn new(secret: &str) -> (r: Self)
        ensures
            r.secret@ == secret@,
    {
        JWT { secret: String::from_str(secret) }
    }

    /// Issues a token at the given time: the expiration is `now + ttl`,
    /// saturating rather than wrapping, and issuing succeeds exactly when the
    /// secret is usable.
    pub fn generate_token_at(
        &self,
        now: u64,
        expiration: &u64,
        pid: String,
        claims: Option<String>,
    ) -> (r: Result<String, Error>)
        ensures
            r is Ok <==> base64_ok(self.secret@),
            r matches Ok(t) ==> t@ == token_of(
                self.secret@,
                pid@,
                sat_add(now, *expiration),
                opt_str_view(claims),
            ),
            r matches Ok(t) ==> decoded_claims(self.secret@, t@) == Some(
                ClaimsView { pid: pid@, exp: sat_add(now, *expiration), claims: opt_str_view(claims) },
            ),
            r matches Err(e) ==> e is Internal,
    {
        let exp: u64 = if now > u64::MAX - *expiration {
            u64::MAX
        } else {
            now + *expiration
        };
        match encode_token(self.secret.as_str(), pid.as_str(), exp, &claims) {
            Some(t) => Ok(t),
            None => Err(Error::Internal(String::from_str("token signing failed"))),
        }
    }

    /// Issues a token expiring `expiration` seconds from the current time.
    pub fn generate_token(&self, expiration: &u64, pid: String, claims: Option<String>) -> (r:
        Result<String, Error>)
        ensures
            r is Ok <==> base64_ok(self.secret@),
            r matches Ok(t) ==> exists|now: u64|
                decoded_claims(self.secret@, t@) == Some(
                    ClaimsView {
                        pid: pid@,
                        exp: #[trigger] sat_add(now, *expiration),
                        claims: opt_str_view(claims),
                    },
                ),
            r matches Err(e) ==> e is Internal,
    {
        let now = now_seconds();
        self.generate_token_at(now, expiration, pid, claims)
    }

    /// Validates the token at the given check time: the signature must verify
    /// under the service's secret and the check time must be strictly before
    /// the expiration. Every failure is reported as the same `Unauthorized`
    /// kind, so a caller cannot tell a forged token from an expired one.
    pub fn validate_at(&self, token: &str, now: u64) -> (r: Result<UserClaims, Error>)
        ensures
            r is Ok <==> spec_token_valid(self.secret@, token@, now),
            r matches Ok(c) ==> decoded_claims(self.secret@, token@) == Some(c@) && now < c.exp,
            r matches Err(e) ==> e is Unauthorized,
    {
        match decode_token(self.secret.as_str(), token) {
            Some(c) => {
                if now < c.exp {
                    Ok(c)
                } else {
                    Err(Error::Unauthorized(String::from_str("invalid token")))
                }
            },
            None => Err(Error::Unauthorized(String::from_str("invalid token"))),
        }
    }

    /// Validates the token against the current time.
    pub fn validate(&self, token: &str) -> (r: Result<UserClaims, Error>)
        ensures
            r matches Ok(c) ==> decoded_claims(self.secret@, token@) == Some(c@),
            decoded_claims(self.secret@, token@) is None ==> r is Err,
            r matches Err(e) ==> e is Unauthorized,
    {
        let now = now_seconds();
        self.validate_at(token, now)
    }
}

/// Law: a token whose claims carry expiration `issue_time + ttl` (not
/// saturating) is valid exactly at check times strictly before
/// `issue_time + ttl`, and invalid at every later or equal check time.
pub proof fn lemma_validity_window(
    secret: Seq<char>,
    token: Seq<char>,
    issue_time: u64,
    ttl: u64,
    now: u64,
)
    requires
        issue_time + ttl <= u64::MAX,
        decoded_claims(secret, token) matches Some(c) && c.exp == sat_add(issue_time, ttl),
    ensures
        spec_token_valid(secret, token, now) <==> now < issue_time + ttl,
{
}

} // verus!
