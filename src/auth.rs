//! The authentication stage: bearer-token extraction, claims checks, principal
//! resolution, and the per-request state machine that drives them.
use vstd::prelude::*;
use vstd::string::*;
use crate::text::has_prefix;

verus! {

/// Why the principal resolver could not produce trusted claims.
#[derive(Debug, Clone, Copy, PartialEq, Eq, Structural)]
pub enum AuthError {
    Malformed,
    InvalidSignature,
    Expired,
}

/// A decoded token payload together with the outcome of signature verification.
#[derive(Debug, Clone)]
pub struct Claims {
    pub subject: String,
    pub issued_at: i64,
    pub expiry: i64,
    pub signature_valid: bool,
}

/// Claims are trusted only with a valid signature and before their expiry.
pub open spec fn claims_trusted(c: Claims, now: i64) -> bool {
    c.signature_valid && now < c.expiry
}

/// What the claims check yields for decoded claims at time `now`.
pub open spec fn claims_verdict(decoded: Result<Claims, AuthError>, now: i64) -> Result<Claims, AuthError> {
    match decoded {
        Err(e) => Err(e),
        Ok(c) => if !c.signature_valid {
            Err(AuthError::InvalidSignature)
        } else if now >= c.expiry {
            Err(AuthError::Expired)
        } else {
            Ok(c)
        },
    }
}

/// Checks decoded claims: a failed decode is passed on, an invalid signature
/// and an expiry at or before `now` are refused, other claims are trusted.
pub fn check_claims(decoded: Result<Claims, AuthError>, now: i64) -> (r: Result<Claims, AuthError>)
    ensures
        r == claims_verdict(decoded, now),
        r is Ok ==> claims_trusted(r->Ok_0, now),
{
    match decoded {
        Err(e) => Err(e),
        Ok(c) => {
            if !c.signature_valid {
                Err(AuthError::InvalidSignature)
            } else if now >= c.expiry {
                Err(AuthError::Expired)
            } else {
                Ok(c)
            }
        },
    }
}

/// An account record as the user lookup returns it.
#[derive(Debug, Clone)]
pub struct Account {
    pub id: String,
    pub role: String,
    pub active: bool,
}

/// A failure of the backing store during a lookup.
#[derive(Debug, Clone, Copy, PartialEq, Eq, Structural)]
pub enum LookupError {
    ConnectionRefused,
    Timeout,
    Unavailable,
}

/// What the user lookup answered for a subject.
#[derive(Debug, Clone)]
pub enum LookupOutcome {
    Found(Account),
    NotFound,
    Failed(LookupError),
}

/// The resolved identity attached to a request.
#[derive(Debug, Clone)]
pub struct Principal {
    pub user_id: String,
    pub role: String,
}

/// Why the authentication stage refused a request.
#[derive(Debug, Clone, Copy, PartialEq, Eq, Structural)]
pub enum RejectReason {
    MissingOrMalformedHeader,
    MalformedToken,
    InvalidSignature,
    Expired,
    PrincipalNotFound,
    PrincipalInactive,
    LookupUnavailable,
}

/// The status a rejection carries: 503 when the store could not be asked,
/// 401 for every credential problem, whatever its sub-reason.
pub open spec fn reject_status_of(r: RejectReason) -> u16 {
    match r {
        RejectReason::LookupUnavailable => 503,
        _ => 401,
    }
}

/// The label a rejection is logged under.
pub open spec fn reason_label(r: RejectReason) -> Seq<char> {
    match r {
        RejectReason::MissingOrMalformedHeader => "missing_or_malformed_header"@,
        RejectReason::MalformedToken => "malformed_token"@,
        RejectReason::InvalidSignature => "invalid_signature"@,
        RejectReason::Expired => "token_expired"@,
        RejectReason::PrincipalNotFound => "principal_not_found"@,
        RejectReason::PrincipalInactive => "principal_inactive"@,
        RejectReason::LookupUnavailable => "lookup_unavailable"@,
    }
}

/// The reason a resolver error is logged under.
pub open spec fn reason_of_error(e: AuthError) -> RejectReason {
    match e {
        AuthError::Malformed => RejectReason::MalformedToken,
        AuthError::InvalidSignature => RejectReason::InvalidSignature,
        AuthError::Expired => RejectReason::Expired,
    }
}

impl RejectReason {
    /// The HTTP status of this rejection.
    pub fn status(&self) -> (r: u16)
        ensures
            r == reject_status_of(*self),
    {
        match self {
            RejectReason::LookupUnavailable => 503,
            _ => 401,
        }
    }

    /// The label under which this rejection is logged; never shown to clients.
    pub fn label(&self) -> (r: &'static str)
        ensures
            r@ == reason_label(*self),
    {
        match self {
            RejectReason::MissingOrMalformedHeader => "missing_or_malformed_header",
            RejectReason::MalformedToken => "malformed_token",
            RejectReason::InvalidSignature => "invalid_signature",
            RejectReason::Expired => "token_expired",
            RejectReason::PrincipalNotFound => "principal_not_found",
            RejectReason::PrincipalInactive => "principal_inactive",
            RejectReason::LookupUnavailable => "lookup_unavailable",
        }
    }
}

/// Maps a resolver error to the reason it is rejected under.
pub fn reason_for(e: AuthError) -> (r: RejectReason)
    ensures
        r == reason_of_error(e),
{
    match e {
        AuthError::Malformed => RejectReason::MalformedToken,
        AuthError::InvalidSignature => RejectReason::InvalidSignature,
        AuthError::Expired => RejectReason::Expired,
    }
}

/// The bearer scheme prefix of an `Authorization` header value.
pub open spec fn bearer_prefix() -> Seq<char> {
    seq!['B', 'e', 'a', 'r', 'e', 'r', ' ']
}

/// A well-formed header value: the bearer prefix followed by a non-empty token.
pub open spec fn is_bearer_header(h: Seq<char>) -> bool {
    bearer_prefix().is_prefix_of(h) && h.len() > bearer_prefix().len()
}

/// The token of a well-formed header value.
pub open spec fn bearer_token(h: Seq<char>) -> Seq<char> {
    h.subrange(bearer_prefix().len() as int, h.len() as int)
}

/// Reads the token out of an `Authorization` header value of the form
/// `Bearer <token>`; an absent header or any other form is refused.
pub fn extract_token(header: Option<&str>) -> (r: Result<String, RejectReason>)
    ensures
        match header {
            None => r == Err::<String, RejectReason>(RejectReason::MissingOrMalformedHeader),
            Some(h) => if is_bearer_header(h@) {
                r is Ok && r->Ok_0@ == bearer_token(h@)
            } else {
                r == Err::<String, RejectReason>(RejectReason::MissingOrMalformedHeader)
            },
        },
{
    match header {
        None => Err(RejectReason::MissingOrMalformedHeader),
        Some(h) => {
            let prefix = "Bearer ";
            proof {
                reveal_strlit("Bearer ");
                assert(prefix@ =~= bearer_prefix());
            }
            let n = h.unicode_len();
            if has_prefix(h, prefix) && n > 7 {
                let t = h.substring_char(7, n);
                Ok(t.to_string())
            } else {
                Err(RejectReason::MissingOrMalformedHeader)
            }
        },
    }
}

/// What the lookup outcome yields: the principal of an active account, or the
/// reason for refusing.
pub open spec fn lookup_verdict(subject: Seq<char>, o: LookupOutcome) -> Result<Principal, RejectReason> {
    match o {
        LookupOutcome::NotFound => Err(RejectReason::PrincipalNotFound),
        LookupOutcome::Failed(_) => Err(RejectReason::LookupUnavailable),
        LookupOutcome::Found(a) => if a.active && a.id@ == subject {
            Ok(Principal { user_id: a.id, role: a.role })
        } else if a.active {
            Err(RejectReason::PrincipalNotFound)
        } else {
            Err(RejectReason::PrincipalInactive)
        },
    }
}

/// Turns the user lookup's answer for `subject` into a principal: only an
/// active account with that identifier is accepted; a missing account is a
/// credential failure, a store failure makes the service unavailable.
pub fn resolve_principal(subject: &str, outcome: LookupOutcome) -> (r: Result<Principal, RejectReason>)
    ensures
        r == lookup_verdict(subject@, outcome),
{
    match outcome {
        LookupOutcome::NotFound => Err(RejectReason::PrincipalNotFound),
        LookupOutcome::Failed(_) => Err(RejectReason::LookupUnavailable),
        LookupOutcome::Found(a) => {
            if a.active && crate::text::same_text(a.id.as_str(), subject) {
                Ok(Principal { user_id: a.id, role: a.role })
            } else if a.active {
                Err(RejectReason::PrincipalNotFound)
            } else {
                Err(RejectReason::PrincipalInactive)
            }
        },
    }
}

} // verus!
