//! The authentication stage's per-request state machine. Each transition takes what the
//! previous step's outside work produced (the header, the decoded claims, the
//! lookup answer) and returns the next action, so the caller performs the
//! suspending work between transitions.
use vstd::prelude::*;
use crate::auth::{
    bearer_token, check_claims, claims_verdict, extract_token, is_bearer_header, lookup_verdict,
    reason_for, reason_of_error, reject_status_of, resolve_principal, AuthError, Claims,
    LookupOutcome, Principal, RejectReason,
};

verus! {

/// Where one request stands in the authentication stage.
#[derive(Debug)]
pub enum GateState {
    Unauthenticated,
    TokenExtracted,
    ClaimsVerified(String),
    PrincipalResolved,
    Rejected(RejectReason),
}

/// What the caller does next.
#[derive(Debug)]
pub enum GateAction {
    /// Decode and verify this token with the principal resolver.
    Resolve(String),
    /// Ask the user lookup for this subject.
    Lookup(String),
    /// Attach this principal to the request and continue down the chain.
    Forward(Principal),
    /// Stop the chain with this status; the reason is for the log only.
    ShortCircuit(u16, RejectReason),
}

/// The whole authentication stage as one function of what each step was given: the accepted
/// principal's user id and role, or the reason for refusing.
pub open spec fn gate_result(
    header: Option<Seq<char>>,
    decoded: Result<Claims, AuthError>,
    now: i64,
    lookup: LookupOutcome,
) -> Result<(Seq<char>, Seq<char>), RejectReason> {
    match header {
        None => Err(RejectReason::MissingOrMalformedHeader),
        Some(h) => if !is_bearer_header(h) {
            Err(RejectReason::MissingOrMalformedHeader)
        } else {
            match claims_verdict(decoded, now) {
                Err(e) => Err(reason_of_error(e)),
                Ok(c) => match lookup_verdict(c.subject@, lookup) {
                    Err(r) => Err(r),
                    Ok(p) => Ok((p.user_id@, p.role@)),
                },
            }
        },
    }
}

/// The authentication stage of one request.
pub struct AuthGate {
    state: GateState,
}

impl AuthGate {
    /// Where the request stands; only the transitions below change it.
    pub closed spec fn current(&self) -> GateState {
        self.state
    }

    /// Where the request stands.
    pub fn state(&self) -> (r: &GateState)
        ensures
            *r == self.current(),
    {
        &self.state
    }

    /// An authentication stage that has not yet seen the request.
    pub fn new() -> (r: AuthGate)
        ensures
            r.current() is Unauthenticated,
    {
        AuthGate { state: GateState::Unauthenticated }
    }

    /// Reads the `Authorization` header: a bearer token goes to the resolver,
    /// anything else stops the request with 401.
    pub fn on_header(&mut self, header: Option<&str>) -> (a: GateAction)
        requires
            old(self).current() is Unauthenticated,
        ensures
            match header {
                Some(h) if is_bearer_header(h@) => final(self).current() is TokenExtracted
                    && a is Resolve && a->Resolve_0@ == bearer_token(h@),
                _ => final(self).current() == GateState::Rejected(RejectReason::MissingOrMalformedHeader)
                    && a == GateAction::ShortCircuit(401, RejectReason::MissingOrMalformedHeader),
            },
    {
        match extract_token(header) {
            Ok(t) => {
                self.state = GateState::TokenExtracted;
                GateAction::Resolve(t)
            },
            Err(r) => {
                self.state = GateState::Rejected(r);
                GateAction::ShortCircuit(401, r)
            },
        }
    }

    /// Takes the resolver's answer at time `now`: trusted claims go to the
    /// user lookup under their subject, every failure stops the request with 401.
    pub fn on_decoded(&mut self, decoded: Result<Claims, AuthError>, now: i64) -> (a: GateAction)
        requires
            old(self).current() is TokenExtracted,
        ensures
            match claims_verdict(decoded, now) {
                Ok(c) => final(self).current() is ClaimsVerified
                    && final(self).current()->ClaimsVerified_0@ == c.subject@
                    && a is Lookup && a->Lookup_0@ == c.subject@,
                Err(e) => final(self).current() == GateState::Rejected(reason_of_error(e))
                    && a == GateAction::ShortCircuit(401, reason_of_error(e)),
            },
    {
        match check_claims(decoded, now) {
            Ok(c) => {
                let subject = c.subject.clone();
                self.state = GateState::ClaimsVerified(c.subject);
                GateAction::Lookup(subject)
            },
            Err(e) => {
                let r = reason_for(e);
                self.state = GateState::Rejected(r);
                GateAction::ShortCircuit(401, r)
            },
        }
    }

    /// Takes the user lookup's answer: an active account becomes the request's
    /// principal; a missing or inactive one stops the request with 401, a store
    /// failure with 503.
    pub fn on_lookup(&mut self, outcome: LookupOutcome) -> (a: GateAction)
        requires
            old(self).current() is ClaimsVerified,
        ensures
            match lookup_verdict(old(self).current()->ClaimsVerified_0@, outcome) {
                Ok(p) => final(self).current() is PrincipalResolved && a is Forward
                    && a->Forward_0.user_id@ == p.user_id@ && a->Forward_0.role@ == p.role@,
                Err(r) => final(self).current() == GateState::Rejected(r)
                    && a == GateAction::ShortCircuit(reject_status_of(r), r),
            },
    {
        let subject = match &self.state {
            GateState::ClaimsVerified(s) => s.clone(),
            _ => String::new(),
        };
        match resolve_principal(subject.as_str(), outcome) {
            Ok(p) => {
                self.state = GateState::PrincipalResolved;
                GateAction::Forward(p)
            },
            Err(r) => {
                let status = r.status();
                self.state = GateState::Rejected(r);
                GateAction::ShortCircuit(status, r)
            },
        }
    }
}

} // verus!
