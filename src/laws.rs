//! Properties of the authentication stage and the pipeline, proved over the spec functions
//! that the executable contracts use.
use vstd::prelude::*;
use vstd::string::*;
use crate::auth::{claims_verdict, is_bearer_header, reject_status_of, AuthError, Claims, LookupOutcome, RejectReason};
use crate::errors::{envelope_text, renders_envelope};
use crate::gate::gate_result;
use crate::http::{header_value_of, Header};
use crate::pipeline::{
    entry_of, finished_body, finished_headers, request_id_header, request_id_of, without_stage_headers, Entry,
};
use crate::routes::{is_protected_path, users_scope};
use crate::timer::{decimal, decimal_injective, process_time_header, seconds_text};

verus! {

/// What the pipeline answers, as status and body, for a request to `path`
/// with `header` as its `Authorization` value, given what the resolver, the
/// clock, the user lookup and the handler produced.
pub open spec fn pipeline_answer(
    path: Seq<char>,
    header: Option<Seq<char>>,
    decoded: Result<Claims, AuthError>,
    now: i64,
    lookup: LookupOutcome,
    handler_status: u16,
    handler_body: Seq<char>,
) -> (u16, Seq<char>) {
    let inner = if entry_of(path) == Entry::Gate {
        match gate_result(header, decoded, now, lookup) {
            Err(r) => (reject_status_of(r), Seq::<char>::empty()),
            Ok(_) => (handler_status, handler_body),
        }
    } else {
        (handler_status, handler_body)
    };
    (inner.0, finished_body(inner.0, inner.1))
}

/// A token whose signature does not verify is refused with 401, whatever the
/// expiry and whatever the user lookup would say; no principal results.
pub proof fn invalid_signature_refused(h: Seq<char>, c: Claims, now: i64, lookup: LookupOutcome)
    requires
        is_bearer_header(h),
        !c.signature_valid,
    ensures
        claims_verdict(Ok(c), now) == Err::<Claims, AuthError>(AuthError::InvalidSignature),
        gate_result(Some(h), Ok(c), now, lookup) == Err::<(Seq<char>, Seq<char>), RejectReason>(RejectReason::InvalidSignature),
        reject_status_of(RejectReason::InvalidSignature) == 401,
{
}

/// A token whose expiry is at or before the current time is refused with 401.
pub proof fn expired_token_refused(h: Seq<char>, c: Claims, now: i64, lookup: LookupOutcome)
    requires
        is_bearer_header(h),
        c.expiry <= now,
    ensures
        gate_result(Some(h), Ok(c), now, lookup) is Err,
        reject_status_of(gate_result(Some(h), Ok(c), now, lookup)->Err_0) == 401,
{
}

/// A validly signed token that has not expired, for the identifier of an
/// active account, lets the request through as that account.
pub proof fn live_token_accepted(h: Seq<char>, c: Claims, now: i64, lookup: LookupOutcome)
    requires
        is_bearer_header(h),
        c.signature_valid,
        now < c.expiry,
        lookup matches LookupOutcome::Found(a) && a.active && a.id@ == c.subject@,
    ensures
        gate_result(Some(h), Ok(c), now, lookup) == Ok::<(Seq<char>, Seq<char>), RejectReason>(
            (lookup->Found_0.id@, lookup->Found_0.role@),
        ),
{
}

/// Without an `Authorization` header the authentication stage refuses with 401, and its
/// answer depends neither on the resolver nor on the user lookup: neither is
/// needed.
pub proof fn missing_header_refused(
    d1: Result<Claims, AuthError>,
    n1: i64,
    l1: LookupOutcome,
    d2: Result<Claims, AuthError>,
    n2: i64,
    l2: LookupOutcome,
)
    ensures
        gate_result(None, d1, n1, l1) == Err::<(Seq<char>, Seq<char>), RejectReason>(RejectReason::MissingOrMalformedHeader),
        gate_result(None, d1, n1, l1) == gate_result(None, d2, n2, l2),
        reject_status_of(RejectReason::MissingOrMalformedHeader) == 401,
{
}

/// A request to an unprotected path never enters the authentication stage: its answer is the
/// handler's, whatever its headers and whatever the authentication stage's collaborators say.
pub proof fn unprotected_bypasses_gate(
    path: Seq<char>,
    h1: Option<Seq<char>>,
    d1: Result<Claims, AuthError>,
    n1: i64,
    l1: LookupOutcome,
    h2: Option<Seq<char>>,
    d2: Result<Claims, AuthError>,
    n2: i64,
    l2: LookupOutcome,
    status: u16,
    body: Seq<char>,
)
    requires
        !is_protected_path(path),
    ensures
        entry_of(path) == Entry::Handler,
        pipeline_answer(path, h1, d1, n1, l1, status, body) == pipeline_answer(path, h2, d2, n2, l2, status, body),
        pipeline_answer(path, h1, d1, n1, l1, status, body) == (status, finished_body(status, body)),
{
}

/// The health check, login and registration paths are unprotected; the
/// users scope and the paths below it are protected.
pub proof fn route_groups()
    ensures
        !is_protected_path("/healthz"@),
        !is_protected_path("/v1/login"@),
        !is_protected_path("/v1/register"@),
        is_protected_path("/v1/users"@),
        is_protected_path("/v1/users/u123"@),
{
    reveal_strlit("/healthz");
    reveal_strlit("/v1/login");
    reveal_strlit("/v1/register");
    reveal_strlit("/v1/users");
    reveal_strlit("/v1/users/u123");
    assert("/healthz"@[1] != users_scope()[1]);
    assert("/v1/login"@[4] != users_scope()[4]);
    assert("/v1/register"@[4] != users_scope()[4]);
    assert(users_scope().is_prefix_of("/v1/users"@)) by {
        assert("/v1/users"@ =~= users_scope());
    }
    assert(users_scope().is_prefix_of("/v1/users/u123"@)) by {
        assert("/v1/users/u123"@.subrange(0, 9) =~= users_scope());
    }
}

/// Two requests answered alike by the outside collaborators leave with the
/// same status and body (the answer takes no request id or timing), and with
/// headers that differ only in the request id and the elapsed time. Where
/// neither request carries a request id of its own, their ids are the fresh
/// ones, so distinct fresh ids give distinct request ids.
pub proof fn same_request_same_answer(
    inner: Seq<(Seq<char>, Seq<char>)>,
    hs1: Seq<Header>,
    fresh1: Seq<char>,
    micros1: nat,
    hs2: Seq<Header>,
    fresh2: Seq<char>,
    micros2: nat,
)
    requires
        fresh1 != fresh2,
        header_value_of(hs1, request_id_header()) is None,
        header_value_of(hs2, request_id_header()) is None,
    ensures
        request_id_of(hs1, fresh1) != request_id_of(hs2, fresh2),
        ({
            let a = finished_headers(inner, request_id_of(hs1, fresh1), micros1);
            let b = finished_headers(inner, request_id_of(hs2, fresh2), micros2);
            &&& a.len() == b.len()
            &&& forall|i: int| 0 <= i < a.len() - 2 ==> #[trigger] a[i] == b[i]
            &&& a[a.len() - 2].0 == b[b.len() - 2].0
            &&& a[a.len() - 1].0 == b[b.len() - 1].0
            &&& a[a.len() - 1].1 != b[b.len() - 1].1
        }),
{
}

/// Requests that carry no request id of their own and are numbered by
/// distinct counter values get distinct, non-empty request ids.
pub proof fn numbered_requests_distinct(hs1: Seq<Header>, n1: nat, hs2: Seq<Header>, n2: nat)
    requires
        n1 != n2,
        header_value_of(hs1, request_id_header()) is None,
        header_value_of(hs2, request_id_header()) is None,
    ensures
        request_id_of(hs1, decimal(n1)) != request_id_of(hs2, decimal(n2)),
        request_id_of(hs1, decimal(n1)).len() > 0,
        request_id_of(hs2, decimal(n2)).len() > 0,
{
    decimal_injective(n1, n2);
    decimal_injective(n2, n1);
}

/// A request that the authentication stage stops still leaves with the
/// elapsed-time header and a non-empty request-id header (the inbound one or
/// else the fresh one), and with the error envelope of its status as its body.
pub proof fn short_circuit_instrumented(reason: RejectReason, hs: Seq<Header>, fresh: Seq<char>, micros: nat)
    requires
        fresh.len() > 0,
    ensures
        finished_headers(Seq::empty(), request_id_of(hs, fresh), micros).contains(
            (process_time_header(), seconds_text(micros)),
        ),
        finished_headers(Seq::empty(), request_id_of(hs, fresh), micros).contains(
            (request_id_header(), request_id_of(hs, fresh)),
        ),
        request_id_of(hs, fresh).len() > 0,
        renders_envelope(reject_status_of(reason)),
        finished_body(reject_status_of(reason), Seq::empty()) == envelope_text(reject_status_of(reason)),
{
    let id = request_id_of(hs, fresh);
    let out = finished_headers(Seq::empty(), id, micros);
    assert(without_stage_headers(Seq::<(Seq<char>, Seq<char>)>::empty()) =~= Seq::empty());
    assert(out[0] == (process_time_header(), seconds_text(micros)));
    assert(out[1] == (request_id_header(), id));
}

} // verus!
