//! The pipeline composer and the stages that wrap every route group:
//! error rendering (outermost), request-id tagging, timing and access logging,
//! then the authentication stage for protected routes, then the handler.
use vstd::prelude::*;
use vstd::string::*;
use crate::auth::{reason_label, RejectReason};
use crate::context::RequestContext;
use crate::errors::{envelope_text, error_envelope, renders_envelope};
use crate::gate::GateAction;
use crate::text::{eq_ignore_case, same_ignoring_case};
use crate::http::{header_value, header_value_of, Header, Request, Response};
use crate::routes::{is_protected, is_protected_path};
use crate::timer::{decimal, process_time_header, seconds_text, seconds_value, write_decimal};

verus! {

/// One event of a composed chain: a stage's entry logic, the terminal handler,
/// or a stage's exit logic.
#[derive(Debug, Clone, Copy, PartialEq, Eq, Structural)]
pub enum Step {
    Before(usize),
    Handler,
    After(usize),
}

/// Whether a chain of `n` stages, of which stage `short_at` (if any) stops
/// the request, reaches the handler.
pub open spec fn reaches_handler(n: nat, short_at: Option<usize>) -> bool {
    !(short_at matches Some(i) && i < n)
}

/// How many stages run their entry logic.
pub open spec fn entered(n: nat, short_at: Option<usize>) -> nat {
    match short_at {
        Some(i) => if i < n { (i + 1) as nat } else { n },
        None => n,
    }
}

/// The order of events of such a chain: entry logic in declared order up to
/// and including the stage that stops, the handler only if none stops, then
/// the exit logic of every entered stage in reverse order.
pub open spec fn chain_order(n: nat, short_at: Option<usize>) -> Seq<Step> {
    let k = entered(n, short_at);
    Seq::new(k, |j: int| Step::Before(j as usize))
        + (if reaches_handler(n, short_at) { seq![Step::Handler] } else { Seq::empty() })
        + Seq::new(k, |j: int| Step::After((k - 1 - j) as usize))
}

/// The events a chain of `n` stages goes through when stage `short_at` (if
/// any) stops the request.
pub fn compose(n: usize, short_at: Option<usize>) -> (r: Vec<Step>)
    ensures
        r@ == chain_order(n as nat, short_at),
{
    let k: usize = match short_at {
        Some(i) => if i < n { i + 1 } else { n },
        None => n,
    };
    let ghost befores = Seq::new(k as nat, |j: int| Step::Before(j as usize));
    let mut r: Vec<Step> = Vec::new();
    let mut i: usize = 0;
    while i < k
        invariant
            i <= k,
            r@ =~= Seq::new(i as nat, |j: int| Step::Before(j as usize)),
        decreases k - i,
    {
        r.push(Step::Before(i));
        i = i + 1;
    }
    let stopped = match short_at {
        Some(s) => s < n,
        None => false,
    };
    if !stopped {
        r.push(Step::Handler);
    }
    let ghost head = r@;
    let mut m: usize = 0;
    while m < k
        invariant
            m <= k,
            r@ =~= head + Seq::new(m as nat, |j: int| Step::After((k - 1 - j) as usize)),
        decreases k - m,
    {
        r.push(Step::After(k - 1 - m));
        m = m + 1;
    }
    r
}

/// Where a request goes after the wrapping stages.
#[derive(Debug, Clone, Copy, PartialEq, Eq, Structural)]
pub enum Entry {
    /// Straight to the route's handler.
    Handler,
    /// Through the authentication stage first.
    Gate,
}

/// Only protected paths pass the authentication stage; nothing else about the request counts.
pub open spec fn entry_of(path: Seq<char>) -> Entry {
    if is_protected_path(path) {
        Entry::Gate
    } else {
        Entry::Handler
    }
}

/// Where `req` goes after the wrapping stages.
pub fn entry_for(req: &Request) -> (r: Entry)
    ensures
        r == entry_of(req.path@),
{
    if is_protected(req.path.as_str()) {
        Entry::Gate
    } else {
        Entry::Handler
    }
}

/// The name of the request-id header.
pub open spec fn request_id_header() -> Seq<char> {
    "x-request-id"@
}

/// The request id of a request: the non-empty one it carries, else the
/// fresh one.
pub open spec fn request_id_of(hs: Seq<Header>, fresh: Seq<char>) -> Seq<char> {
    match header_value_of(hs, request_id_header()) {
        Some(v) => if v.len() > 0 {
            v
        } else {
            fresh
        },
        None => fresh,
    }
}

/// Opens the context of `req`: its request id is the inbound one if it
/// carries a non-empty one, else `fresh`; it has no principal yet.
pub fn begin(req: &Request, fresh: String, arrival: i64) -> (ctx: RequestContext)
    requires
        fresh@.len() > 0,
    ensures
        ctx.id().len() > 0,
        ctx.wf(),
        ctx.id() == request_id_of(req.headers@, fresh@),
        ctx.arrived() == arrival,
        ctx.principal_of() is None,
        ctx.entries().len() == 0,
{
    let id = match header_value(&req.headers, "x-request-id") {
        Some(v) => if v.unicode_len() > 0 {
            v.to_string()
        } else {
            fresh
        },
        None => fresh,
    };
    RequestContext::new(id, arrival)
}

/// Applies the authentication stage's final action to the context: a principal is attached
/// and the request continues (`None`); a short-circuit yields a bare response
/// with its status and leaves the context without a principal.
pub fn apply_gate(ctx: &mut RequestContext, action: GateAction) -> (r: Option<Response>)
    requires
        old(ctx).principal_of() is None,
        action is Forward || action is ShortCircuit,
    ensures
        final(ctx).id() == old(ctx).id(),
        final(ctx).entries() == old(ctx).entries(),
        match action {
            GateAction::Forward(p) => r is None && final(ctx).principal_of() == Some(p),
            GateAction::ShortCircuit(status, _) => r is Some && r->Some_0.status == status
                && r->Some_0.headers@.len() == 0 && r->Some_0.body@.len() == 0
                && final(ctx).principal_of() is None,
            _ => false,
        },
{
    match action {
        GateAction::Forward(p) => {
            ctx.attach_principal(p);
            None
        },
        GateAction::ShortCircuit(status, _) => Some(Response { status, headers: Vec::new(), body: String::new() }),
        _ => None,
    }
}

/// The body a response leaves the pipeline with: the envelope for the
/// enveloped statuses, the inner body otherwise.
pub open spec fn finished_body(status: u16, body: Seq<char>) -> Seq<char> {
    if renders_envelope(status) {
        envelope_text(status)
    } else {
        body
    }
}

/// Headers as pairs of name and value.
pub open spec fn header_pairs(hs: Seq<Header>) -> Seq<(Seq<char>, Seq<char>)> {
    hs.map_values(|h: Header| (h.name@, h.value@))
}

/// Whether a header name is one the wrapping stages set themselves (compared
/// without ASCII case).
pub open spec fn is_stage_header(name: Seq<char>) -> bool {
    eq_ignore_case(name, process_time_header()) || eq_ignore_case(name, request_id_header())
}

/// The pairs in their order, without those the wrapping stages set.
pub open spec fn without_stage_headers(ps: Seq<(Seq<char>, Seq<char>)>) -> Seq<(Seq<char>, Seq<char>)>
    decreases ps.len(),
{
    if ps.len() == 0 {
        Seq::empty()
    } else {
        without_stage_headers(ps.drop_last()) + if is_stage_header(ps.last().0) {
            Seq::empty()
        } else {
            seq![ps.last()]
        }
    }
}

/// The headers a response leaves the pipeline with: the inner ones except
/// earlier elapsed-time and request-id headers, then the timer's, then the
/// request id.
pub open spec fn finished_headers(
    inner: Seq<(Seq<char>, Seq<char>)>,
    request_id: Seq<char>,
    micros: nat,
) -> Seq<(Seq<char>, Seq<char>)> {
    without_stage_headers(inner) + seq![
        (process_time_header(), seconds_text(micros)),
        (request_id_header(), request_id),
    ]
}

/// Runs the exit logic of the wrapping stages on `inner`, in reverse order of
/// entry: the timer sets the elapsed time, the request-id stage sets the id
/// (each replacing any earlier header of its name), the error-rendering stage
/// replaces the body of the enveloped statuses.
pub fn finish(inner: Response, request_id: &str, micros: u64) -> (r: Response)
    ensures
        r.status == inner.status,
        r.body@ == finished_body(inner.status, inner.body@),
        header_pairs(r.headers@) == finished_headers(header_pairs(inner.headers@), request_id@, micros as nat),
{
    let Response { status, headers, body } = inner;
    let n = headers.len();
    let mut kept: Vec<Header> = Vec::new();
    let mut i: usize = 0;
    while i < n
        invariant
            n == headers@.len(),
            i <= n,
            header_pairs(kept@) =~= without_stage_headers(header_pairs(headers@.subrange(0, i as int))),
        decreases n - i,
    {
        let h = &headers[i];
        proof {
            let pre = header_pairs(headers@.subrange(0, i as int + 1));
            assert(pre.drop_last() =~= header_pairs(headers@.subrange(0, i as int)));
            assert(pre.last() == (headers@[i as int].name@, headers@[i as int].value@));
        }
        if !same_ignoring_case(h.name.as_str(), "x-process-time-s") && !same_ignoring_case(
            h.name.as_str(),
            "x-request-id",
        ) {
            kept.push(Header { name: h.name.clone(), value: h.value.clone() });
        }
        i = i + 1;
    }
    assert(headers@.subrange(0, n as int) =~= headers@);
    let ghost before = kept@;
    kept.push(Header { name: String::from_str("x-process-time-s"), value: seconds_value(micros) });
    kept.push(Header { name: String::from_str("x-request-id"), value: request_id.to_string() });
    assert(header_pairs(kept@) =~= finished_headers(header_pairs(headers@), request_id@, micros as nat));
    let body = match error_envelope(status) {
        Some(e) => e,
        None => body,
    };
    Response { status, headers: kept, body }
}

/// The access-log line: status, request line, elapsed seconds, user agent,
/// client address and request id, separated by ` | `, and for a rejected
/// request the reason it was rejected for.
pub open spec fn log_text(
    status: u16,
    method: Seq<char>,
    path: Seq<char>,
    micros: nat,
    agent: Seq<char>,
    client: Seq<char>,
    request_id: Seq<char>,
    reason: Option<RejectReason>,
) -> Seq<char> {
    decimal(status as nat) + " | "@ + method + " "@ + path + " | "@ + seconds_text(micros) + "s | "@
        + agent + " | "@ + client + " | "@ + request_id + match reason {
        Some(r) => " | reason="@ + reason_label(r),
        None => Seq::empty(),
    }
}

/// The user agent a request names, `-` where it names none.
pub open spec fn agent_of(hs: Seq<Header>) -> Seq<char> {
    match header_value_of(hs, "user-agent"@) {
        Some(v) => v,
        None => "-"@,
    }
}

/// The access-log line of one request.
pub fn access_log_line(status: u16, req: &Request, micros: u64, request_id: &str, reason: Option<RejectReason>) -> (r: String)
    ensures
        r@ == log_text(
            status,
            req.method@,
            req.path@,
            micros as nat,
            agent_of(req.headers@),
            req.client_addr@,
            request_id@,
            reason,
        ),
{
    let mut out = String::new();
    write_decimal(&mut out, status as u64);
    out.append(" | ");
    out.append(req.method.as_str());
    out.append(" ");
    out.append(req.path.as_str());
    out.append(" | ");
    let secs = seconds_value(micros);
    out.append(secs.as_str());
    out.append("s | ");
    match header_value(&req.headers, "user-agent") {
        Some(v) => out.append(v),
        None => out.append("-"),
    }
    out.append(" | ");
    out.append(req.client_addr.as_str());
    out.append(" | ");
    out.append(request_id);
    let ghost base = out@;
    match reason {
        Some(r) => {
            out.append(" | reason=");
            out.append(r.label());
        },
        None => {},
    }
    assert(out@ =~= log_text(
        status,
        req.method@,
        req.path@,
        micros as nat,
        agent_of(req.headers@),
        req.client_addr@,
        request_id@,
        reason,
    ));
    out
}

} // verus!
