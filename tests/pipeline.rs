use api_pipeline::auth::{Account, Claims, LookupError, LookupOutcome, Principal, RejectReason};
use api_pipeline::context::RequestContext;
use api_pipeline::errors::{error_envelope, renders};
use api_pipeline::gate::{AuthGate, GateAction};
use api_pipeline::http::{header_value, Header, Request, Response};
use api_pipeline::pipeline::{access_log_line, apply_gate, begin, compose, entry_for, finish, Entry, Step};
use api_pipeline::routes::is_protected;
use api_pipeline::timer::{seconds_value, Timer};
use api_pipeline::AppState;

const NOW: i64 = 1_700_000_000;

fn header(name: &str, value: &str) -> Header {
    Header { name: name.to_string(), value: value.to_string() }
}

fn request(path: &str, headers: Vec<Header>) -> Request {
    Request { method: "GET".to_string(), path: path.to_string(), headers, client_addr: "10.0.0.1".to_string() }
}

fn handler_ok() -> Response {
    Response { status: 200, headers: vec![header("content-type", "application/json")], body: "[]".to_string() }
}

struct Run {
    response: Response,
    context: RequestContext,
    log: String,
    lookups: usize,
    gate_entered: bool,
}

/// Runs one request through the whole chain with the given outside answers.
fn run(req: &Request, fresh_id: &str, subject: &str, expiry: i64, lookup: LookupOutcome, micros: u64) -> Run {
    let mut ctx = begin(req, fresh_id.to_string(), NOW);
    let mut lookups = 0;
    let mut reason = None;
    let mut gate_entered = false;
    let mut inner = None;
    if entry_for(req) == Entry::Gate {
        gate_entered = true;
        let mut gate = AuthGate::new();
        let mut action = gate.on_header(header_value(&req.headers, "authorization"));
        if let GateAction::Resolve(_) = action {
            let claims = Claims { subject: subject.to_string(), issued_at: NOW - 10, expiry, signature_valid: true };
            action = gate.on_decoded(Ok(claims), NOW);
        }
        if let GateAction::Lookup(_) = action {
            lookups += 1;
            action = gate.on_lookup(lookup);
        }
        if let GateAction::ShortCircuit(_, r) = action {
            reason = Some(r);
        }
        inner = apply_gate(&mut ctx, action);
    }
    let inner = inner.unwrap_or_else(handler_ok);
    let response = finish(inner, ctx.request_id(), micros);
    let log = access_log_line(response.status, req, micros, ctx.request_id(), reason);
    Run { response, context: ctx, log, lookups, gate_entered }
}

fn active(id: &str) -> LookupOutcome {
    LookupOutcome::Found(Account { id: id.to_string(), role: "user".to_string(), active: true })
}

fn find<'a>(r: &'a Response, name: &str) -> Option<&'a str> {
    header_value(&r.headers, name)
}

#[test]
fn principal_not_found_is_logged() {
    let req = request("/v1/users", vec![header("Authorization", "Bearer tok"), header("User-Agent", "curl/8")]);
    let out = run(&req, "req-1", "u123", NOW + 3600, LookupOutcome::NotFound, 1_500);
    assert_eq!(out.response.status, 401);
    assert!(out.context.principal().is_none());
    assert_eq!(out.log, "401 | GET /v1/users | 0.001500s | curl/8 | 10.0.0.1 | req-1 | reason=principal_not_found");
    assert_eq!(out.response.body, "{\"code\":\"unauthorized\",\"message\":\"Unauthorized\"}");
}

#[test]
fn connection_refused_gives_503() {
    let req = request("/v1/users/u123", vec![header("Authorization", "Bearer tok")]);
    let out = run(&req, "req-2", "u123", NOW + 3600, LookupOutcome::Failed(LookupError::ConnectionRefused), 10);
    assert_eq!(out.response.status, 503);
    assert_eq!(out.response.body, "{\"code\":\"service_unavailable\",\"message\":\"Service Unavailable\"}");
    assert!(out.log.ends_with("reason=lookup_unavailable"));
}

#[test]
fn missing_header_on_users_gives_401() {
    let req = request("/v1/users", vec![]);
    let out = run(&req, "req-3", "u123", NOW + 3600, active("u123"), 10);
    assert_eq!(out.response.status, 401);
    assert_eq!(out.lookups, 0);
    assert!(out.gate_entered);
    assert!(out.log.ends_with("reason=missing_or_malformed_header"));
}

#[test]
fn healthz_skips_gate() {
    let req = request("/healthz", vec![]);
    let out = run(&req, "req-4", "u123", NOW + 3600, LookupOutcome::NotFound, 10);
    assert_eq!(out.response.status, 200);
    assert_eq!(out.response.body, "[]");
    assert!(!out.gate_entered);
    assert_eq!(out.lookups, 0);
}

#[test]
fn unprotected_routes_ignore_authorization() {
    for path in ["/healthz", "/v1/login", "/v1/register"] {
        for headers in [vec![], vec![header("Authorization", "Bearer broken")], vec![header("Authorization", "nonsense")]] {
            let req = request(path, headers);
            assert_eq!(entry_for(&req), Entry::Handler);
            let out = run(&req, "req-5", "u123", NOW - 5, LookupOutcome::NotFound, 10);
            assert_eq!(out.response.status, 200);
            assert!(!out.gate_entered);
        }
    }
}

#[test]
fn accepted_request_carries_principal() {
    let req = request("/v1/users", vec![header("authorization", "Bearer tok")]);
    let out = run(&req, "req-6", "u123", NOW + 1, active("u123"), 42);
    assert_eq!(out.response.status, 200);
    assert_eq!(out.response.body, "[]");
    let p = out.context.principal().expect("principal");
    assert_eq!(p.user_id, "u123");
    assert_eq!(out.lookups, 1);
    assert!(out.log.ends_with("| req-6"));
}

#[test]
fn identical_requests_answer_alike() {
    let req = request("/v1/users", vec![header("Authorization", "Bearer tok")]);
    let a = run(&req, "first", "u123", NOW + 60, active("u123"), 100);
    let b = run(&req.clone(), "second", "u123", NOW + 60, active("u123"), 100);
    assert_eq!(a.response.status, b.response.status);
    assert_eq!(a.response.body, b.response.body);
    assert_eq!(find(&a.response, "x-request-id"), Some("first"));
    assert_eq!(find(&b.response, "x-request-id"), Some("second"));
}

#[test]
fn short_circuit_keeps_instrumentation_headers() {
    let req = request("/v1/users", vec![]);
    let out = run(&req, "req-7", "u123", NOW + 60, active("u123"), 2_000_001);
    assert_eq!(out.response.status, 401);
    assert_eq!(find(&out.response, "x-request-id"), Some("req-7"));
    assert_eq!(find(&out.response, "x-process-time-s"), Some("2.000001"));
}

#[test]
fn inbound_request_id_is_kept() {
    let req = request("/healthz", vec![header("X-Request-Id", "abc-123")]);
    let ctx = begin(&req, "fresh".to_string(), NOW);
    assert_eq!(ctx.request_id(), "abc-123");
    assert_eq!(ctx.arrival(), NOW);
    let ctx2 = begin(&request("/healthz", vec![]), "fresh".to_string(), NOW);
    assert_eq!(ctx2.request_id(), "fresh");
}

#[test]
fn finish_appends_headers_in_order() {
    let r = finish(handler_ok(), "id-9", 0);
    assert_eq!(r.status, 200);
    assert_eq!(r.headers.len(), 3);
    assert_eq!(r.headers[0].name, "content-type");
    assert_eq!(r.headers[1].name, "x-process-time-s");
    assert_eq!(r.headers[1].value, "0.000000");
    assert_eq!(r.headers[2].name, "x-request-id");
    assert_eq!(r.headers[2].value, "id-9");
    let e = finish(Response { status: 500, headers: vec![], body: "boom".to_string() }, "id", 1);
    assert_eq!(e.body, "boom");
    let g = finish(Response { status: 504, headers: vec![], body: "slow".to_string() }, "id", 1);
    assert_eq!(g.body, "{\"code\":\"gateway_timeout\",\"message\":\"Gateway Timeout\"}");
}

#[test]
fn envelopes_per_status() {
    assert_eq!(error_envelope(401).unwrap(), "{\"code\":\"unauthorized\",\"message\":\"Unauthorized\"}");
    assert_eq!(error_envelope(403).unwrap(), "{\"code\":\"forbidden\",\"message\":\"Forbidden\"}");
    assert_eq!(error_envelope(408).unwrap(), "{\"code\":\"request_timeout\",\"message\":\"Request Timeout\"}");
    assert_eq!(error_envelope(502).unwrap(), "{\"code\":\"bad_gateway\",\"message\":\"Bad Gateway\"}");
    assert_eq!(error_envelope(503).unwrap(), "{\"code\":\"service_unavailable\",\"message\":\"Service Unavailable\"}");
    assert_eq!(error_envelope(504).unwrap(), "{\"code\":\"gateway_timeout\",\"message\":\"Gateway Timeout\"}");
    assert_eq!(error_envelope(500), None);
    assert_eq!(error_envelope(404), None);
    assert_eq!(error_envelope(200), None);
    assert!(renders(503));
    assert!(!renders(500));
}

#[test]
fn compose_orders_stages() {
    assert_eq!(
        compose(3, None),
        vec![Step::Before(0), Step::Before(1), Step::Before(2), Step::Handler, Step::After(2), Step::After(1), Step::After(0)]
    );
    assert_eq!(compose(3, Some(1)), vec![Step::Before(0), Step::Before(1), Step::After(1), Step::After(0)]);
    assert_eq!(compose(3, Some(0)), vec![Step::Before(0), Step::After(0)]);
    assert_eq!(compose(3, Some(7)), compose(3, None));
    assert_eq!(compose(0, None), vec![Step::Handler]);
}

#[test]
fn protected_paths() {
    assert!(is_protected("/v1/users"));
    assert!(is_protected("/v1/users/42"));
    assert!(is_protected("/v1/users/"));
    assert!(!is_protected("/v1/usersx"));
    assert!(!is_protected("/v1/user"));
    assert!(!is_protected("/healthz"));
    assert!(!is_protected("/v1/login"));
    assert!(!is_protected(""));
}

#[test]
fn seconds_formatting() {
    assert_eq!(seconds_value(0), "0.000000");
    assert_eq!(seconds_value(1_234_567), "1.234567");
    assert_eq!(seconds_value(12_000_005), "12.000005");
    assert_eq!(seconds_value(999_999), "0.999999");
    assert_eq!(seconds_value(u64::MAX), "18446744073709.551615");
}

#[test]
fn timer_stage_header() {
    let mw = Timer.new_transform(7u32);
    assert_eq!(mw.service, 7);
    let (name, value) = mw.elapsed_header(3_000_000);
    assert_eq!(name, "x-process-time-s");
    assert_eq!(value, "3.000000");
}

#[test]
fn header_lookup_ignores_case_and_takes_first() {
    let hs = vec![header("Accept", "a"), header("ACCEPT", "b"), header("Host", "h")];
    assert_eq!(header_value(&hs, "accept"), Some("a"));
    assert_eq!(header_value(&hs, "host"), Some("h"));
    assert_eq!(header_value(&hs, "cookie"), None);
}

#[test]
fn annotations_last_writer_wins() {
    let mut ctx = RequestContext::new("id".to_string(), NOW);
    ctx.annotate("route".to_string(), "a".to_string());
    ctx.annotate("user".to_string(), "u".to_string());
    ctx.annotate("route".to_string(), "b".to_string());
    assert_eq!(ctx.annotations().len(), 2);
    assert_eq!(ctx.annotations()[0].0, "route");
    assert_eq!(ctx.annotation("route").map(|s| s.as_str()), Some("b"));
    assert_eq!(ctx.annotation("user").map(|s| s.as_str()), Some("u"));
    assert_eq!(ctx.annotation("none"), None);
}

#[test]
fn principal_attaches_once() {
    let mut ctx = RequestContext::new("id".to_string(), NOW);
    assert!(ctx.attach_principal(Principal { user_id: "a".to_string(), role: "r".to_string() }));
    assert!(!ctx.attach_principal(Principal { user_id: "b".to_string(), role: "r".to_string() }));
    assert_eq!(ctx.principal().unwrap().user_id, "a");
}

#[test]
fn apply_gate_short_circuit() {
    let mut ctx = RequestContext::new("id".to_string(), NOW);
    let r = apply_gate(&mut ctx, GateAction::ShortCircuit(401, RejectReason::Expired)).unwrap();
    assert_eq!(r.status, 401);
    assert!(r.body.is_empty());
    assert!(ctx.principal().is_none());
}

#[test]
fn app_state_holds_configuration() {
    let s = AppState { jwt_secret_key: "signing-key".to_string(), jwt_lifetime: 3600 };
    let t = s.clone();
    assert_eq!(t.jwt_lifetime, 3600);
    assert_eq!(t.jwt_secret_key, "signing-key");
}

#[test]
fn finish_replaces_stale_stage_headers() {
    let inner = Response {
        status: 200,
        headers: vec![header("X-Process-Time-S", "9.9"), header("etag", "e1"), header("x-request-id", "old")],
        body: "ok".to_string(),
    };
    let r = finish(inner, "new-id", 250);
    assert_eq!(r.headers.len(), 3);
    assert_eq!(r.headers[0].name, "etag");
    assert_eq!(r.headers[1].name, "x-process-time-s");
    assert_eq!(r.headers[1].value, "0.000250");
    assert_eq!(r.headers[2].name, "x-request-id");
    assert_eq!(r.headers[2].value, "new-id");
    assert_eq!(find(&r, "x-process-time-s"), Some("0.000250"));
}

#[test]
fn empty_inbound_request_id_is_replaced() {
    let req = request("/healthz", vec![header("x-request-id", "")]);
    let ctx = begin(&req, "fresh-1".to_string(), NOW);
    assert_eq!(ctx.request_id(), "fresh-1");
}

#[test]
fn numbered_request_ids() {
    assert_eq!(api_pipeline::timer::request_id_text(0), "0");
    assert_eq!(api_pipeline::timer::request_id_text(42), "42");
    assert_eq!(api_pipeline::timer::request_id_text(1_000_007), "1000007");
    assert_ne!(api_pipeline::timer::request_id_text(12), api_pipeline::timer::request_id_text(21));
}
