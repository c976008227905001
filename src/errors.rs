//! The uniform error envelope that replaces the body of selected statuses.
use vstd::prelude::*;
use vstd::string::*;

verus! {

/// The statuses whose body is replaced by the error envelope.
pub open spec fn renders_envelope(status: u16) -> bool {
    status == 401 || status == 403 || status == 408 || status == 502 || status == 503 || status == 504
}

/// The machine-readable code of an enveloped status.
pub open spec fn error_code_of(status: u16) -> Seq<char> {
    if status == 401 {
        "unauthorized"@
    } else if status == 403 {
        "forbidden"@
    } else if status == 408 {
        "request_timeout"@
    } else if status == 502 {
        "bad_gateway"@
    } else if status == 503 {
        "service_unavailable"@
    } else {
        "gateway_timeout"@
    }
}

/// The human-readable message of an enveloped status.
pub open spec fn error_message_of(status: u16) -> Seq<char> {
    if status == 401 {
        "Unauthorized"@
    } else if status == 403 {
        "Forbidden"@
    } else if status == 408 {
        "Request Timeout"@
    } else if status == 502 {
        "Bad Gateway"@
    } else if status == 503 {
        "Service Unavailable"@
    } else {
        "Gateway Timeout"@
    }
}

/// The envelope as JSON text: `{"code":"<code>","message":"<message>"}`.
pub open spec fn envelope_text(status: u16) -> Seq<char> {
    "{\"code\":\""@ + error_code_of(status) + "\",\"message\":\""@ + error_message_of(status) + "\"}"@
}

/// Whether the body of a response with `status` is replaced by the envelope.
pub fn renders(status: u16) -> (r: bool)
    ensures
        r == renders_envelope(status),
{
    status == 401 || status == 403 || status == 408 || status == 502 || status == 503 || status == 504
}

fn error_code(status: u16) -> (r: &'static str)
    ensures
        r@ == error_code_of(status),
{
    if status == 401 {
        "unauthorized"
    } else if status == 403 {
        "forbidden"
    } else if status == 408 {
        "request_timeout"
    } else if status == 502 {
        "bad_gateway"
    } else if status == 503 {
        "service_unavailable"
    } else {
        "gateway_timeout"
    }
}

fn error_message(status: u16) -> (r: &'static str)
    ensures
        r@ == error_message_of(status),
{
    if status == 401 {
        "Unauthorized"
    } else if status == 403 {
        "Forbidden"
    } else if status == 408 {
        "Request Timeout"
    } else if status == 502 {
        "Bad Gateway"
    } else if status == 503 {
        "Service Unavailable"
    } else {
        "Gateway Timeout"
    }
}

/// The envelope body for an enveloped status; `None` for any other status.
pub fn error_envelope(status: u16) -> (r: Option<String>)
    ensures
        r is Some <==> renders_envelope(status),
        r is Some ==> r->Some_0@ == envelope_text(status),
{
    if !renders(status) {
        return None;
    }
    let mut body = String::from_str("{\"code\":\"");
    body.append(error_code(status));
    body.append("\",\"message\":\"");
    body.append(error_message(status));
    body.append("\"}");
    Some(body)
}

} // verus!
