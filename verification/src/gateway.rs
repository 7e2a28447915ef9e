//! The gateway's response envelopes.
//!
//! Per request the gateway reaches exactly one terminal outcome: the rate
//! limiter rejected it, or the forwarder was consulted and either failed or
//! relayed an upstream response. [`render_response`] turns that closed sum
//! into the HTTP response: `429` with a JSON body naming the wait, `500`
//! with a generic JSON body that leaks no upstream detail, or the upstream's
//! status, body and content type verbatim. Every response carries the
//! permissive CORS header.

use vstd::prelude::*;

use crate::forward::ForwardResult;

verus! {

/// The decimal digit for one value below ten.
pub open spec fn spec_digit(d: int) -> char {
    if d == 0 {
        '0'
    } else if d == 1 {
        '1'
    } else if d == 2 {
        '2'
    } else if d == 3 {
        '3'
    } else if d == 4 {
        '4'
    } else if d == 5 {
        '5'
    } else if d == 6 {
        '6'
    } else if d == 7 {
        '7'
    } else if d == 8 {
        '8'
    } else {
        '9'
    }
}

/// The usual decimal rendering of a number: no sign, no leading zero except
/// on zero itself.
pub open spec fn spec_decimal(n: nat) -> Seq<char>
    decreases n,
{
    if n < 10 {
        seq![spec_digit(n as int)]
    } else {
        spec_decimal(n / 10).push(spec_digit((n % 10) as int))
    }
}

/// The one-character string for a digit.
fn digit_str(d: u64) -> (r: &'static str)
    requires
        d < 10,
    ensures
        r@ == seq![spec_digit(d as int)],
{
    proof {
        reveal_strlit("0");
        reveal_strlit("1");
        reveal_strlit("2");
        reveal_strlit("3");
        reveal_strlit("4");
        reveal_strlit("5");
        reveal_strlit("6");
        reveal_strlit("7");
        reveal_strlit("8");
        reveal_strlit("9");
    }
    let r: &'static str = if d == 0 {
        "0"
    } else if d == 1 {
        "1"
    } else if d == 2 {
        "2"
    } else if d == 3 {
        "3"
    } else if d == 4 {
        "4"
    } else if d == 5 {
        "5"
    } else if d == 6 {
        "6"
    } else if d == 7 {
        "7"
    } else if d == 8 {
        "8"
    } else {
        "9"
    };
    proof {
        assert(r@ =~= seq![spec_digit(d as int)]);
    }
    r
}

/// Append the decimal rendering of `n` to `s`.
fn push_decimal(s: &mut String, n: u64)
    ensures
        final(s)@ == old(s)@ + spec_decimal(n as nat),
    decreases n,
{
    if n < 10 {
        s.append(digit_str(n));
    } else {
        push_decimal(s, n / 10);
        s.append(digit_str(n % 10));
        proof {
            assert(s@ =~= old(s)@ + spec_decimal(n as nat));
        }
    }
}

/// The decimal rendering of `n`, as the JSON number in a response body.
pub fn u64_to_decimal(n: u64) -> (s: String)
    ensures
        s@ == spec_decimal(n as nat),
{
    let mut s = String::new();
    push_decimal(&mut s, n);
    proof {
        assert(s@ =~= spec_decimal(n as nat));
    }
    s
}

/// The JSON body of a rate-limited response: it names the wait in
/// milliseconds as a JSON number.
pub open spec fn spec_ratelimit_body(retry_after: u64) -> Seq<char> {
    "{\"message\":\"ratelimit exceeded\",\"retryAfter\":"@ + spec_decimal(retry_after as nat)
        + "}"@
}

/// Render the `429` envelope's body.
pub fn ratelimit_body(retry_after: u64) -> (s: String)
    ensures
        s@ == spec_ratelimit_body(retry_after),
{
    let mut s = String::from_str("{\"message\":\"ratelimit exceeded\",\"retryAfter\":");
    push_decimal(&mut s, retry_after);
    s.append("}");
    proof {
        assert(s@ =~= spec_ratelimit_body(retry_after));
    }
    s
}

/// Render the `500` envelope's body, which leaks no upstream detail.
pub fn internal_error_body() -> (s: String)
    ensures
        s@ == "{\"message\":\"internal error\"}"@,
{
    String::from_str("{\"message\":\"internal error\"}")
}

/// The one terminal outcome a request reaches before the response is built.
pub enum RequestOutcome {
    /// The rate limiter refused the request; nothing was forwarded.
    RateLimited { retry_after: u64 },
    /// The forwarder was consulted and this is what it produced.
    Forwarded { result: ForwardResult },
}

/// The response the gateway sends to the client.
pub struct GatewayResponse {
    /// HTTP status code.
    pub status: u16,
    /// Response body.
    pub body: String,
    /// `content-type` header value, if one is to be sent.
    pub content_type: Option<String>,
    /// `access-control-allow-origin` header value; `*` on every response.
    pub allow_origin: String,
}

/// The status the gateway answers with for an outcome.
pub open spec fn spec_response_status(outcome: RequestOutcome) -> int {
    match outcome {
        RequestOutcome::RateLimited { .. } => 429,
        RequestOutcome::Forwarded { result: ForwardResult::Success { status, .. } } => status as int,
        RequestOutcome::Forwarded { result: ForwardResult::Failure } => 500,
    }
}

/// The body the gateway answers with for an outcome.
pub open spec fn spec_response_body(outcome: RequestOutcome) -> Seq<char> {
    match outcome {
        RequestOutcome::RateLimited { retry_after } => spec_ratelimit_body(retry_after),
        RequestOutcome::Forwarded { result: ForwardResult::Success { body, .. } } => body@,
        RequestOutcome::Forwarded { result: ForwardResult::Failure } => (
        "{\"message\":\"internal error\"}"@),
    }
}

/// The `content-type` the gateway answers with for an outcome: the
/// upstream's, verbatim and only if present, on success; the JSON type on
/// both synthetic envelopes.
pub open spec fn spec_response_content_type(outcome: RequestOutcome) -> Option<Seq<char>> {
    match outcome {
        RequestOutcome::Forwarded {
            result: ForwardResult::Success { content_type, .. },
        } => content_type.deep_view(),
        _ => Some("application/json"@),
    }
}

/// Build the client response for a request's terminal outcome.
///
/// A rate-limited request gets `429` with the JSON envelope naming the
/// wait; a forwarder failure gets `500` with the generic JSON envelope; an
/// upstream response is relayed verbatim: its status, its body, and its
/// `content-type` header only if it sent one. Every response allows any
/// origin.
pub fn render_response(outcome: RequestOutcome) -> (r: GatewayResponse)
    ensures
        r.status as int == spec_response_status(outcome),
        r.body@ == spec_response_body(outcome),
        r.content_type.deep_view() == spec_response_content_type(outcome),
        r.allow_origin@ == "*"@,
{
    match outcome {
        RequestOutcome::RateLimited { retry_after } => GatewayResponse {
            status: 429,
            body: ratelimit_body(retry_after),
            content_type: Some(String::from_str("application/json")),
            allow_origin: String::from_str("*"),
        },
        RequestOutcome::Forwarded { result: ForwardResult::Success { status, body, content_type } } => {
            GatewayResponse {
                status,
                body,
                content_type,
                allow_origin: String::from_str("*"),
            }
        },
        RequestOutcome::Forwarded { result: ForwardResult::Failure } => GatewayResponse {
            status: 500,
            body: internal_error_body(),
            content_type: Some(String::from_str("application/json")),
            allow_origin: String::from_str("*"),
        },
    }
}

} // verus!
