//! The request builder: turns an endpoint descriptor and the client's
//! configuration into a transport-ready request value.
//!
//! Building is one pure pass: base URL and path are joined, the
//! authorization and user-agent headers are attached, and a body
//! payload, when the descriptor carries one, is written on the wire
//! with its content-type and content-length headers.  The builder's
//! only failure mode is a
//! payload that cannot be written, and for the supported payload shapes
//! that failure is proved never to occur.

use vstd::prelude::*;
use vstd::string::StringExecFns;
use vstd::utf8::encode_utf8;

use crate::endpoint::{ContentType, HerokuEndpoint, Method};
use crate::json::{encoded_object, render_object, JsonObject};

verus! {

/// One request header: a name and a value.
#[derive(Clone, Debug, PartialEq)]
pub struct Header {
    pub name: String,
    pub value: String,
}

/// The client's immutable configuration: where the API lives and how
/// every request identifies itself.
#[derive(Clone, Debug, PartialEq)]
pub struct ApiClientConfig {
    /// The absolute URL of the API root; paths are appended to it.
    pub base_url: String,
    /// The bearer token sent in the authorization header.
    pub token: String,
    /// The agent name sent in the user-agent header.
    pub user_agent: String,
}

/// A transport-ready request: method, absolute URL, headers, and an
/// optional serialized body.  Immutable once built; one request value
/// maps to one response envelope.
#[derive(Clone, Debug, PartialEq)]
pub struct RequestValue {
    pub method: Method,
    pub url: String,
    pub headers: Vec<Header>,
    pub body: Option<String>,
}

/// The one failure the builder owns: a body payload that cannot be
/// written on the wire.  The supported payload shapes always can, so
/// `serialize_payload` is proved never to return it.
#[derive(Clone, Debug, PartialEq)]
pub struct BuildError {
    pub message: String,
}

/// The authorization header value carrying the configured token.
pub open spec fn auth_header_value(token: Seq<char>) -> Seq<char> {
    "Bearer "@ + token
}

/// The character a decimal digit is written with.
pub open spec fn digit_char(d: nat) -> char {
    if d == 0 {
        '0'
    } else if d == 1 {
        '1'
    } else if d == 2 {
        '2'
    } else if d == 3 {
        '3'
    } else if d == 4 {
        '4'
    } else if d == 5 {
        '5'
    } else if d == 6 {
        '6'
    } else if d == 7 {
        '7'
    } else if d == 8 {
        '8'
    } else {
        '9'
    }
}

/// A number written in decimal, most significant digit first, with no
/// leading zeroes.
pub open spec fn decimal_digits(n: nat) -> Seq<char>
    decreases n,
{
    if n < 10 {
        seq![digit_char(n)]
    } else {
        decimal_digits(n / 10).push(digit_char(n % 10))
    }
}

/// Returns the character of one decimal digit.
fn digit_to_char(d: usize) -> (c: char)
    requires
        d < 10,
    ensures
        c == digit_char(d as nat),
{
    if d == 0 {
        '0'
    } else if d == 1 {
        '1'
    } else if d == 2 {
        '2'
    } else if d == 3 {
        '3'
    } else if d == 4 {
        '4'
    } else if d == 5 {
        '5'
    } else if d == 6 {
        '6'
    } else if d == 7 {
        '7'
    } else if d == 8 {
        '8'
    } else {
        '9'
    }
}

/// Appends `n` written in decimal to `out`.
fn push_decimal(out: &mut String, n: usize)
    ensures
        final(out)@ == old(out)@ + decimal_digits(n as nat),
    decreases n,
{
    if n < 10 {
        crate::json::push_char(out, digit_to_char(n));
    } else {
        push_decimal(out, n / 10);
        crate::json::push_char(out, digit_to_char(n % 10));
        proof {
            assert(old(out)@ + decimal_digits((n / 10) as nat) + seq![digit_char((n % 10) as nat)]
                =~= old(out)@ + decimal_digits(n as nat));
        }
    }
}

/// Returns `n` written in decimal.
pub fn render_decimal(n: usize) -> (s: String)
    ensures
        s@ == decimal_digits(n as nat),
{
    let mut s = String::new();
    push_decimal(&mut s, n);
    proof {
        assert(Seq::<char>::empty() + decimal_digits(n as nat) =~= decimal_digits(n as nat));
    }
    s
}

/// The wire name of a content type.
pub open spec fn content_type_name(c: ContentType) -> Seq<char> {
    match c {
        ContentType::Json => "application/json"@,
        ContentType::Multipart => "multipart/form-data"@,
    }
}

/// Returns the wire name of a content type.
pub fn content_type_text(c: ContentType) -> (s: String)
    ensures
        s@ == content_type_name(c),
{
    match c {
        ContentType::Json => String::from_str("application/json"),
        ContentType::Multipart => String::from_str("multipart/form-data"),
    }
}

/// Writes a body payload on the wire.  Every supported payload has a
/// wire form, so this never fails.
pub fn serialize_payload(o: &JsonObject) -> (r: Result<String, BuildError>)
    ensures
        r matches Ok(s) && s@ == encoded_object(o@),
{
    Ok(render_object(o))
}

/// Builds the transport-ready request for one endpoint descriptor.
///
/// The URL is the configured base URL with the descriptor's path
/// appended once; the method and the serialized body come from the
/// descriptor; the authorization and user-agent headers come from the
/// configuration, and content-type and content-length headers are
/// attached exactly when there is a body, the length counted in the
/// body's wire bytes.
pub fn build_request<E: HerokuEndpoint>(config: &ApiClientConfig, endpoint: &E) -> (r: Result<
    RequestValue,
    BuildError,
>)
    ensures
        r matches Ok(req) && ({
            &&& req.method == endpoint.spec_method()
            &&& req.url@ == config.base_url@ + endpoint.spec_path()
            &&& match endpoint.spec_body() {
                Some(fs) => req.body matches Some(b) && b@ == encoded_object(fs),
                None => req.body is None,
            }
            &&& req.headers@.len() == if endpoint.spec_body() is Some {
                4int
            } else {
                2int
            }
            &&& req.headers@[0].name@ == "Authorization"@
            &&& req.headers@[0].value@ == auth_header_value(config.token@)
            &&& req.headers@[1].name@ == "User-Agent"@
            &&& req.headers@[1].value@ == config.user_agent@
            &&& req.body matches Some(b) ==> req.headers@[2].name@ == "Content-Type"@
                && req.headers@[2].value@ == content_type_name(endpoint.spec_content_type())
                && req.headers@[3].name@ == "Content-Length"@
                && req.headers@[3].value@ == decimal_digits(encode_utf8(b@).len() as usize as nat)
        }),
{
    let mut url = config.base_url.clone();
    let path = endpoint.path();
    url.append(path.as_str());
    let mut headers: Vec<Header> = Vec::new();
    let mut auth = String::from_str("Bearer ");
    auth.append(config.token.as_str());
    headers.push(Header { name: String::from_str("Authorization"), value: auth });
    headers.push(Header { name: String::from_str("User-Agent"), value: config.user_agent.clone() });
    let body = match endpoint.body() {
        Some(o) => {
            match serialize_payload(&o) {
                Ok(s) => {
                    headers.push(
                        Header {
                            name: String::from_str("Content-Type"),
                            value: content_type_text(endpoint.content_type()),
                        },
                    );
                    headers.push(
                        Header {
                            name: String::from_str("Content-Length"),
                            value: render_decimal(s.as_str().len()),
                        },
                    );
                    Some(s)
                },
                Err(e) => {
                    return Err(e);
                },
            }
        },
        None => None,
    };
    Ok(RequestValue { method: endpoint.method(), url, headers, body })
}

/// Law: the base URL is applied by the builder alone, exactly once.
///
/// The descriptor's path is a function of the descriptor's own fields,
/// so the same descriptor built against two configurations yields URLs
/// with the same tail after their respective base-URL prefixes: the
/// base URL stands in front and is never woven into the path.
pub proof fn lemma_base_url_applied_once<E: HerokuEndpoint>(
    e: &E,
    c1: ApiClientConfig,
    c2: ApiClientConfig,
    u1: Seq<char>,
    u2: Seq<char>,
)
    requires
        u1 == c1.base_url@ + e.spec_path(),
        u2 == c2.base_url@ + e.spec_path(),
    ensures
        u1.take(c1.base_url@.len() as int) == c1.base_url@,
        u2.take(c2.base_url@.len() as int) == c2.base_url@,
        u1.skip(c1.base_url@.len() as int) == u2.skip(c2.base_url@.len() as int),
        u1.skip(c1.base_url@.len() as int) == e.spec_path(),
{
    assert(u1.take(c1.base_url@.len() as int) =~= c1.base_url@);
    assert(u2.take(c2.base_url@.len() as int) =~= c2.base_url@);
    assert(u1.skip(c1.base_url@.len() as int) =~= e.spec_path());
    assert(u2.skip(c2.base_url@.len() as int) =~= e.spec_path());
}

} // verus!
