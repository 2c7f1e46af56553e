//! The API client: executes an endpoint descriptor against a transport
//! and interprets the raw response into a typed result.
//!
//! The client holds only immutable configuration and the transport
//! capability, so any number of requests may be issued concurrently
//! through one client.  Each call is one request/response cycle: no
//! retries, no caching, no paging.  Every failure is returned as a
//! typed value; nothing is logged, swallowed, or retried on the
//! caller's behalf.

use vstd::prelude::*;
use vstd::string::StringExecFns;

use crate::endpoint::{HerokuEndpoint, ResponseKind};
use crate::json::{
    encoded_array, encoded_object, lemma_array_round_trip, lemma_object_round_trip,
    lemma_scan_array_exact,
    lemma_scan_object_exact, parse_array_text, parse_object_text, scan_array, scan_object,
    FieldView, JsonObject,
};
use crate::request::{build_request, ApiClientConfig, RequestValue};

verus! {

/// A failure in the transport itself: the request never produced a
/// response envelope.  Cancellation and timeout surface here too.
#[derive(Clone, Debug, PartialEq)]
pub struct TransportError {
    pub message: String,
}

/// The raw response the transport hands back, owned transiently until
/// it is interpreted: a status code and the body text.
#[derive(Clone, Debug, PartialEq)]
pub struct ResponseEnvelope {
    pub status: u16,
    pub body: String,
}

/// The transport capability: executes one built request and returns
/// one raw response envelope, or fails.  The caller brings the
/// implementation; the client assumes nothing about it and interprets
/// every outcome it can produce.
pub trait Transport {
    /// Performs one request/response exchange.
    fn execute(&self, request: &RequestValue) -> Result<ResponseEnvelope, TransportError>;
}

/// A typed successful response, matching the descriptor's declared
/// response kind: one object, or a list of objects.
#[derive(Clone, Debug, PartialEq)]
pub enum ResponseValue {
    Single(JsonObject),
    List(Vec<JsonObject>),
}

/// A failed request.
#[derive(Clone, Debug, PartialEq)]
pub enum ApiError {
    /// The transport failed; its error is passed through unchanged.
    Transport(TransportError),
    /// The server answered with a failure status and a body that is
    /// not a structured error payload; both are preserved raw.
    Http { status: u16, body: String },
    /// The server answered with a structured error payload; its code
    /// and message are preserved verbatim.
    ApiDefined { code: String, message: String },
    /// The server reported success but the body does not parse as the
    /// declared response shape: the client and the server disagree
    /// about the schema.
    Decode,
}

/// Mathematical view of a successful response.
pub enum ResponseView {
    Single(Seq<FieldView>),
    List(Seq<Seq<FieldView>>),
}

/// Mathematical view of a request's outcome.
pub enum OutcomeView {
    Success(ResponseView),
    TransportFailure,
    HttpFailure { status: u16, body: Seq<char> },
    ApiFailure { code: Seq<char>, message: Seq<char> },
    DecodeFailure,
}

/// The outcome a typed result stands for.
pub open spec fn outcome_of(r: Result<ResponseValue, ApiError>) -> OutcomeView {
    match r {
        Ok(ResponseValue::Single(o)) => OutcomeView::Success(ResponseView::Single(o@)),
        Ok(ResponseValue::List(os)) => OutcomeView::Success(
            ResponseView::List(os@.map_values(|o: JsonObject| o@)),
        ),
        Err(ApiError::Transport(_)) => OutcomeView::TransportFailure,
        Err(ApiError::Http { status, body }) => OutcomeView::HttpFailure {
            status,
            body: body@,
        },
        Err(ApiError::ApiDefined { code, message }) => OutcomeView::ApiFailure {
            code: code@,
            message: message@,
        },
        Err(ApiError::Decode) => OutcomeView::DecodeFailure,
    }
}

/// A success status: any code in the 2xx range.
pub open spec fn is_success_status(status: u16) -> bool {
    200 <= status <= 299
}

/// The object a whole body text decodes to, when it is exactly one
/// rendered object.
pub open spec fn decoded_single(body: Seq<char>) -> Option<Seq<FieldView>> {
    match scan_object(body) {
        Some((fs, n)) => if n == body.len() {
            Some(fs)
        } else {
            None
        },
        None => None,
    }
}

/// The list a whole body text decodes to, when it is exactly one
/// rendered list of objects.
pub open spec fn decoded_list(body: Seq<char>) -> Option<Seq<Seq<FieldView>>> {
    match scan_array(body) {
        Some((os, n)) => if n == body.len() {
            Some(os)
        } else {
            None
        },
        None => None,
    }
}

/// The first value under `key` in the fields, front to back.
pub open spec fn field_lookup(fs: Seq<FieldView>, key: Seq<char>) -> Option<Seq<char>>
    decreases fs.len(),
{
    if fs.len() == 0 {
        None
    } else if fs[0].key == key {
        Some(fs[0].value)
    } else {
        field_lookup(fs.drop_first(), key)
    }
}

/// The structured error payload in a failure body, when there is one:
/// an object carrying `id` and `message` fields, read as the server's
/// error code and message.
pub open spec fn error_payload(body: Seq<char>) -> Option<(Seq<char>, Seq<char>)> {
    match decoded_single(body) {
        Some(fs) => match (field_lookup(fs, "id"@), field_lookup(fs, "message"@)) {
            (Some(code), Some(message)) => Some((code, message)),
            _ => None,
        },
        None => None,
    }
}

/// How the client reads one response envelope: a pure function of the
/// declared response kind, the status, and the body text.
///
/// A success status decodes the body as the declared shape, or fails
/// with a decode failure.  A failure status yields the server's own
/// structured error when the body carries one, else the raw status and
/// body.
pub open spec fn interpretation(kind: ResponseKind, status: u16, body: Seq<char>) -> OutcomeView {
    if is_success_status(status) {
        match kind {
            ResponseKind::Single => match decoded_single(body) {
                Some(fs) => OutcomeView::Success(ResponseView::Single(fs)),
                None => OutcomeView::DecodeFailure,
            },
            ResponseKind::List => match decoded_list(body) {
                Some(os) => OutcomeView::Success(ResponseView::List(os)),
                None => OutcomeView::DecodeFailure,
            },
        }
    } else {
        match error_payload(body) {
            Some(p) => OutcomeView::ApiFailure { code: p.0, message: p.1 },
            None => OutcomeView::HttpFailure { status, body },
        }
    }
}

/// Returns a copy of the first value under `key` in the object.
pub fn object_get(o: &JsonObject, key: &str) -> (r: Option<String>)
    ensures
        match r {
            Some(v) => field_lookup(o@, key@) == Some(v@),
            None => field_lookup(o@, key@) is None,
        },
{
    let k = String::from_str(key);
    let n: usize = o.fields.len();
    let mut i: usize = 0;
    proof {
        assert(o@.skip(0) =~= o@);
    }
    while i < n
        invariant
            n == o.fields.len(),
            i <= n,
            k@ == key@,
            field_lookup(o@, key@) == field_lookup(o@.skip(i as int), key@),
        decreases n - i,
    {
        proof {
            assert(o@.skip(i as int)[0] == o@[i as int]);
            assert(o@.skip(i as int).drop_first() =~= o@.skip(i + 1));
        }
        if o.fields[i].key == k {
            return Some(o.fields[i].value.clone());
        }
        i = i + 1;
    }
    proof {
        assert(o@.skip(n as int).len() == 0);
    }
    None
}

/// Reads one raw response envelope into the typed result, exactly as
/// `interpretation` says.
pub fn interpret_response(kind: ResponseKind, envelope: &ResponseEnvelope) -> (r: Result<
    ResponseValue,
    ApiError,
>)
    ensures
        outcome_of(r) == interpretation(kind, envelope.status, envelope.body@),
{
    let success = 200 <= envelope.status && envelope.status <= 299;
    if success {
        match kind {
            ResponseKind::Single => {
                match parse_object_text(envelope.body.as_str()) {
                    Some(o) => {
                        proof {
                            lemma_object_round_trip(o@);
                        }
                        Ok(ResponseValue::Single(o))
                    },
                    None => {
                        proof {
                            match scan_object(envelope.body@) {
                                Some(p) => {
                                    if p.1 == envelope.body@.len() {
                                        lemma_scan_object_exact(envelope.body@, p.0, p.1);
                                    }
                                },
                                None => {},
                            }
                        }
                        Err(ApiError::Decode)
                    },
                }
            },
            ResponseKind::List => {
                match parse_array_text(envelope.body.as_str()) {
                    Some(os) => {
                        proof {
                            lemma_array_round_trip(os@.map_values(|o: JsonObject| o@));
                        }
                        Ok(ResponseValue::List(os))
                    },
                    None => {
                        proof {
                            match scan_array(envelope.body@) {
                                Some(p) => {
                                    if p.1 == envelope.body@.len() {
                                        lemma_scan_array_exact(envelope.body@, p.0, p.1);
                                    }
                                },
                                None => {},
                            }
                        }
                        Err(ApiError::Decode)
                    },
                }
            },
        }
    } else {
        match parse_object_text(envelope.body.as_str()) {
            Some(o) => {
                proof {
                    lemma_object_round_trip(o@);
                }
                let code = object_get(&o, "id");
                let message = object_get(&o, "message");
                match (code, message) {
                    (Some(c), Some(m)) => Err(ApiError::ApiDefined { code: c, message: m }),
                    _ => Err(
                        ApiError::Http { status: envelope.status, body: envelope.body.clone() },
                    ),
                }
            },
            None => {
                proof {
                    match scan_object(envelope.body@) {
                        Some(p) => {
                            if p.1 == envelope.body@.len() {
                                lemma_scan_object_exact(envelope.body@, p.0, p.1);
                            }
                        },
                        None => {},
                    }
                }
                Err(ApiError::Http { status: envelope.status, body: envelope.body.clone() })
            },
        }
    }
}

/// The API client: immutable configuration plus the transport
/// capability, shared read-only by every request issued through it.
pub struct HttpApiClient<T: Transport> {
    pub config: ApiClientConfig,
    pub transport: T,
}

impl<T: Transport> HttpApiClient<T> {
    /// Builds a client from its configuration and transport.
    pub fn new(config: ApiClientConfig, transport: T) -> (r: HttpApiClient<T>)
        ensures
            r.config == config,
            r.transport == transport,
    {
        HttpApiClient { config, transport }
    }

    /// Executes one endpoint descriptor: builds its request, runs it
    /// through the transport once, and interprets the lone envelope.
    ///
    /// A transport failure is passed through as `ApiError::Transport`,
    /// unmasked.  Every other result is the `interpretation` of the
    /// one status and body the transport returned, under the
    /// descriptor's declared response kind.
    pub fn request<E: HerokuEndpoint>(&self, endpoint: &E) -> (r: Result<ResponseValue, ApiError>)
        ensures
            match r {
                Err(ApiError::Transport(_)) => true,
                _ => exists|status: u16, body: Seq<char>|
                    outcome_of(r) == #[trigger] interpretation(
                        endpoint.spec_response_kind(),
                        status,
                        body,
                    ),
            },
    {
        let built = build_request(&self.config, endpoint);
        let req = built.unwrap();
        match self.transport.execute(&req) {
            Ok(envelope) => {
                let r = interpret_response(endpoint.response_kind(), &envelope);
                proof {
                    assert(outcome_of(r) == interpretation(
                        endpoint.spec_response_kind(),
                        envelope.status,
                        envelope.body@,
                    ));
                }
                r
            },
            Err(e) => Err(ApiError::Transport(e)),
        }
    }
}

/// Law: a success response whose body is a rendered object is read as
/// exactly that object when one object is expected.
pub proof fn lemma_success_single_decodes(status: u16, fs: Seq<FieldView>)
    requires
        is_success_status(status),
    ensures
        interpretation(ResponseKind::Single, status, encoded_object(fs))
            == OutcomeView::Success(ResponseView::Single(fs)),
{
    lemma_object_round_trip(fs);
}

/// Law: a success response whose body is a rendered list is read as
/// exactly that list when a list is expected.
pub proof fn lemma_success_list_decodes(status: u16, os: Seq<Seq<FieldView>>)
    requires
        is_success_status(status),
    ensures
        interpretation(ResponseKind::List, status, encoded_array(os))
            == OutcomeView::Success(ResponseView::List(os)),
{
    lemma_array_round_trip(os);
}

/// Law: a failure response whose body carries the server's structured
/// error payload is read as that error, code and message verbatim,
/// whatever response shape was expected.
pub proof fn lemma_failure_structured(
    kind: ResponseKind,
    status: u16,
    fs: Seq<FieldView>,
    code: Seq<char>,
    message: Seq<char>,
)
    requires
        !is_success_status(status),
        field_lookup(fs, "id"@) == Some(code),
        field_lookup(fs, "message"@) == Some(message),
    ensures
        interpretation(kind, status, encoded_object(fs)) == (OutcomeView::ApiFailure {
            code,
            message,
        }),
{
    lemma_object_round_trip(fs);
}

/// Law: interpreting a response is deterministic.  Two requests whose
/// envelopes carry the same status and body, read under the same
/// declared response kind, produce equal outcomes; so repeating a
/// request against an unchanged server yields structurally equal
/// results.
pub proof fn lemma_interpretation_deterministic(
    kind: ResponseKind,
    status: u16,
    body: Seq<char>,
    o1: OutcomeView,
    o2: OutcomeView,
)
    requires
        o1 == interpretation(kind, status, body),
        o2 == interpretation(kind, status, body),
    ensures
        o1 == o2,
{
}

} // verus!
