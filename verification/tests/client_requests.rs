use heroku_rs::client::{
    interpret_response, object_get, ApiError, HttpApiClient, ResponseEnvelope, ResponseValue,
    Transport, TransportError,
};
use heroku_rs::endpoint::ResponseKind;
use heroku_rs::json::{JsonField, JsonObject};
use heroku_rs::request::{ApiClientConfig, RequestValue};
use heroku_rs::teams::{TeamDetails, TeamList};

fn config() -> ApiClientConfig {
    ApiClientConfig {
        base_url: String::from("https://api.example.com/"),
        token: String::from("API_KEY"),
        user_agent: String::from("heroku_rs"),
    }
}

/// A transport that always answers with one fixed status and body.
struct ScriptedTransport {
    status: u16,
    body: String,
}

impl Transport for ScriptedTransport {
    fn execute(&self, _request: &RequestValue) -> Result<ResponseEnvelope, TransportError> {
        Ok(ResponseEnvelope { status: self.status, body: self.body.clone() })
    }
}

/// A transport that never reaches the server.
struct RefusedTransport {}

impl Transport for RefusedTransport {
    fn execute(&self, _request: &RequestValue) -> Result<ResponseEnvelope, TransportError> {
        Err(TransportError { message: String::from("connection refused") })
    }
}

fn scripted(status: u16, body: &str) -> HttpApiClient<ScriptedTransport> {
    HttpApiClient::new(config(), ScriptedTransport { status, body: String::from(body) })
}

fn field(key: &str, value: &str) -> JsonField {
    JsonField { key: String::from(key), value: String::from(value) }
}

#[test]
fn success_single_object() {
    let client = scripted(200, "{\"id\":\"abc\",\"name\":\"t1\"}");
    let r = client.request(&TeamDetails::new("TEAM_ID"));
    let expected = ResponseValue::Single(JsonObject {
        fields: vec![field("id", "abc"), field("name", "t1")],
    });
    assert_eq!(r, Ok(expected));
}

#[test]
fn success_list_of_objects() {
    let client = scripted(200, "[{\"id\":\"1\",\"name\":\"a\"},{\"id\":\"2\",\"name\":\"b\"}]");
    let r = client.request(&TeamList::new());
    let expected = ResponseValue::List(vec![
        JsonObject { fields: vec![field("id", "1"), field("name", "a")] },
        JsonObject { fields: vec![field("id", "2"), field("name", "b")] },
    ]);
    assert_eq!(r, Ok(expected));
}

#[test]
fn structured_api_error() {
    let client = scripted(404, "{\"id\":\"not_found\",\"message\":\"Couldn't find that team.\"}");
    let r = client.request(&TeamDetails::new("TEAM_ID"));
    assert_eq!(
        r,
        Err(ApiError::ApiDefined {
            code: String::from("not_found"),
            message: String::from("Couldn't find that team."),
        })
    );
}

#[test]
fn decode_failure_on_mismatched_body() {
    let client = scripted(200, "not json at all");
    let r = client.request(&TeamDetails::new("TEAM_ID"));
    assert_eq!(r, Err(ApiError::Decode));
}

#[test]
fn decode_failure_on_wrong_shape() {
    // The descriptor expects a list; the server sent one object.
    let client = scripted(200, "{\"id\":\"abc\"}");
    let r = client.request(&TeamList::new());
    assert_eq!(r, Err(ApiError::Decode));
}

#[test]
fn transport_failure_is_passed_through() {
    let client = HttpApiClient::new(config(), RefusedTransport {});
    let r = client.request(&TeamDetails::new("TEAM_ID"));
    assert_eq!(
        r,
        Err(ApiError::Transport(TransportError { message: String::from("connection refused") }))
    );
}

#[test]
fn raw_http_error_when_body_is_not_structured() {
    let client = scripted(500, "oops");
    let r = client.request(&TeamDetails::new("TEAM_ID"));
    assert_eq!(r, Err(ApiError::Http { status: 500, body: String::from("oops") }));
}

#[test]
fn raw_http_error_when_payload_lacks_a_message() {
    let client = scripted(404, "{\"id\":\"not_found\"}");
    let r = client.request(&TeamDetails::new("TEAM_ID"));
    assert_eq!(
        r,
        Err(ApiError::Http { status: 404, body: String::from("{\"id\":\"not_found\"}") })
    );
}

#[test]
fn repeated_requests_agree() {
    let client = scripted(200, "{\"id\":\"abc\",\"name\":\"t1\"}");
    let d = TeamDetails::new("TEAM_ID");
    let first = client.request(&d);
    let second = client.request(&d);
    assert_eq!(first, second);
}

#[test]
fn interpret_reads_every_success_status() {
    let envelope = ResponseEnvelope { status: 299, body: String::from("{}") };
    let r = interpret_response(ResponseKind::Single, &envelope);
    assert_eq!(r, Ok(ResponseValue::Single(JsonObject { fields: vec![] })));
    let envelope = ResponseEnvelope { status: 300, body: String::from("{}") };
    let r = interpret_response(ResponseKind::Single, &envelope);
    assert_eq!(r, Err(ApiError::Http { status: 300, body: String::from("{}") }));
}

#[test]
fn object_get_finds_the_first_match() {
    let o = JsonObject { fields: vec![field("a", "1"), field("b", "2"), field("a", "3")] };
    assert_eq!(object_get(&o, "a"), Some(String::from("1")));
    assert_eq!(object_get(&o, "b"), Some(String::from("2")));
    assert_eq!(object_get(&o, "c"), None);
}
