use heroku_rs::endpoint::{HerokuEndpoint, Method};
use heroku_rs::json::{parse_object_text, JsonField, JsonObject};
use heroku_rs::request::{build_request, serialize_payload, ApiClientConfig, RequestValue};
use heroku_rs::teams::TeamCreate;

fn config() -> ApiClientConfig {
    ApiClientConfig {
        base_url: String::from("https://api.example.com/"),
        token: String::from("API_KEY"),
        user_agent: String::from("heroku_rs"),
    }
}

#[test]
fn get_request_against_base_url() {
    let cfg = config();
    let d = heroku_rs::teams::TeamDetails::new("TEAM_ID");
    let req: RequestValue = build_request(&cfg, &d).expect("building cannot fail");
    assert_eq!(req.method, Method::Get);
    assert_eq!(req.url, "https://api.example.com/teams/TEAM_ID");
    assert!(req.body.is_none());
    assert_eq!(req.headers.len(), 2);
    assert_eq!(req.headers[0].name, "Authorization");
    assert_eq!(req.headers[0].value, "Bearer API_KEY");
    assert_eq!(req.headers[1].name, "User-Agent");
    assert_eq!(req.headers[1].value, "heroku_rs");
}

#[test]
fn post_request_carries_serialized_body() {
    let cfg = config();
    let d = TeamCreate::new("t1");
    let req = build_request(&cfg, &d).expect("building cannot fail");
    assert_eq!(req.method, Method::Post);
    assert_eq!(req.url, "https://api.example.com/teams");
    assert_eq!(req.body.as_deref(), Some("{\"name\":\"t1\"}"));
    assert_eq!(req.headers.len(), 4);
    assert_eq!(req.headers[2].name, "Content-Type");
    assert_eq!(req.headers[2].value, "application/json");
    assert_eq!(req.headers[3].name, "Content-Length");
    assert_eq!(req.headers[3].value, "13");
}

#[test]
fn built_body_round_trips_to_the_payload() {
    let cfg = config();
    let d = TeamCreate::new("a \"quoted\" team");
    let req = build_request(&cfg, &d).expect("building cannot fail");
    let body = req.body.expect("a create descriptor has a body");
    let parsed = parse_object_text(&body).expect("the built body parses back");
    assert_eq!(parsed, d.body().expect("payload"));
}

#[test]
fn serialize_payload_never_fails() {
    let payload = JsonObject {
        fields: vec![JsonField { key: String::from("k\\"), value: String::from("v\"") }],
    };
    let text = serialize_payload(&payload).expect("every payload has a wire form");
    assert_eq!(parse_object_text(&text), Some(payload));
}

#[test]
fn base_url_is_prefixed_once() {
    let cfg = config();
    let d = heroku_rs::teams::TeamDetails::new("TEAM_ID");
    let req = build_request(&cfg, &d).expect("building cannot fail");
    assert!(req.url.starts_with("https://api.example.com/"));
    assert_eq!(req.url.matches("https://api.example.com/").count(), 1);
}
