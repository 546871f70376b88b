use better_uptime::{
    DecodeError, Error, Incident, IncidentRequest, Method, Reply, TransportError, Uptime,
};

fn client() -> Uptime {
    Uptime { token: "secret-token".to_string() }
}

fn answered(status: u16, body: &str) -> Reply {
    Reply::Answered { status, body: body.as_bytes().to_vec() }
}

fn sample_request() -> IncidentRequest {
    IncidentRequest {
        requester_email: "siong@raccoons.dev".to_string(),
        name: "Test".to_string(),
        summary: "Testing only".to_string(),
        description: "Testing only".to_string(),
        ..IncidentRequest::default()
    }
}

#[test]
fn create_incident_returns_the_incident_of_a_success_envelope() {
    let reply = answered(200, r#"{"data":{"id":"abc123"}}"#);
    let result = Uptime::create_incident_result(&reply);
    assert_eq!(result, Ok(Incident { id: "abc123".to_string() }));
}

#[test]
fn create_incident_fails_with_the_message_of_an_error_envelope() {
    let reply = answered(200, r#"{"error":"invalid token"}"#);
    let result = Uptime::create_incident_result(&reply);
    assert_eq!(result, Err(Error::UptimeApi("invalid token".to_string())));
}

#[test]
fn create_incident_fails_on_status_500_whatever_the_body() {
    let bodies = [
        "",
        "Internal Server Error",
        r#"{"error":"invalid token"}"#,
        r#"{"data":{"id":"abc123"}}"#,
        r#"{"foo":"bar"}"#,
    ];
    for body in bodies {
        let result = Uptime::create_incident_result(&answered(500, body));
        assert_eq!(result, Err(Error::Reqwest(TransportError::Status(500))));
    }
}

#[test]
fn create_incident_fails_to_decode_json_of_neither_shape() {
    let reply = answered(200, r#"{"foo":"bar"}"#);
    let result = Uptime::create_incident_result(&reply);
    assert_eq!(result, Err(Error::SerdeJson(DecodeError::Shape)));
}

#[test]
fn heartbeat_succeeds_on_status_200_with_an_empty_body() {
    let request = client().heartbeat("XXX".to_string());
    assert_eq!(request.method, Method::Get);
    assert_eq!(request.url, "https://uptime.betterstack.com/api/v1/heartbeat/XXX");
    assert!(request.url.ends_with("/v1/heartbeat/XXX"));
    assert!(request.headers.is_empty());
    assert_eq!(request.body, None);
    assert_eq!(Uptime::heartbeat_result(&answered(200, "")), Ok(()));
}

#[test]
fn heartbeat_fails_on_status_404() {
    let result = Uptime::heartbeat_result(&answered(404, ""));
    assert_eq!(result, Err(Error::Reqwest(TransportError::Status(404))));
}

#[test]
fn heartbeat_sends_no_token() {
    let request = client().heartbeat("XXX".to_string());
    assert!(request.headers.is_empty());
    assert!(!request.url.contains("secret-token"));
}

#[test]
fn heartbeat_takes_the_identifier_as_it_is() {
    let request = client().heartbeat("a b/c?d".to_string());
    assert_eq!(request.url, "https://uptime.betterstack.com/api/v1/heartbeat/a b/c?d");
    let empty = client().heartbeat(String::new());
    assert_eq!(empty.url, "https://uptime.betterstack.com/api/v1/heartbeat/");
}

#[test]
fn heartbeat_reads_no_body() {
    assert_eq!(Uptime::heartbeat_result(&answered(200, "not json at all")), Ok(()));
    assert_eq!(Uptime::heartbeat_result(&answered(204, r#"{"error":"x"}"#)), Ok(()));
    assert_eq!(
        Uptime::heartbeat_result(&answered(503, r#"{"data":{"id":"1"}}"#)),
        Err(Error::Reqwest(TransportError::Status(503)))
    );
}

#[test]
fn success_is_a_status_from_200_to_299() {
    assert_eq!(
        Uptime::heartbeat_result(&answered(199, "")),
        Err(Error::Reqwest(TransportError::Status(199)))
    );
    assert_eq!(Uptime::heartbeat_result(&answered(200, "")), Ok(()));
    assert_eq!(Uptime::heartbeat_result(&answered(299, "")), Ok(()));
    assert_eq!(
        Uptime::heartbeat_result(&answered(300, "")),
        Err(Error::Reqwest(TransportError::Status(300)))
    );
    assert_eq!(
        Uptime::heartbeat_result(&answered(0, "")),
        Err(Error::Reqwest(TransportError::Status(0)))
    );
    assert_eq!(
        Uptime::heartbeat_result(&answered(u16::MAX, "")),
        Err(Error::Reqwest(TransportError::Status(u16::MAX)))
    );
    let created = r#"{"data":{"id":"7"}}"#;
    assert_eq!(
        Uptime::create_incident_result(&answered(199, created)),
        Err(Error::Reqwest(TransportError::Status(199)))
    );
    assert_eq!(
        Uptime::create_incident_result(&answered(201, created)),
        Ok(Incident { id: "7".to_string() })
    );
    assert_eq!(
        Uptime::create_incident_result(&answered(299, created)),
        Ok(Incident { id: "7".to_string() })
    );
    assert_eq!(
        Uptime::create_incident_result(&answered(300, created)),
        Err(Error::Reqwest(TransportError::Status(300)))
    );
}

#[test]
fn a_failed_transport_is_a_transport_error_with_its_cause() {
    let reply = Reply::Failed("dns error: no such host".to_string());
    assert_eq!(
        Uptime::heartbeat_result(&reply),
        Err(Error::Reqwest(TransportError::Connection("dns error: no such host".to_string())))
    );
    assert_eq!(
        Uptime::create_incident_result(&reply),
        Err(Error::Reqwest(TransportError::Connection("dns error: no such host".to_string())))
    );
}

#[test]
fn a_body_that_is_not_json_is_a_syntax_error() {
    for body in ["", "<html></html>", r#"{"data":"#, r#"{"data":{"id":"1"}} trailing"#] {
        match Uptime::create_incident_result(&answered(200, body)) {
            Err(Error::SerdeJson(DecodeError::Syntax(message))) => {
                assert!(!message.is_empty());
                assert!(message.contains("line 1"));
            }
            other => panic!("{:?}", other),
        }
    }
    assert_eq!(
        Uptime::create_incident_result(&answered(200, "")),
        Err(Error::SerdeJson(DecodeError::Syntax(
            "EOF while parsing a value at line 1 column 0".to_string()
        )))
    );
}

#[test]
fn an_error_envelope_goes_before_a_success_envelope() {
    let reply = answered(200, r#"{"data":{"id":"abc123"},"error":"quota exceeded"}"#);
    assert_eq!(
        Uptime::create_incident_result(&reply),
        Err(Error::UptimeApi("quota exceeded".to_string()))
    );
}

#[test]
fn an_error_member_that_is_no_text_is_no_error_envelope() {
    assert_eq!(
        Uptime::create_incident_result(&answered(200, r#"{"error":null,"data":{"id":"9"}}"#)),
        Ok(Incident { id: "9".to_string() })
    );
    assert_eq!(
        Uptime::create_incident_result(&answered(200, r#"{"error":{"message":"x"}}"#)),
        Err(Error::SerdeJson(DecodeError::Shape))
    );
    assert_eq!(
        Uptime::create_incident_result(&answered(200, r#"{"error":17}"#)),
        Err(Error::SerdeJson(DecodeError::Shape))
    );
}

#[test]
fn members_beside_those_of_an_envelope_are_passed_over() {
    assert_eq!(
        Uptime::create_incident_result(&answered(
            200,
            r#"{"meta":[1,2.5,-3],"data":{"type":"incident","id":"42","attributes":{"name":null}}}"#
        )),
        Ok(Incident { id: "42".to_string() })
    );
    assert_eq!(
        Uptime::create_incident_result(&answered(200, r#"{"status":401,"error":"no"}"#)),
        Err(Error::UptimeApi("no".to_string()))
    );
}

#[test]
fn a_success_envelope_needs_an_object_with_a_text_id() {
    let bodies = [
        r#"{"data":null}"#,
        r#"{"data":"abc123"}"#,
        r#"{"data":{}}"#,
        r#"{"data":{"id":123}}"#,
        r#"{"data":{"id":null}}"#,
        r#"{"data":[{"id":"abc123"}]}"#,
        r#"{"id":"abc123"}"#,
        r#"{}"#,
        r#"[]"#,
        r#"null"#,
        r#""error""#,
        r#"42"#,
        r#"true"#,
    ];
    for body in bodies {
        assert_eq!(
            Uptime::create_incident_result(&answered(200, body)),
            Err(Error::SerdeJson(DecodeError::Shape)),
            "{}",
            body
        );
    }
}

#[test]
fn texts_in_envelopes_are_unescaped() {
    assert_eq!(
        Uptime::create_incident_result(&answered(200, r#"{"error":"line\nbreak \"quoted\" \u00e9"}"#)),
        Err(Error::UptimeApi("line\nbreak \"quoted\" \u{e9}".to_string()))
    );
    assert_eq!(
        Uptime::create_incident_result(&answered(200, r#"{"data":{"id":""}}"#)),
        Ok(Incident { id: String::new() })
    );
}

#[test]
fn create_incident_posts_json_with_the_bearer_token() {
    let request = client().create_incident(sample_request());
    assert_eq!(request.method, Method::Post);
    assert_eq!(request.url, "https://uptime.betterstack.com/api/v2/incidents");
    assert_eq!(request.headers.len(), 2);
    assert_eq!(request.headers[0].name, "Content-Type");
    assert_eq!(request.headers[0].value, "application/json");
    assert_eq!(request.headers[1].name, "Authorization");
    assert_eq!(request.headers[1].value, "Bearer secret-token");
    assert_eq!(
        request.body,
        Some(
            concat_all(&[
                r#"{"requester_email":"siong@raccoons.dev","name":"Test","#,
                r#""summary":"Testing only","description":"Testing only"}"#,
            ])
        )
    );
}

fn concat_all(parts: &[&str]) -> String {
    parts.concat()
}

#[test]
fn create_incident_with_an_empty_token_still_sends_the_header() {
    let uptime = Uptime { token: String::new() };
    let request = uptime.create_incident(sample_request());
    assert_eq!(request.headers[1].name, "Authorization");
    assert_eq!(request.headers[1].value, "Bearer ");
}
