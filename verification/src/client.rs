//! The two operations of the service: a heartbeat, and the creation of an
//! incident. Each is a request to send and a reading of the reply.

use crate::envelope::{
    enveloped_incident, envelope_outcome, error_message, maybe_uptime_api_error,
};
use crate::error::{result_view, DecodeError, Error, ErrorView, TransportError};
use crate::http::{
    answered, is_success, status_is_success, Header, Method, Reply, ReplyView, Request,
    RequestView,
};
use crate::incident::{Incident, IncidentRequest, IncidentView};
use crate::json::{json_parse, json_text, parse, to_text, Json};
use vstd::prelude::*;

verus! {

/// Where the service is reached.
pub const API_URL: &'static str = "https://uptime.betterstack.com/api";

/// The path of the heartbeat endpoint, up to the identifier.
pub const HEARTBEAT_PATH: &'static str = "/v1/heartbeat/";

/// The path of the endpoint that creates incidents.
pub const INCIDENTS_PATH: &'static str = "/v2/incidents";

/// The credential with which the authenticated calls are made.
pub struct Uptime {
    pub token: String,
}

/// The request that pings the heartbeat `identifier`: a `GET` without
/// headers and without a body. The identifier goes into the URL as it is.
pub open spec fn heartbeat_request(identifier: Seq<char>) -> RequestView {
    RequestView {
        method: Method::Get,
        url: API_URL@ + HEARTBEAT_PATH@ + identifier,
        headers: Seq::empty(),
        body: None,
    }
}

/// The request that creates an incident: a `POST` of the incident's JSON
/// object, with the token as a bearer credential.
pub open spec fn create_incident_request(token: Seq<char>, incident: IncidentRequest) -> RequestView {
    RequestView {
        method: Method::Post,
        url: API_URL@ + INCIDENTS_PATH@,
        headers: seq![
            ("Content-Type"@, "application/json"@),
            ("Authorization"@, "Bearer "@ + token),
        ],
        body: Some(json_text(Json::Object(incident.members()))),
    }
}

/// What a heartbeat returns for a reply: success on a success status, and a
/// transport error otherwise. The body is not looked at.
pub open spec fn heartbeat_outcome(reply: ReplyView) -> Result<(), ErrorView> {
    match reply {
        ReplyView::Failed(cause) => Err(ErrorView::Connection(cause)),
        ReplyView::Answered { status, body } => if is_success(status) {
            Ok(())
        } else {
            Err(ErrorView::Status(status))
        },
    }
}

/// What the creation of an incident returns for a reply. A failed transport
/// and a status that is not a success are transport errors, whatever the
/// body holds. On a success status the body is parsed as JSON and taken for
/// what [`envelope_outcome`] says.
pub open spec fn create_incident_outcome(reply: ReplyView) -> Result<IncidentView, ErrorView> {
    match reply {
        ReplyView::Failed(cause) => Err(ErrorView::Connection(cause)),
        ReplyView::Answered { status, body } => if !is_success(status) {
            Err(ErrorView::Status(status))
        } else {
            match json_parse(body) {
                Ok(document) => envelope_outcome(document),
                Err(message) => Err(ErrorView::Syntax(message)),
            }
        },
    }
}

/// A status that is not a success decides alone: whatever the body holds,
/// both operations fail with a transport error that carries the status.
pub proof fn lemma_error_status_decides(status: u16, body: Seq<u8>)
    requires
        !is_success(status),
    ensures
        heartbeat_outcome(answered(status, body)) == Err::<(), ErrorView>(
            ErrorView::Status(status),
        ),
        create_incident_outcome(answered(status, body)) == Err::<IncidentView, ErrorView>(
            ErrorView::Status(status),
        ),
{
}

/// A heartbeat reads no body: it succeeds exactly on a success status, and
/// two replies with the same status come to the same.
pub proof fn lemma_heartbeat_reads_no_body(status: u16, body: Seq<u8>, other: Seq<u8>)
    ensures
        heartbeat_outcome(answered(status, body)) is Ok <==> is_success(status),
        heartbeat_outcome(answered(status, body)) == heartbeat_outcome(answered(status, other)),
{
}

/// A heartbeat fails with a transport error or not at all.
pub proof fn lemma_heartbeat_fails_in_transport(reply: ReplyView)
    ensures
        heartbeat_outcome(reply) is Err ==> (heartbeat_outcome(reply)->Err_0 is Connection
            || heartbeat_outcome(reply)->Err_0 is Status),
{
}

/// An incident is returned exactly where the transport brought a reply with
/// a success status whose body is JSON, is no error envelope and is a
/// success envelope; the incident is the one in the envelope.
pub proof fn lemma_incident_created(reply: ReplyView, incident: IncidentView)
    ensures
        create_incident_outcome(reply) == Ok::<IncidentView, ErrorView>(incident) <==> (
        reply is Answered && is_success(reply->status) && json_parse(reply->body) is Ok
            && error_message(json_parse(reply->body)->Ok_0) is None && enveloped_incident(
            json_parse(reply->body)->Ok_0,
        ) == Some(incident)),
{
}

/// Each error of the creation of an incident, with the replies on which it
/// comes: a failed transport; a status that is not a success; on a success
/// status, a body that is not JSON, an error envelope, and JSON that is
/// neither envelope.
pub proof fn lemma_incident_errors(reply: ReplyView, text: Seq<char>, code: u16)
    ensures
        create_incident_outcome(reply) == Err::<IncidentView, ErrorView>(
            ErrorView::Connection(text),
        ) <==> reply == ReplyView::Failed(text),
        create_incident_outcome(reply) == Err::<IncidentView, ErrorView>(ErrorView::Status(code))
            <==> (reply is Answered && reply->status == code && !is_success(code)),
        create_incident_outcome(reply) == Err::<IncidentView, ErrorView>(ErrorView::Syntax(text))
            <==> (reply is Answered && is_success(reply->status) && json_parse(reply->body)
            == Err::<Json, Seq<char>>(text)),
        create_incident_outcome(reply) == Err::<IncidentView, ErrorView>(ErrorView::Api(text))
            <==> (reply is Answered && is_success(reply->status) && json_parse(reply->body) is Ok
            && error_message(json_parse(reply->body)->Ok_0) == Some(text)),
        create_incident_outcome(reply) == Err::<IncidentView, ErrorView>(ErrorView::Shape) <==> (
        reply is Answered && is_success(reply->status) && json_parse(reply->body) is Ok
            && error_message(json_parse(reply->body)->Ok_0) is None && enveloped_incident(
            json_parse(reply->body)->Ok_0,
        ) is None),
{
}

impl Uptime {
    /// Ping the Uptime API to make sure that the service is up:
    /// <https://betterstack.com/docs/uptime/cron-and-heartbeat-monitor/>.
    ///
    /// Returns the request to send. What the ping comes to is read off the
    /// reply by [`Uptime::heartbeat_result`].
    pub fn heartbeat(&self, identifier: String) -> (request: Request)
        ensures
            request@ == heartbeat_request(identifier@),
    {
        let url = String::from_str(API_URL).concat(HEARTBEAT_PATH).concat(identifier.as_str());
        let request = Request { method: Method::Get, url, headers: Vec::new(), body: None };
        assert(request@.headers =~= Seq::empty());
        request
    }

    /// Reads the reply to a heartbeat.
    pub fn heartbeat_result(reply: &Reply) -> (result: Result<(), Error>)
        ensures
            result_view(result) == heartbeat_outcome(reply@),
    {
        match reply {
            Reply::Failed(cause) => Err(Error::Reqwest(TransportError::Connection(cause.clone()))),
            Reply::Answered { status, body: _ } => if status_is_success(*status) {
                Ok(())
            } else {
                Err(Error::Reqwest(TransportError::Status(*status)))
            },
        }
    }

    /// Create a new incident:
    /// <https://betterstack.com/docs/uptime/api/create-a-new-incident/>.
    ///
    /// Returns the request to send. The incident that was created, or the
    /// error, is read off the reply by [`Uptime::create_incident_result`].
    pub fn create_incident(&self, request: IncidentRequest) -> (sent: Request)
        ensures
            sent@ == create_incident_request(self.token@, request),
    {
        let url = String::from_str(API_URL).concat(INCIDENTS_PATH);
        let body = to_text(&request.to_json());
        let mut headers: Vec<Header> = Vec::new();
        headers.push(
            Header {
                name: String::from_str("Content-Type"),
                value: String::from_str("application/json"),
            },
        );
        headers.push(
            Header {
                name: String::from_str("Authorization"),
                value: String::from_str("Bearer ").concat(self.token.as_str()),
            },
        );
        let sent = Request { method: Method::Post, url, headers, body: Some(body) };
        assert(sent@.headers =~= create_incident_request(self.token@, request).headers);
        sent
    }

    /// Reads the reply to the creation of an incident.
    pub fn create_incident_result(reply: &Reply) -> (result: Result<Incident, Error>)
        ensures
            result_view(result) == create_incident_outcome(reply@),
    {
        match reply {
            Reply::Failed(cause) => Err(Error::Reqwest(TransportError::Connection(cause.clone()))),
            Reply::Answered { status, body } => if !status_is_success(*status) {
                Err(Error::Reqwest(TransportError::Status(*status)))
            } else {
                match parse(body.as_slice()) {
                    Ok(value) => maybe_uptime_api_error(value),
                    Err(message) => Err(Error::SerdeJson(DecodeError::Syntax(message))),
                }
            },
        }
    }
}

} // verus!
