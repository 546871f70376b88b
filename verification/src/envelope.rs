//! The two envelopes in which the service answers, and what a decoded body
//! is taken for.

use crate::error::{result_view, DecodeError, Error, ErrorView};
use crate::incident::{Incident, IncidentView};
use crate::json::{json_model, member, text_of, Json};
use vstd::prelude::*;

verus! {

/// The text under `key`, where the document is an object whose member of
/// that name is a text.
pub open spec fn text_member(document: Json, key: Seq<char>) -> Option<Seq<char>> {
    match document.member(key) {
        Some(Json::Text(text)) => Some(text),
        _ => None,
    }
}

/// The message of an error envelope: an object whose member `error` is a
/// text. Other members are passed over.
pub open spec fn error_message(document: Json) -> Option<Seq<char>> {
    text_member(document, "error"@)
}

/// The incident of a success envelope: an object whose member `data` is an
/// object whose member `id` is a text. Other members are passed over.
pub open spec fn enveloped_incident(document: Json) -> Option<IncidentView> {
    match document.member("data"@) {
        Some(data) => match text_member(data, "id"@) {
            Some(id) => Some(IncidentView { id }),
            None => None,
        },
        None => None,
    }
}

/// What a decoded body is taken for. The error envelope is tried first;
/// then the success envelope; a document that is neither is an error of its
/// own.
pub open spec fn envelope_outcome(document: Json) -> Result<IncidentView, ErrorView> {
    match error_message(document) {
        Some(message) => Err(ErrorView::Api(message)),
        None => match enveloped_incident(document) {
            Some(incident) => Ok(incident),
            None => Err(ErrorView::Shape),
        },
    }
}

/// Every document is taken for exactly one of three things: an error of the
/// service where it is an error envelope, whatever else it holds; an
/// incident where it is a success envelope and no error envelope; and a
/// decoding error where it is neither.
pub proof fn lemma_envelope_outcome_cases(document: Json)
    ensures
        error_message(document) is Some ==> envelope_outcome(document) == Err::<
            IncidentView,
            ErrorView,
        >(ErrorView::Api(error_message(document)->0)),
        error_message(document) is None && enveloped_incident(document) is Some
            ==> envelope_outcome(document) == Ok::<IncidentView, ErrorView>(
            enveloped_incident(document)->0,
        ),
        error_message(document) is None && enveloped_incident(document) is None
            ==> envelope_outcome(document) == Err::<IncidentView, ErrorView>(ErrorView::Shape),
        envelope_outcome(document) is Ok <==> error_message(document) is None
            && enveloped_incident(document) is Some,
{
}

/// The text under `key` in `value`, as [`text_member`] defines it.
fn read_text_member(value: &serde_json::Value, key: &str) -> (found: Option<String>)
    ensures
        match found {
            Some(text) => text_member(json_model(*value), key@) == Some(text@),
            None => text_member(json_model(*value), key@) is None,
        },
{
    match member(value, key) {
        Some(inner) => match text_of(inner) {
            Some(text) => Some(text.to_owned()),
            None => None,
        },
        None => None,
    }
}

/// The incident in `value`, where `value` is a success envelope.
fn read_enveloped_incident(value: &serde_json::Value) -> (found: Option<Incident>)
    ensures
        match found {
            Some(incident) => enveloped_incident(json_model(*value)) == Some(incident@),
            None => enveloped_incident(json_model(*value)) is None,
        },
{
    match member(value, "data") {
        Some(data) => match read_text_member(data, "id") {
            Some(id) => Some(Incident { id }),
            None => None,
        },
        None => None,
    }
}

/// Takes the decoded body of a reply for what it is: an error of the service
/// where it is an error envelope, else the incident where it is a success
/// envelope, else a decoding error.
pub fn maybe_uptime_api_error(value: serde_json::Value) -> (result: Result<Incident, Error>)
    ensures
        result_view(result) == envelope_outcome(json_model(value)),
{
    match read_text_member(&value, "error") {
        Some(message) => Err(Error::UptimeApi(message)),
        None => match read_enveloped_incident(&value) {
            Some(incident) => Ok(incident),
            None => Err(Error::SerdeJson(DecodeError::Shape)),
        },
    }
}

} // verus!
