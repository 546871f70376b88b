//! Incidents: what is sent to create one, and what comes back.

use crate::json::{
    count_value, empty_object, flag_value, has_key, json_model, lemma_lookup_has_key,
    lemma_lookup_push, lookup, put, text_value, Json, JsonNumber,
};
use vstd::prelude::*;

verus! {

/// What is sent to create an incident. The optional fields are left out of
/// the JSON object where they are `None`.
#[derive(Debug)]
pub struct IncidentRequest {
    pub requester_email: String,
    pub name: String,
    pub summary: String,
    pub description: String,
    pub call: Option<bool>,
    pub sms: Option<bool>,
    pub email: Option<bool>,
    pub push: Option<bool>,
    /// Seconds to wait before the team is alerted.
    pub team_wait: Option<u64>,
    pub poliy_id: Option<String>,
}

/// An incident that the service has created.
#[derive(Clone, Debug, PartialEq, Eq)]
pub struct Incident {
    pub id: String,
}

/// An [`Incident`] with its id as a sequence of characters.
pub struct IncidentView {
    pub id: Seq<char>,
}

impl View for Incident {
    type V = IncidentView;

    open spec fn view(&self) -> IncidentView {
        IncidentView { id: self.id@ }
    }
}

/// The members `members`, and after them the member `key` where there is a
/// value for it.
pub open spec fn with_optional(
    members: Seq<(Seq<char>, Json)>,
    key: Seq<char>,
    value: Option<Json>,
) -> Seq<(Seq<char>, Json)> {
    match value {
        Some(present) => members.push((key, present)),
        None => members,
    }
}

/// An optional flag as an optional JSON value.
pub open spec fn flag_json(flag: Option<bool>) -> Option<Json> {
    match flag {
        Some(set) => Some(Json::Bool(set)),
        None => None,
    }
}

/// An optional count as an optional JSON value.
pub open spec fn count_json(count: Option<u64>) -> Option<Json> {
    match count {
        Some(n) => Some(Json::Number(JsonNumber::Unsigned(n))),
        None => None,
    }
}

/// An optional text as an optional JSON value.
pub open spec fn text_json(text: Option<String>) -> Option<Json> {
    match text {
        Some(present) => Some(Json::Text(present@)),
        None => None,
    }
}

impl IncidentRequest {
    /// The members of the JSON object that stands for the request, in the
    /// order in which they are written: the four required fields, then each
    /// optional field that is set.
    pub open spec fn members(&self) -> Seq<(Seq<char>, Json)> {
        let required = Seq::<(Seq<char>, Json)>::empty().push(
            ("requester_email"@, Json::Text(self.requester_email@)),
        ).push(("name"@, Json::Text(self.name@))).push(
            ("summary"@, Json::Text(self.summary@)),
        ).push(("description"@, Json::Text(self.description@)));
        let calls = with_optional(required, "call"@, flag_json(self.call));
        let texts = with_optional(calls, "sms"@, flag_json(self.sms));
        let mails = with_optional(texts, "email"@, flag_json(self.email));
        let pushes = with_optional(mails, "push"@, flag_json(self.push));
        let waits = with_optional(pushes, "team_wait"@, count_json(self.team_wait));
        with_optional(waits, "poliy_id"@, text_json(self.poliy_id))
    }

    /// The request as a JSON object.
    pub fn to_json(&self) -> (value: serde_json::Value)
        ensures
            json_model(value) == Json::Object(self.members()),
    {
        proof {
            lemma_field_names_differ();
        }
        let mut object = empty_object();
        put(&mut object, "requester_email", text_value(self.requester_email.as_str()));
        put(&mut object, "name", text_value(self.name.as_str()));
        put(&mut object, "summary", text_value(self.summary.as_str()));
        put(&mut object, "description", text_value(self.description.as_str()));
        if let Some(flag) = self.call {
            put(&mut object, "call", flag_value(flag));
        }
        if let Some(flag) = self.sms {
            put(&mut object, "sms", flag_value(flag));
        }
        if let Some(flag) = self.email {
            put(&mut object, "email", flag_value(flag));
        }
        if let Some(flag) = self.push {
            put(&mut object, "push", flag_value(flag));
        }
        if let Some(seconds) = self.team_wait {
            put(&mut object, "team_wait", count_value(seconds));
        }
        if let Some(policy) = &self.poliy_id {
            put(&mut object, "poliy_id", text_value(policy.as_str()));
        }
        object
    }
}

impl Default for IncidentRequest {
    /// A request with empty texts and no optional field set.
    fn default() -> (request: IncidentRequest)
        ensures
            request.requester_email@ == Seq::<char>::empty(),
            request.name@ == Seq::<char>::empty(),
            request.summary@ == Seq::<char>::empty(),
            request.description@ == Seq::<char>::empty(),
            request.call is None,
            request.sms is None,
            request.email is None,
            request.push is None,
            request.team_wait is None,
            request.poliy_id is None,
    {
        IncidentRequest {
            requester_email: String::new(),
            name: String::new(),
            summary: String::new(),
            description: String::new(),
            call: None,
            sms: None,
            email: None,
            push: None,
            team_wait: None,
            poliy_id: None,
        }
    }
}

/// Each field of a request is found in its JSON object under its own name
/// and with its own value, and an optional field that is not set is not
/// found at all.
pub proof fn lemma_members_by_name(request: IncidentRequest)
    ensures
        lookup(request.members(), "requester_email"@) == Some(
            Json::Text(request.requester_email@),
        ),
        lookup(request.members(), "name"@) == Some(Json::Text(request.name@)),
        lookup(request.members(), "summary"@) == Some(Json::Text(request.summary@)),
        lookup(request.members(), "description"@) == Some(Json::Text(request.description@)),
        lookup(request.members(), "call"@) == flag_json(request.call),
        lookup(request.members(), "sms"@) == flag_json(request.sms),
        lookup(request.members(), "email"@) == flag_json(request.email),
        lookup(request.members(), "push"@) == flag_json(request.push),
        lookup(request.members(), "team_wait"@) == count_json(request.team_wait),
        lookup(request.members(), "poliy_id"@) == text_json(request.poliy_id),
{
    lemma_field_names_differ();
    assert forall|members: Seq<(Seq<char>, Json)>, key: Seq<char>, value: Json, wanted: Seq<char>|
        #[trigger] lookup(members.push((key, value)), wanted) == if key == wanted {
            Some(value)
        } else {
            lookup(members, wanted)
        } by {
        lemma_lookup_push(members, key, value, wanted);
    }
}

/// Absence, not null: no member of a request's JSON object is `null`, and
/// the object has a member for an optional field exactly where the field is
/// set.
pub proof fn lemma_unset_fields_are_left_out(request: IncidentRequest)
    ensures
        forall|i: int|
            0 <= i < request.members().len() ==> (#[trigger] request.members()[i]).1 != Json::Null,
        has_key(request.members(), "call"@) <==> request.call is Some,
        has_key(request.members(), "sms"@) <==> request.sms is Some,
        has_key(request.members(), "email"@) <==> request.email is Some,
        has_key(request.members(), "push"@) <==> request.push is Some,
        has_key(request.members(), "team_wait"@) <==> request.team_wait is Some,
        has_key(request.members(), "poliy_id"@) <==> request.poliy_id is Some,
{
    lemma_members_by_name(request);
    lemma_lookup_has_key(request.members(), "call"@);
    lemma_lookup_has_key(request.members(), "sms"@);
    lemma_lookup_has_key(request.members(), "email"@);
    lemma_lookup_has_key(request.members(), "push"@);
    lemma_lookup_has_key(request.members(), "team_wait"@);
    lemma_lookup_has_key(request.members(), "poliy_id"@);
}

/// The ten field names are ten different texts.
pub proof fn lemma_field_names_differ()
    ensures
        "requester_email"@.len() == 15,
        "description"@.len() == 11,
        "team_wait"@.len() == 9,
        "poliy_id"@.len() == 8,
        "summary"@.len() == 7,
        "email"@.len() == 5,
        "sms"@.len() == 3,
        "name"@.len() == 4 && "name"@[0] == 'n',
        "call"@.len() == 4 && "call"@[0] == 'c',
        "push"@.len() == 4 && "push"@[0] == 'p',
{
    reveal_strlit("requester_email");
    reveal_strlit("description");
    reveal_strlit("team_wait");
    reveal_strlit("poliy_id");
    reveal_strlit("summary");
    reveal_strlit("email");
    reveal_strlit("sms");
    reveal_strlit("name");
    reveal_strlit("call");
    reveal_strlit("push");
}

} // verus!
