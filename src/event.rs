use vstd::prelude::*;
use vstd::string::StringExecFns;

use crate::event_kind::{kind_name, kind_of_name, lemma_names_distinct, EventKind};
use crate::json::{lemma_container_view, member_index, member_v, members_view, Json, JsonV, Member};

verus! {

broadcast use vstd::std_specs::vec::group_vec_axioms;

/// A gateway event: a known kind with its `d` payload, or the raw payload of
/// a tag that names no kind.
#[derive(Debug)]
pub enum Event {
    Known(EventKind, Json),
    Unknown(Json),
}

/// The value of an event.
pub enum EventV {
    Known(EventKind, JsonV),
    Unknown(JsonV),
}

/// Why a JSON value is not an event.
#[derive(Debug, Clone, Copy, PartialEq, Eq, Structural)]
pub enum EventError {
    /// The value is not a JSON object.
    NotAnObject,
    /// The payload of a known record kind is not a JSON object.
    Payload(EventKind),
}

impl Event {
    pub open spec fn view(&self) -> EventV {
        match self {
            Event::Known(k, d) => EventV::Known(*k, d@),
            Event::Unknown(d) => EventV::Unknown(d@),
        }
    }
}

/// Every kind but `RESUMED` carries a record, which is a JSON object;
/// `RESUMED` keeps its payload as it came.
pub open spec fn payload_ok(k: EventKind, d: JsonV) -> bool {
    k == EventKind::Resumed || d is Object
}

/// The display name of an event: its tag, or `UNKNOWN`.
pub open spec fn event_name(e: EventV) -> Seq<char> {
    match e {
        EventV::Known(k, _) => kind_name(k),
        EventV::Unknown(_) => "UNKNOWN"@,
    }
}

/// Decoding an event from `{"t": tag, "d": data}`: a missing or non-string
/// `t` reads as the empty tag, a missing `d` as null.
pub open spec fn decode_event_v(j: JsonV) -> Result<EventV, EventError> {
    match j {
        JsonV::Object(ms) => {
            let tag = match member_v(ms, "t"@) {
                Some(JsonV::Str(s)) => s,
                _ => Seq::empty(),
            };
            let data = match member_v(ms, "d"@) {
                Some(v) => v,
                None => JsonV::Null,
            };
            match kind_of_name(tag) {
                None => Ok(EventV::Unknown(data)),
                Some(k) => if payload_ok(k, data) {
                    Ok(EventV::Known(k, data))
                } else {
                    Err(EventError::Payload(k))
                },
            }
        },
        _ => Err(EventError::NotAnObject),
    }
}

/// Encoding an event as `{"t": name, "d": data}`.
pub open spec fn encode_event_v(e: EventV) -> JsonV {
    match e {
        EventV::Known(k, d) => JsonV::Object(seq![("t"@, JsonV::Str(kind_name(k))), ("d"@, d)]),
        EventV::Unknown(d) => JsonV::Object(seq![("t"@, JsonV::Str("UNKNOWN"@)), ("d"@, d)]),
    }
}

/// The text of an event error.
pub open spec fn event_error_text(e: EventError) -> Seq<char> {
    match e {
        EventError::NotAnObject => "expected object for Event"@,
        EventError::Payload(k) => "Failed to deserialize event '"@ + kind_name(k)
            + "': expected a JSON object for the payload"@,
    }
}

impl EventError {
    /// The text of this error; a payload error names the tag.
    pub fn message(&self) -> (r: String)
        ensures
            r@ == event_error_text(*self),
    {
        match self {
            EventError::NotAnObject => String::from_str("expected object for Event"),
            EventError::Payload(k) => {
                let mut s = String::from_str("Failed to deserialize event '");
                s.append(k.name());
                s.append("': expected a JSON object for the payload");
                s
            },
        }
    }
}

impl Event {
    /// The name of this event: its tag, or `UNKNOWN`.
    pub fn display_name(&self) -> (r: &'static str)
        ensures
            r@ == event_name(self@),
    {
        match self {
            Event::Known(k, _) => k.name(),
            Event::Unknown(_) => "UNKNOWN",
        }
    }

    /// Decodes an event from a JSON object of the form `{"t": tag, "d": data}`.
    /// A tag that names no kind gives `Unknown` with the raw data, never an error.
    pub fn decode(j: &Json) -> (r: Result<Event, EventError>)
        ensures
            r matches Ok(e) ==> decode_event_v(j@) == Ok::<_, EventError>(e@),
            r matches Err(e) ==> decode_event_v(j@) == Err::<EventV, _>(e),
    {
        proof {
            lemma_container_view(*j);
        }
        match j {
            Json::Object(members) => {
                let kind = match member_index(members, "t") {
                    Some(i) => match &members[i].value {
                        Json::Str(s) => EventKind::from_name(s.as_str()),
                        _ => EventKind::from_name(""),
                    },
                    None => EventKind::from_name(""),
                };
                let data = match member_index(members, "d") {
                    Some(i) => members[i].value.deep_copy(),
                    None => Json::Null,
                };
                proof {
                    reveal_strlit("");
                    assert(""@ =~= Seq::<char>::empty());
                }
                match kind {
                    None => Ok(Event::Unknown(data)),
                    Some(k) => {
                        let is_record = match k {
                            EventKind::Resumed => false,
                            _ => true,
                        };
                        let is_object = match &data {
                            Json::Object(_) => true,
                            _ => false,
                        };
                        proof {
                            lemma_container_view(data);
                        }
                        if is_record && !is_object {
                            Err(EventError::Payload(k))
                        } else {
                            Ok(Event::Known(k, data))
                        }
                    },
                }
            },
            _ => Err(EventError::NotAnObject),
        }
    }

    /// Encodes an event as `{"t": name, "d": data}`; `Unknown` is written
    /// with the tag `UNKNOWN`.
    pub fn encode(&self) -> (r: Json)
        ensures
            r@ == encode_event_v(self@),
    {
        let (name, data) = match self {
            Event::Known(k, d) => (k.name(), d),
            Event::Unknown(d) => ("UNKNOWN", d),
        };
        let mut out: Vec<Member> = Vec::new();
        out.push(Member { key: String::from_str("t"), value: Json::Str(String::from_str(name)) });
        out.push(Member { key: String::from_str("d"), value: data.deep_copy() });
        let r = Json::Object(out);
        proof {
            lemma_container_view(r);
            assert(members_view(out@) =~= seq![("t"@, JsonV::Str(name@)), ("d"@, data@)]);
        }
        r
    }
}

/// Encoding then decoding an event whose payload its kind accepts gives the
/// same event back; an unknown event comes back unknown, never as a known kind.
pub proof fn lemma_event_round_trip(e: EventV)
    requires
        e matches EventV::Known(k, d) ==> payload_ok(k, d),
    ensures
        decode_event_v(encode_event_v(e)) == Ok::<_, EventError>(e),
{
    lemma_names_distinct();
    let ms = match encode_event_v(e) {
        JsonV::Object(ms) => ms,
        _ => Seq::empty(),
    };
    reveal_strlit("t");
    reveal_strlit("d");
    assert("t"@[0] != "d"@[0]);
    crate::json::lemma_find_first(ms, "t"@, 0);
    crate::json::lemma_find_first(ms, "d"@, 1);
}

} // verus!
