use gateway_codec::component::{Component, ComponentError, Field};
use gateway_codec::component_type::ComponentType;
use gateway_codec::event::{Event, EventError};
use gateway_codec::event_kind::EventKind;
use gateway_codec::json::{Json, JsonNumber, Member};

fn num(n: u64) -> Json {
    Json::Number(JsonNumber::Unsigned(n))
}

fn text(s: &str) -> Json {
    Json::Str(s.to_string())
}

fn obj(pairs: Vec<(&str, Json)>) -> Json {
    Json::Object(
        pairs
            .into_iter()
            .map(|(k, v)| Member { key: k.to_string(), value: v })
            .collect(),
    )
}

fn get<'a>(j: &'a Json, key: &str) -> Option<&'a Json> {
    match j {
        Json::Object(ms) => ms.iter().find(|m| m.key == key).map(|m| &m.value),
        _ => None,
    }
}

fn same(a: &Json, b: &Json) -> bool {
    format!("{:?}", a) == format!("{:?}", b)
}

const VALID: [u64; 16] = [1, 2, 3, 4, 5, 6, 7, 8, 9, 10, 11, 12, 13, 14, 17, 18];

#[test]
fn component_type_codes_round_trip() {
    for n in VALID {
        let t = ComponentType::from_int(n).unwrap();
        assert_eq!(t.to_int() as u64, n);
        assert_eq!(ComponentType::from_int(t.to_int() as u64), Ok(t));
    }
    assert_eq!(ComponentType::from_int(17), Ok(ComponentType::Container));
    assert_eq!(ComponentType::Label.to_int(), 18);
}

#[test]
fn component_type_rejects_unused_codes() {
    for n in [0u64, 15, 16].into_iter().chain(19..=100) {
        assert_eq!(ComponentType::from_int(n), Err(n));
    }
    let negative = obj(vec![("type", Json::Number(JsonNumber::Negative(-1)))]);
    assert!(matches!(Component::decode(&negative), Err(ComponentError::TypeNotInteger)));
}

#[test]
fn text_display_decodes_and_encodes_back() {
    let j = obj(vec![("type", num(10)), ("content", text("hi"))]);
    let c = Component::decode(&j).unwrap();
    match &c {
        Component::TextDisplay(t) => {
            assert_eq!(t.kind, ComponentType::TextDisplay);
            assert_eq!(t.content, "hi");
        }
        other => panic!("unexpected {:?}", other),
    }
    assert!(same(&c.encode(), &j));
}

#[test]
fn container_holds_text_and_separator() {
    let j = obj(vec![
        ("type", num(17)),
        (
            "components",
            Json::Array(vec![
                obj(vec![("type", num(10)), ("content", text("a"))]),
                obj(vec![("type", num(14)), ("divider", Json::Bool(true))]),
            ]),
        ),
    ]);
    let c = Component::decode(&j).unwrap();
    match &c {
        Component::Container(b) => {
            assert_eq!(b.components.len(), 2);
            assert!(matches!(&b.components[0], Component::TextDisplay(t) if t.content == "a"));
            match &b.components[1] {
                Component::Separator(s) => {
                    assert_eq!(s.divider, Some(true));
                    assert_eq!(s.spacer, None);
                }
                other => panic!("unexpected {:?}", other),
            }
        }
        other => panic!("unexpected {:?}", other),
    }
    let back = c.encode();
    assert!(same(&back, &j));
    let items = get(&back, "components").unwrap();
    if let Json::Array(v) = items {
        assert!(get(&v[1], "spacer").is_none());
    } else {
        panic!("components is not an array");
    }
}

#[test]
fn reserved_type_fails_naming_the_code() {
    let err = Component::decode(&obj(vec![("type", num(15))])).unwrap_err();
    assert_eq!(err, ComponentError::InvalidType(15));
    assert!(err.message().contains("15"));
    assert_eq!(err.message(), "invalid component type \"15\"");
}

#[test]
fn string_type_is_not_an_integer() {
    let err = Component::decode(&obj(vec![("type", text("2"))])).unwrap_err();
    assert_eq!(err, ComponentError::TypeNotInteger);
    assert_eq!(err.message(), "component type was not an integer");
    assert_eq!(Component::decode(&text("x")).unwrap_err(), ComponentError::TypeNotInteger);
    assert_eq!(Component::decode(&obj(vec![])).unwrap_err(), ComponentError::TypeNotInteger);
}

#[test]
fn role_select_keeps_its_code() {
    let j = obj(vec![("type", num(6)), ("custom_id", text("x"))]);
    match Component::decode(&j).unwrap() {
        Component::SelectMenu(s) => {
            assert_eq!(s.kind.to_int(), 6);
            assert_eq!(s.attributes.len(), 1);
            assert_eq!(s.attributes[0].key, "custom_id");
        }
        other => panic!("unexpected {:?}", other),
    }
}

#[test]
fn every_select_code_collapses_to_select_menu() {
    for k in [3u64, 5, 6, 7, 8] {
        let j = obj(vec![("type", num(k)), ("custom_id", text("pick"))]);
        let c = Component::decode(&j).unwrap();
        match &c {
            Component::SelectMenu(s) => assert_eq!(s.kind.to_int() as u64, k),
            other => panic!("unexpected {:?}", other),
        }
        assert!(same(&c.encode(), &j));
    }
}

#[test]
fn nested_components_round_trip() {
    let media = obj(vec![("url", text("https://example.com/a.png")), ("width", num(640))]);
    let j = obj(vec![
        ("type", num(17)),
        (
            "components",
            Json::Array(vec![
                obj(vec![
                    ("type", num(9)),
                    ("components", Json::Array(vec![obj(vec![("type", num(10)), ("content", text("s"))])])),
                    ("accessory", obj(vec![("type", num(11)), ("media", media), ("spoiler", Json::Bool(false))])),
                ]),
                obj(vec![
                    ("type", num(12)),
                    ("items", Json::Array(vec![obj(vec![("proxy_url", text("p")), ("height", num(2))])])),
                ]),
                obj(vec![("type", num(13)), ("file", obj(vec![("content_type", text("text/plain"))]))]),
                obj(vec![
                    ("type", num(18)),
                    ("label", text("Name")),
                    ("component", obj(vec![("type", num(4)), ("custom_id", text("n"))])),
                ]),
                obj(vec![
                    ("type", num(1)),
                    ("components", Json::Array(vec![obj(vec![("type", num(2)), ("style", num(1))])])),
                ]),
            ]),
        ),
    ]);
    let c = Component::decode(&j).unwrap();
    let once = c.encode();
    assert!(same(&once, &j));
    let again = Component::decode(&once).unwrap().encode();
    assert!(same(&again, &once));
}

#[test]
fn null_optional_fields_read_as_absent() {
    let j = obj(vec![("type", num(14)), ("divider", Json::Null), ("spacer", num(2))]);
    match Component::decode(&j).unwrap() {
        Component::Separator(s) => {
            assert_eq!(s.divider, None);
            assert_eq!(s.spacer, Some(2));
        }
        other => panic!("unexpected {:?}", other),
    }
    let section = obj(vec![("type", num(9)), ("components", Json::Array(vec![])), ("accessory", Json::Null)]);
    match Component::decode(&section).unwrap() {
        Component::Section(s) => assert!(s.accessory.is_none()),
        other => panic!("unexpected {:?}", other),
    }
}

#[test]
fn payload_field_errors() {
    let missing = Component::decode(&obj(vec![("type", num(10))])).unwrap_err();
    assert_eq!(missing, ComponentError::MissingField(Field::Content));
    assert_eq!(missing.message(), "missing field `content`");
    let wrong = Component::decode(&obj(vec![("type", num(14)), ("spacer", num(1u64 << 40))])).unwrap_err();
    assert_eq!(wrong, ComponentError::InvalidField(Field::Spacer));
    assert_eq!(wrong.message(), "invalid value for field `spacer`");
    let nested = obj(vec![
        ("type", num(17)),
        ("components", Json::Array(vec![obj(vec![("type", num(10)), ("content", text("ok"))]), obj(vec![("type", num(16))])])),
    ]);
    assert_eq!(Component::decode(&nested).unwrap_err(), ComponentError::InvalidType(16));
    let no_list = Component::decode(&obj(vec![("type", num(1))])).unwrap_err();
    assert_eq!(no_list, ComponentError::MissingField(Field::Components));
}

#[test]
fn message_delete_bulk_event() {
    let j = obj(vec![
        ("t", text("MESSAGE_DELETE_BULK")),
        ("d", obj(vec![("ids", Json::Array(vec![text("1"), text("2")])), ("channel_id", text("9"))])),
    ]);
    let e = Event::decode(&j).unwrap();
    assert!(matches!(e, Event::Known(EventKind::MessageDeleteBulk, _)));
    assert_eq!(e.display_name(), "MESSAGE_DELETE_BULK");
}

#[test]
fn unknown_event_keeps_its_data() {
    let data = obj(vec![("x", num(1))]);
    let j = obj(vec![("t", text("WHATEVER_NEW")), ("d", obj(vec![("x", num(1))]))]);
    let e = Event::decode(&j).unwrap();
    match &e {
        Event::Unknown(d) => assert!(same(d, &data)),
        other => panic!("unexpected {:?}", other),
    }
    assert_eq!(e.display_name(), "UNKNOWN");
    let encoded = e.encode();
    assert!(same(get(&encoded, "t").unwrap(), &text("UNKNOWN")));
    assert!(matches!(Event::decode(&encoded).unwrap(), Event::Unknown(_)));
}

#[test]
fn malformed_ready_names_the_tag() {
    let j = obj(vec![("t", text("READY")), ("d", text("not a record"))]);
    let err = Event::decode(&j).unwrap_err();
    assert_eq!(err, EventError::Payload(EventKind::Ready));
    assert!(err.message().contains("'READY'"));
}

#[test]
fn event_envelope_defaults() {
    assert_eq!(Event::decode(&num(3)).unwrap_err(), EventError::NotAnObject);
    assert_eq!(EventError::NotAnObject.message(), "expected object for Event");
    match Event::decode(&obj(vec![])).unwrap() {
        Event::Unknown(Json::Null) => {}
        other => panic!("unexpected {:?}", other),
    }
    match Event::decode(&obj(vec![("t", text("RESUMED"))])).unwrap() {
        Event::Known(EventKind::Resumed, Json::Null) => {}
        other => panic!("unexpected {:?}", other),
    }
}

#[test]
fn known_events_round_trip() {
    for (kind, tag) in [
        (EventKind::Ready, "READY"),
        (EventKind::GuildCreate, "GUILD_CREATE"),
        (EventKind::MessageReactionRemoveAll, "MESSAGE_REACTION_REMOVE_ALL"),
        (EventKind::WebhookUpdate, "WEBHOOK_UPDATE"),
    ] {
        assert_eq!(kind.name(), tag);
        assert_eq!(EventKind::from_name(tag), Some(kind));
        let e = Event::Known(kind, obj(vec![("id", text("5"))]));
        let j = e.encode();
        let back = Event::decode(&j).unwrap();
        assert!(same(&back.encode(), &j));
        assert!(matches!(back, Event::Known(k, _) if k == kind));
    }
    assert_eq!(EventKind::from_name("UNKNOWN"), None);
    assert_eq!(EventKind::from_name(""), None);
}
