use onryou::bytes::decimal_bytes;
use onryou::json::{self, JsonValue};
use onryou::proxy::post::{
    handle, modify_body, note_action, outbound_headers, process_note_fields, process_sound_field,
    EnvelopeError, Header,
};
use onryou::proxy::{envelope_error, status_of};

fn body(s: &str) -> Vec<u8> {
    s.as_bytes().to_vec()
}

#[test]
fn add_note_with_sound_field_normalizes_once() {
    let b = body(r#"{"action":"addNote","params":{"note":{"fields":{"Front":"hello","Back":"[sound:clip.mp3]"}}}}"#);
    let plan = handle(b.clone(), b"/media").unwrap();
    assert_eq!(plan.normalize, vec![b"/media/clip.mp3".to_vec()]);
    assert_eq!(plan.forward_body, b);
    let forwarded = String::from_utf8(plan.forward_body).unwrap();
    assert!(forwarded.contains(r#""Back":"[sound:clip.mp3]""#));
}

#[test]
fn other_actions_forward_identical_bytes() {
    let b = body("{ \"action\" : \"deckNames\",\n  \"version\": 6 , \"params\":{\"note\":{\"fields\":{\"A\":\"[sound:x.mp3]\"}}} }");
    let plan = handle(b.clone(), b"/media").unwrap();
    assert!(plan.normalize.is_empty());
    assert_eq!(plan.forward_body, b);
}

#[test]
fn update_note_fields_collects_every_sound_field() {
    let b = body(r#"{"action":"updateNoteFields","version":6,"params":{"note":{"id":1,"fields":{"A":"[sound:a.mp3]","B":"plain","C":"[sound:c.ogg]"}}}}"#);
    let plan = handle(b.clone(), b"/m").unwrap();
    assert_eq!(plan.normalize, vec![b"/m/a.mp3".to_vec(), b"/m/c.ogg".to_vec()]);
    assert_eq!(plan.forward_body, b);
}

#[test]
fn fields_without_sound_are_left_alone() {
    let b = body(r#"{"action":"addNote","params":{"note":{"fields":{"Front":"hello","Back":"[sound:x.mp3] trailing","Extra":"x [sound:y.mp3]","N":5}}}}"#);
    let plan = handle(b.clone(), b"/media").unwrap();
    assert!(plan.normalize.is_empty());
    assert_eq!(plan.forward_body, b);
}

#[test]
fn note_action_without_fields_object() {
    let b = body(r#"{"action":"addNote","params":{"note":{"fields":["[sound:a.mp3]"]}}}"#);
    assert!(handle(b, b"/media").unwrap().normalize.is_empty());
    let b = body(r#"{"action":"addNote"}"#);
    assert!(handle(b, b"/media").unwrap().normalize.is_empty());
}

#[test]
fn invalid_json_never_forwards() {
    let r = handle(body("{\"action\": \"addNote\""), b"/media");
    assert_eq!(r.unwrap_err(), EnvelopeError::NotJson);
    assert_eq!(status_of(envelope_error(EnvelopeError::NotJson)), 502);
    assert_eq!(handle(body(""), b"/media").unwrap_err(), EnvelopeError::NotJson);
}

#[test]
fn missing_action_is_malformed() {
    assert_eq!(handle(body(r#"{"version":6}"#), b"/m").unwrap_err(), EnvelopeError::MissingAction);
    assert_eq!(handle(body("[1,2]"), b"/m").unwrap_err(), EnvelopeError::MissingAction);
}

#[test]
fn non_string_action_is_malformed() {
    assert_eq!(handle(body(r#"{"action":7}"#), b"/m").unwrap_err(), EnvelopeError::ActionNotString);
}

#[test]
fn concurrent_style_plans_stay_apart() {
    let a = body(r#"{"action":"addNote","params":{"note":{"fields":{"F":"[sound:one.mp3]"}}}}"#);
    let b = body(r#"{"action":"addNote","params":{"note":{"fields":{"F":"[sound:two.mp3]"}}}}"#);
    let pa = handle(a.clone(), b"/media").unwrap();
    let pb = handle(b.clone(), b"/media").unwrap();
    assert_eq!(pa.normalize, vec![b"/media/one.mp3".to_vec()]);
    assert_eq!(pb.normalize, vec![b"/media/two.mp3".to_vec()]);
    assert_eq!(pa.forward_body, a);
    assert_eq!(pb.forward_body, b);
}

#[test]
fn sound_field_resolves_against_media_directory() {
    assert_eq!(process_sound_field(b"[sound:foo.mp3]", b"/media"), Some(b"/media/foo.mp3".to_vec()));
    assert_eq!(process_sound_field(b"[sound:]", b"/media"), Some(b"/media/".to_vec()));
    assert_eq!(process_sound_field(b"hello", b"/media"), None);
    assert_eq!(process_sound_field(b"[sound:foo.mp3", b"/media"), None);
    assert_eq!(process_sound_field(b"[sound:", b"/media"), None);
    assert_eq!(process_sound_field(b"", b"/media"), None);
}

#[test]
fn note_actions_are_recognised() {
    assert!(note_action(b"addNote"));
    assert!(note_action(b"updateNoteFields"));
    assert!(!note_action(b"addNotes"));
    assert!(!note_action(b"deckNames"));
}

#[test]
fn process_note_fields_keeps_order() {
    let fields = vec![
        (b"A".to_vec(), JsonValue::Str(b"[sound:z.mp3]".to_vec())),
        (b"B".to_vec(), JsonValue::Null),
        (b"C".to_vec(), JsonValue::Str(b"[sound:a.mp3]".to_vec())),
    ];
    assert_eq!(process_note_fields(&fields, b"d"), vec![b"d/z.mp3".to_vec(), b"d/a.mp3".to_vec()]);
}

#[test]
fn modify_body_on_parsed_value() {
    let v = JsonValue::Object(vec![(b"action".to_vec(), JsonValue::Str(b"addNote".to_vec()))]);
    assert_eq!(modify_body(&v, b"/m").unwrap(), Vec::<Vec<u8>>::new());
    let v = JsonValue::Object(vec![(b"action".to_vec(), JsonValue::Bool(true))]);
    assert_eq!(modify_body(&v, b"/m").unwrap_err(), EnvelopeError::ActionNotString);
    assert_eq!(modify_body(&JsonValue::Null, b"/m").unwrap_err(), EnvelopeError::MissingAction);
}

#[test]
fn parse_builds_the_tree() {
    let v = json::parse(br#"{"a":[1,"x",null,true]}"#).unwrap();
    match &v {
        JsonValue::Object(entries) => {
            assert_eq!(entries.len(), 1);
            assert_eq!(entries[0].0, b"a".to_vec());
            match &entries[0].1 {
                JsonValue::Array(items) => {
                    assert_eq!(items.len(), 4);
                    assert!(matches!(&items[0], JsonValue::Number(n) if n == b"1"));
                    assert!(matches!(&items[1], JsonValue::Str(s) if s == b"x"));
                    assert!(matches!(items[2], JsonValue::Null));
                    assert!(matches!(items[3], JsonValue::Bool(true)));
                }
                other => panic!("unexpected {:?}", other),
            }
        }
        other => panic!("unexpected {:?}", other),
    }
    assert!(json::parse(b"{").is_none());
    assert!(json::parse(b"1 2").is_none());
}

#[test]
fn member_finds_keys() {
    let v = json::parse(br#"{"a":1,"b":"two"}"#).unwrap();
    assert!(matches!(json::member(&v, b"b"), Some(JsonValue::Str(s)) if s == b"two"));
    assert!(json::member(&v, b"c").is_none());
    assert!(json::member(&JsonValue::Null, b"a").is_none());
}

#[test]
fn content_length_is_recomputed() {
    let headers = vec![
        Header { name: b"Host".to_vec(), value: b"127.0.0.1:8765".to_vec() },
        Header { name: b"Content-Length".to_vec(), value: b"999".to_vec() },
        Header { name: b"Content-Type".to_vec(), value: b"application/json".to_vec() },
    ];
    let out = outbound_headers(&headers, 42);
    assert_eq!(out.len(), 3);
    assert_eq!(out[0].name, b"Host".to_vec());
    assert_eq!(out[0].value, b"127.0.0.1:8765".to_vec());
    assert_eq!(out[1].name, b"Content-Length".to_vec());
    assert_eq!(out[1].value, b"42".to_vec());
    assert_eq!(out[2].name, b"Content-Type".to_vec());
    assert_eq!(out[2].value, b"application/json".to_vec());
    let lower = vec![Header { name: b"content-LENGTH".to_vec(), value: b"1".to_vec() }];
    assert_eq!(outbound_headers(&lower, 0)[0].value, b"0".to_vec());
}

#[test]
fn decimal_text() {
    assert_eq!(decimal_bytes(0), b"0".to_vec());
    assert_eq!(decimal_bytes(7), b"7".to_vec());
    assert_eq!(decimal_bytes(1234), b"1234".to_vec());
    assert_eq!(decimal_bytes(u64::MAX), u64::MAX.to_string().into_bytes());
}
