use math_relay::protocol::{Action, decode_request};

#[test]
fn decode_translate_request() {
    let req = decode_request("{\"action\":\"translate\",\"content\":\"<m><mn>1</mn></m>\"}")
        .expect("a well-formed frame decodes");
    assert_eq!(req.action, Action::Translate);
    assert_eq!(req.content, "<m><mn>1</mn></m>");
}

#[test]
fn decode_show_request() {
    let req = decode_request("{\"action\":\"show\",\"content\":\"<m><mi>x</mi></m>\"}")
        .expect("a well-formed frame decodes");
    assert_eq!(req.action, Action::Show);
    assert_eq!(req.content, "<m><mi>x</mi></m>");
}

#[test]
fn decode_unrecognized_action_is_unknown() {
    let req = decode_request("{\"action\":\"dance\",\"content\":\"x\"}")
        .expect("a well-formed frame decodes even with a strange tag");
    assert_eq!(req.action, Action::Unknown);
    assert_eq!(req.content, "x");
}

#[test]
fn decode_rejects_text_that_is_no_object() {
    assert!(decode_request("not json at all").is_none());
    assert!(decode_request("[1, 2, 3]").is_none());
    assert!(decode_request("").is_none());
}

#[test]
fn decode_rejects_missing_fields() {
    assert!(decode_request("{\"action\":\"translate\"}").is_none());
    assert!(decode_request("{\"content\":\"x\"}").is_none());
    assert!(decode_request("{}").is_none());
}

#[test]
fn decode_rejects_non_string_fields() {
    assert!(decode_request("{\"action\":7,\"content\":\"x\"}").is_none());
    assert!(decode_request("{\"action\":\"show\",\"content\":[]}").is_none());
}

#[test]
fn decode_ignores_extra_fields() {
    let req = decode_request("{\"action\":\"show\",\"content\":\"y\",\"other\":3}")
        .expect("extra fields are ignored");
    assert_eq!(req.action, Action::Show);
    assert_eq!(req.content, "y");
}
