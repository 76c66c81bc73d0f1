//! Exact wire forms of the typed messages, and the JSON writer itself.

use marionette::connection::{Compatibility, MarionetteConnection};
use marionette::json::{json_to_bytes, push_json_str, JsonData};
use marionette::messages::{
    Cookie, ElementRef, Empty, FindElementQuery, FrameSwitch, GetCommand, Instance, LogEntry,
    LogMsg, QueryMethod, Script, WindowHandle,
};

fn json_text(d: &JsonData) -> String {
    String::from_utf8(json_to_bytes(d)).unwrap()
}

fn written<F: FnOnce(&mut Vec<u8>)>(f: F) -> String {
    let mut out: Vec<u8> = Vec::new();
    f(&mut out);
    String::from_utf8(out).unwrap()
}

#[test]
fn element_ref_serializes_under_both_keys() {
    let e = ElementRef::from_str("abc");
    let text = written(|out| e.write_json(out));
    assert_eq!(
        text,
        "{\"ELEMENT\":\"abc\",\"element-6066-11e4-a52e-4f735466cecf\":\"abc\"}"
    );
}

#[test]
fn element_ref_deserializes_from_the_spec_key_alone() {
    let d = JsonData::Obj(vec![(
        "element-6066-11e4-a52e-4f735466cecf".to_string(),
        JsonData::Str("abc".to_string()),
    )]);
    let e = ElementRef::from_json(&d).unwrap();
    assert_eq!(e.reference, "abc");
    // the legacy key alone is not read
    let legacy_only = JsonData::Obj(vec![(
        "ELEMENT".to_string(),
        JsonData::Str("abc".to_string()),
    )]);
    assert_eq!(ElementRef::from_json(&legacy_only), None);
    // unrecognized fields are ignored
    let with_extras = JsonData::Obj(vec![
        ("other".to_string(), JsonData::UInt(7)),
        (
            "element-6066-11e4-a52e-4f735466cecf".to_string(),
            JsonData::Str("xyz".to_string()),
        ),
    ]);
    assert_eq!(ElementRef::from_json(&with_extras).unwrap().reference, "xyz");
}

#[test]
fn window_handle_serializes_under_name_and_handle() {
    let w = WindowHandle::from_str("win-7");
    let text = written(|out| w.write_json(out));
    assert_eq!(text, "{\"name\":\"win-7\",\"handle\":\"win-7\"}");
}

#[test]
fn script_defaults() {
    let s = Script::new("return 42;");
    let text = written(|out| s.write_json(out));
    assert_eq!(
        text,
        "{\"script\":\"return 42;\",\"sandbox\":\"default\",\"args\":[],\"scriptTimeout\":null}"
    );
}

#[test]
fn script_with_sandbox_arguments_and_timeout() {
    let mut s = Script::new("return arguments[0];");
    s.sandbox("system");
    s.arguments(vec![JsonData::UInt(84)]);
    s.timeout(30001);
    let text = written(|out| s.write_json(out));
    assert_eq!(
        text,
        "{\"script\":\"return arguments[0];\",\"sandbox\":\"system\",\"args\":[84],\"scriptTimeout\":30001}"
    );
}

#[test]
fn query_methods_serialize_to_their_strategy_names() {
    let pairs = [
        (QueryMethod::Id, "id"),
        (QueryMethod::Name, "name"),
        (QueryMethod::ClassName, "class name"),
        (QueryMethod::TagName, "tag name"),
        (QueryMethod::CssSelector, "css selector"),
        (QueryMethod::LinkText, "link text"),
        (QueryMethod::PartialLinkText, "partial link text"),
        (QueryMethod::XPath, "xpath"),
    ];
    for (m, expect) in pairs {
        assert_eq!(m.name(), expect);
    }
}

#[test]
fn find_query_leaves_absent_element_out() {
    let q = FindElementQuery {
        value: "body".to_string(),
        using: QueryMethod::CssSelector,
        element: None,
    };
    assert_eq!(
        written(|out| q.write_json(out)),
        "{\"value\":\"body\",\"using\":\"css selector\"}"
    );
    let q = FindElementQuery {
        value: "img".to_string(),
        using: QueryMethod::TagName,
        element: Some("parent-1".to_string()),
    };
    assert_eq!(
        written(|out| q.write_json(out)),
        "{\"value\":\"img\",\"using\":\"tag name\",\"element\":\"parent-1\"}"
    );
}

#[test]
fn frame_switch_sends_null_for_the_top_frame() {
    let f = FrameSwitch::top(false);
    assert_eq!(
        written(|out| f.write_json(out)),
        "{\"focus\":false,\"element\":null}"
    );
    let f = FrameSwitch::from_element(true, Some(ElementRef::from_str("frame-9")));
    assert_eq!(
        written(|out| f.write_json(out)),
        "{\"focus\":true,\"element\":\"frame-9\"}"
    );
}

#[test]
fn cookie_skips_absent_fields() {
    let c = Cookie {
        name: "TESTCOOKIE".to_string(),
        value: "1234".to_string(),
        path: None,
        domain: None,
        secure: None,
    };
    assert_eq!(
        written(|out| c.write_json(out)),
        "{\"name\":\"TESTCOOKIE\",\"value\":\"1234\"}"
    );
    let c = Cookie {
        name: "a".to_string(),
        value: "b".to_string(),
        path: Some("/".to_string()),
        domain: Some("example.com".to_string()),
        secure: Some(true),
    };
    assert_eq!(
        written(|out| c.write_json(out)),
        "{\"name\":\"a\",\"value\":\"b\",\"path\":\"/\",\"domain\":\"example.com\",\"secure\":true}"
    );
}

#[test]
fn add_cookie_envelope() {
    let mut conn = MarionetteConnection::new(Compatibility::Webdriver);
    let c = Cookie {
        name: "TESTCOOKIE".to_string(),
        value: "1234".to_string(),
        path: None,
        domain: None,
        secure: None,
    };
    let req = conn.add_cookie(&c);
    assert_eq!(
        String::from_utf8(req.body).unwrap(),
        "[0,0,\"WebDriver:AddCookie\",{\"cookie\":{\"name\":\"TESTCOOKIE\",\"value\":\"1234\"}}]"
    );
}

#[test]
fn string_escaping_follows_json() {
    let text = written(|out| push_json_str(out, "a\"b\\c\nd\te\u{8}f\u{c}g\rh\u{1}i"));
    assert_eq!(text, "\"a\\\"b\\\\c\\nd\\te\\bf\\fg\\rh\\u0001i\"");
    // multi-byte characters pass through unescaped
    let text = written(|out| push_json_str(out, "caf\u{e9} \u{2603}"));
    assert_eq!(text, "\"caf\u{e9} \u{2603}\"");
}

#[test]
fn json_writer_covers_every_shape() {
    assert_eq!(json_text(&JsonData::Null), "null");
    assert_eq!(json_text(&JsonData::Bool(true)), "true");
    assert_eq!(json_text(&JsonData::Bool(false)), "false");
    assert_eq!(json_text(&JsonData::UInt(0)), "0");
    assert_eq!(json_text(&JsonData::UInt(1234567890)), "1234567890");
    assert_eq!(json_text(&JsonData::Int(-5)), "-5");
    assert_eq!(json_text(&JsonData::Int(i64::MIN)), "-9223372036854775808");
    assert_eq!(json_text(&JsonData::Num("1.5".to_string())), "1.5");
    assert_eq!(json_text(&JsonData::Str("hi".to_string())), "\"hi\"");
    assert_eq!(
        json_text(&JsonData::Arr(vec![
            JsonData::UInt(1),
            JsonData::Null,
            JsonData::Str("x".to_string()),
        ])),
        "[1,null,\"x\"]"
    );
    assert_eq!(
        json_text(&JsonData::Obj(vec![
            ("a".to_string(), JsonData::UInt(1)),
            ("b".to_string(), JsonData::Arr(vec![])),
        ])),
        "{\"a\":1,\"b\":[]}"
    );
}

#[test]
fn small_messages_serialize_exactly() {
    assert_eq!(written(|out| Empty {}.write_json(out)), "{}");
    let g = GetCommand::from("https://example.com");
    assert_eq!(
        written(|out| g.write_json(out)),
        "{\"url\":\"https://example.com\"}"
    );
    let m = LogMsg::new("the canary is dead", "INFO");
    assert_eq!(
        written(|out| m.write_json(out)),
        "{\"value\":\"the canary is dead\",\"level\":\"INFO\"}"
    );
    let i = Instance { port: 65333, name: "main".to_string() };
    assert_eq!(
        written(|out| i.write_json(out)),
        "{\"port\":65333,\"name\":\"main\"}"
    );
}

#[test]
fn log_entry_accessors() {
    let e = LogEntry(
        "INFO".to_string(),
        "loaded".to_string(),
        "2017-01-01".to_string(),
    );
    assert_eq!(e.level(), "INFO");
    assert_eq!(e.msg(), "loaded");
}
