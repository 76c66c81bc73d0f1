//! Decoding the payloads of successful calls.

use marionette::connection::{
    response_active_frame, response_cookies, response_element_refs, response_empty,
    response_new_session, response_opt_string, response_string, response_value,
    response_window_handle, response_window_handles, read_response, FrameEval,
};
use marionette::error::MarionetteError;
use marionette::json::JsonData;
use marionette::messages::{Cookie, Timeouts, WindowHandle};

fn value_of(text: &str, id: u64) -> JsonData {
    match read_response(text, id) {
        FrameEval::Value(d) => d,
        other => panic!("expected a payload, got {:?}", other),
    }
}

#[test]
fn string_value_roundtrip_through_the_wire() {
    let d = value_of("[1,0,null,{\"value\":\"Example Domain\"}]", 0);
    assert_eq!(response_string(&d), Ok("Example Domain".to_string()));
}

#[test]
fn missing_or_wrong_value_is_a_json_error() {
    assert_eq!(
        response_string(&JsonData::Obj(vec![])),
        Err(MarionetteError::JSON)
    );
    assert_eq!(
        response_string(&JsonData::Obj(vec![(
            "value".to_string(),
            JsonData::UInt(3),
        )])),
        Err(MarionetteError::JSON)
    );
    assert_eq!(response_string(&JsonData::Null), Err(MarionetteError::JSON));
}

#[test]
fn absent_attribute_is_none_not_an_error() {
    let null_value = JsonData::Obj(vec![("value".to_string(), JsonData::Null)]);
    assert_eq!(response_opt_string(&null_value), Ok(None));
    let missing = JsonData::Obj(vec![]);
    assert_eq!(response_opt_string(&missing), Ok(None));
    let present = JsonData::Obj(vec![(
        "value".to_string(),
        JsonData::Str("src.png".to_string()),
    )]);
    assert_eq!(response_opt_string(&present), Ok(Some("src.png".to_string())));
    let wrong = JsonData::Obj(vec![("value".to_string(), JsonData::UInt(1))]);
    assert_eq!(response_opt_string(&wrong), Err(MarionetteError::JSON));
}

#[test]
fn property_comes_back_as_raw_json() {
    let d = value_of("[1,2,null,{\"value\":false}]", 2);
    assert_eq!(response_value(d), Ok(JsonData::Bool(false)));
    let d = value_of("[1,3,null,{\"value\":2}]", 3);
    assert_eq!(response_value(d), Ok(JsonData::UInt(2)));
    assert_eq!(
        response_value(JsonData::Obj(vec![])),
        Err(MarionetteError::JSON)
    );
}

#[test]
fn script_result_two() {
    // executing `return 1+1` answers with JSON 2 under `value`
    let d = value_of("[1,9,null,{\"value\":2}]", 9);
    assert_eq!(response_value(d), Ok(JsonData::UInt(2)));
}

#[test]
fn window_handles_decode_from_strings() {
    let d = value_of("[1,4,null,[\"w1\",\"w2\"]]", 4);
    assert_eq!(
        response_window_handles(&d),
        Ok(vec![
            WindowHandle::from_str("w1"),
            WindowHandle::from_str("w2"),
        ])
    );
    let bad = JsonData::Arr(vec![JsonData::UInt(1)]);
    assert_eq!(response_window_handles(&bad), Err(MarionetteError::JSON));
    let single = value_of("[1,5,null,{\"value\":\"w3\"}]", 5);
    assert_eq!(
        response_window_handle(&single),
        Ok(WindowHandle::from_str("w3"))
    );
}

#[test]
fn element_refs_decode_from_spec_key_objects() {
    let d = value_of(
        "[1,6,null,[{\"element-6066-11e4-a52e-4f735466cecf\":\"e1\"},{\"ELEMENT\":\"x\",\"element-6066-11e4-a52e-4f735466cecf\":\"e2\"}]]",
        6,
    );
    let refs = response_element_refs(&d).unwrap();
    assert_eq!(refs.len(), 2);
    assert_eq!(refs[0].reference, "e1");
    assert_eq!(refs[1].reference, "e2");
    let bad = JsonData::Arr(vec![JsonData::Obj(vec![])]);
    assert_eq!(response_element_refs(&bad), Err(MarionetteError::JSON));
}

#[test]
fn active_frame_may_be_null() {
    let top = value_of("[1,7,null,{\"value\":null}]", 7);
    assert_eq!(response_active_frame(&top), Ok(None));
    let framed = value_of(
        "[1,8,null,{\"value\":{\"element-6066-11e4-a52e-4f735466cecf\":\"f1\"}}]",
        8,
    );
    assert_eq!(response_active_frame(&framed).unwrap().unwrap().reference, "f1");
}

#[test]
fn cookies_decode_with_optional_fields() {
    let d = value_of(
        "[1,9,null,[{\"name\":\"TESTCOOKIE\",\"value\":\"1234\",\"path\":\"/\",\"secure\":false,\"expiry\":12345}]]",
        9,
    );
    let cookies = response_cookies(&d).unwrap();
    assert_eq!(
        cookies,
        vec![Cookie {
            name: "TESTCOOKIE".to_string(),
            value: "1234".to_string(),
            path: Some("/".to_string()),
            domain: None,
            secure: Some(false),
        }]
    );
    // a cookie without a name does not decode
    let bad = JsonData::Arr(vec![JsonData::Obj(vec![(
        "value".to_string(),
        JsonData::Str("v".to_string()),
    )])]);
    assert_eq!(response_cookies(&bad), Err(MarionetteError::JSON));
}

#[test]
fn new_session_decodes_session_id_and_timeouts() {
    let d = value_of(
        "[1,0,null,{\"sessionId\":\"s-9\",\"capabilities\":{\"timeouts\":{\"script\":1000,\"pageLoad\":10000,\"implicit\":11000}}}]",
        0,
    );
    let resp = response_new_session(&d).unwrap();
    assert_eq!(resp.sessionId, "s-9");
    assert_eq!(
        resp.capabilities.timeouts,
        Some(Timeouts { script: 1000, pageLoad: 10000, implicit: 11000 })
    );
    // a malformed timeouts object refuses the whole response
    let bad = JsonData::Obj(vec![
        ("sessionId".to_string(), JsonData::Str("s".to_string())),
        (
            "capabilities".to_string(),
            JsonData::Obj(vec![(
                "timeouts".to_string(),
                JsonData::Obj(vec![("script".to_string(), JsonData::Str("x".to_string()))]),
            )]),
        ),
    ]);
    assert_eq!(response_new_session(&bad), Err(MarionetteError::JSON));
}

#[test]
fn empty_result_accepts_any_object() {
    assert!(response_empty(&JsonData::Obj(vec![])).is_ok());
    assert!(response_empty(&JsonData::Obj(vec![(
        "ignored".to_string(),
        JsonData::Null,
    )]))
    .is_ok());
    assert_eq!(
        response_empty(&JsonData::Null),
        Err(MarionetteError::JSON)
    );
}

#[test]
fn numbers_survive_as_they_came() {
    let d = value_of("[1,1,null,{\"value\":1.5}]", 1);
    assert_eq!(response_value(d), Ok(JsonData::Num("1.5".to_string())));
    let d = value_of("[1,2,null,{\"value\":-7}]", 2);
    assert_eq!(response_value(d), Ok(JsonData::Int(-7)));
}
