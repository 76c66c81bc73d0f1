//! The dispatcher: envelope text, message-id assignment, response
//! correlation, and the mapping of server error objects.

use marionette::connection::{
    interpret_response, read_response, response_string, select_response, Compatibility, Context,
    FrameEval, MarionetteConnection,
};
use marionette::error::MarionetteError;
use marionette::json::JsonData;
use marionette::messages::{ResponseValue, Timeouts};

fn body_text(body: &[u8]) -> String {
    String::from_utf8(body.to_vec()).unwrap()
}

#[test]
fn envelope_shape() {
    let mut conn = MarionetteConnection::new(Compatibility::Webdriver);
    let req = conn.get_title();
    assert_eq!(req.msgid, 0);
    assert_eq!(body_text(&req.body), "[0,0,\"WebDriver:GetTitle\",{}]");
}

#[test]
fn legacy_envelope_shape() {
    let mut conn = MarionetteConnection::new(Compatibility::Marionette);
    let req = conn.get_title();
    assert_eq!(body_text(&req.body), "[0,0,\"getTitle\",{}]");
}

#[test]
fn msgids_count_up_from_zero() {
    let mut conn = MarionetteConnection::new(Compatibility::Webdriver);
    let ids: Vec<u64> = vec![
        conn.get_title().msgid,
        conn.get_url().msgid,
        conn.refresh().msgid,
        conn.go_back().msgid,
        conn.go_forward().msgid,
    ];
    assert_eq!(ids, vec![0, 1, 2, 3, 4]);
}

#[test]
fn navigation_envelopes() {
    let mut conn = MarionetteConnection::new(Compatibility::Webdriver);
    let req = conn.get("https://www.mozilla.org");
    assert_eq!(
        body_text(&req.body),
        "[0,0,\"WebDriver:Navigate\",{\"url\":\"https://www.mozilla.org\"}]"
    );
    let req = conn.navigate("https://github.com/equalsraf/ffcli");
    assert_eq!(
        body_text(&req.body),
        "[0,1,\"WebDriver:Navigate\",{\"url\":\"https://github.com/equalsraf/ffcli\"}]"
    );
}

#[test]
fn mismatched_id_is_ignored_and_matching_id_decides() {
    // a response for message 99 arrives while message 0 is awaited
    let stray = "[1,99,null,{\"value\":\"other\"}]";
    let wanted = "[1,0,null,{\"value\":\"mine\"}]";
    assert_eq!(read_response(stray, 0), FrameEval::Mismatch);
    match read_response(wanted, 0) {
        FrameEval::Value(d) => {
            assert_eq!(response_string(&d), Ok("mine".to_string()));
        }
        other => panic!("expected the matching payload, got {:?}", other),
    }
}

#[test]
fn select_skips_mismatches() {
    let frames = vec![
        JsonData::Arr(vec![
            JsonData::UInt(1),
            JsonData::UInt(7),
            JsonData::Null,
            JsonData::Str("late".to_string()),
        ]),
        JsonData::Arr(vec![
            JsonData::UInt(1),
            JsonData::UInt(3),
            JsonData::Null,
            JsonData::Str("mine".to_string()),
        ]),
    ];
    assert_eq!(
        select_response(frames, 3),
        Some(FrameEval::Value(JsonData::Str("mine".to_string())))
    );
    let only_stray = vec![JsonData::Arr(vec![
        JsonData::UInt(1),
        JsonData::UInt(7),
        JsonData::Null,
        JsonData::Null,
    ])];
    assert_eq!(select_response(only_stray, 3), None);
}

#[test]
fn error_object_maps_to_nonfatal_call_error() {
    let text = "[1,5,{\"error\":\"no such element\",\"message\":\"m\",\"stacktrace\":\"\"},null]";
    match read_response(text, 5) {
        FrameEval::Failed(err) => {
            assert!(!err.is_fatal());
            match err {
                MarionetteError::Call(obj) => {
                    assert_eq!(obj.error, "no such element");
                    assert_eq!(obj.message, "m");
                    assert_eq!(obj.stacktrace, "");
                }
                other => panic!("expected a call error, got {:?}", other),
            }
        }
        other => panic!("expected a failure, got {:?}", other),
    }
}

#[test]
fn malformed_responses_are_fatal_protocol_errors() {
    assert_eq!(
        read_response("{\"not\":\"an array\"}", 0),
        FrameEval::Failed(MarionetteError::UnexpectedType)
    );
    assert_eq!(
        read_response("[2,0,null,null]", 0),
        FrameEval::Failed(MarionetteError::UnexpectedType)
    );
    assert_eq!(
        read_response("[1,\"zero\",null,null]", 0),
        FrameEval::Failed(MarionetteError::InvalidMsgId)
    );
    assert_eq!(
        read_response("[1,0]", 0),
        FrameEval::Failed(MarionetteError::InvalidResponseArray)
    );
    assert_eq!(
        read_response("[1,0,null]", 0),
        FrameEval::Failed(MarionetteError::InvalidResponseArray)
    );
    assert_eq!(
        read_response("not json at all", 0),
        FrameEval::Failed(MarionetteError::JSON)
    );
    for text in [
        "{\"not\":\"an array\"}",
        "[2,0,null,null]",
        "[1,\"zero\",null,null]",
        "[1,0]",
        "not json at all",
    ] {
        match read_response(text, 0) {
            FrameEval::Failed(e) => assert!(e.is_fatal()),
            other => panic!("expected a fatal failure, got {:?}", other),
        }
    }
}

#[test]
fn interpret_takes_the_fourth_element() {
    let d = JsonData::Arr(vec![
        JsonData::UInt(1),
        JsonData::UInt(2),
        JsonData::Null,
        JsonData::Bool(true),
        JsonData::Str("extra is ignored".to_string()),
    ]);
    assert_eq!(interpret_response(d, 2), FrameEval::Value(JsonData::Bool(true)));
}

#[test]
fn set_timeouts_updates_cache_only_on_success() {
    let mut conn = MarionetteConnection::new(Compatibility::Webdriver);
    let t = Timeouts { script: 10001, pageLoad: 10002, implicit: 10003 };
    let req = conn.set_timeouts(t);
    assert_eq!(
        body_text(&req.body),
        "[0,0,\"WebDriver:SetTimeouts\",{\"script\":10001,\"pageLoad\":10002,\"implicit\":10003}]"
    );
    assert_eq!(conn.timeouts(), None);
    // a failure leaves the cache alone
    assert!(conn.set_timeouts_result(t, &JsonData::Null).is_err());
    assert_eq!(conn.timeouts(), None);
    // the empty-object success updates it
    conn.set_timeouts_result(t, &JsonData::Obj(vec![])).unwrap();
    assert_eq!(conn.timeouts(), Some(t));
}

#[test]
fn context_from_value_reports_unknown_strings() {
    assert_eq!(
        Context::from_value(ResponseValue { value: "chrome".to_string() }),
        Ok(Context::Chrome)
    );
    assert_eq!(
        Context::from_value(ResponseValue { value: "content".to_string() }),
        Ok(Context::Content)
    );
    let err = Context::from_value(ResponseValue { value: "weird".to_string() }).unwrap_err();
    assert_eq!(err, MarionetteError::UnsupportedContext("weird".to_string()));
    assert!(!err.is_fatal());
}

#[test]
fn quit_consumes_the_connection() {
    let conn = MarionetteConnection::new(Compatibility::Webdriver);
    let req = conn.quit();
    assert_eq!(body_text(&req.body), "[0,0,\"Marionette:Quit\",{}]");
    let conn = MarionetteConnection::new(Compatibility::Marionette);
    let req = conn.quit();
    assert_eq!(body_text(&req.body), "[0,0,\"quitApplication\",{}]");
}

#[test]
fn addon_install_envelope() {
    let conn = MarionetteConnection::new(Compatibility::Webdriver);
    let req = conn.addon_install("/tmp/addon.xpi");
    assert_eq!(
        body_text(&req.body),
        "[0,0,\"Addon:Install\",{\"path\":\"/tmp/addon.xpi\"}]"
    );
}
