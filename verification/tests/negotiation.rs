//! The session handshake: version gating, the legacy fallback, and the
//! liveness probes.

use marionette::connection::Compatibility;
use marionette::error::MarionetteError;
use marionette::json::JsonData;
use marionette::messages::Timeouts;
use marionette::negotiate::{Negotiation, ProbeStep};

fn body_text(body: &[u8]) -> String {
    String::from_utf8(body.to_vec()).unwrap()
}

fn session_response_with_timeouts() -> JsonData {
    JsonData::Obj(vec![
        ("sessionId".to_string(), JsonData::Str("s-1".to_string())),
        (
            "capabilities".to_string(),
            JsonData::Obj(vec![(
                "timeouts".to_string(),
                JsonData::Obj(vec![
                    ("script".to_string(), JsonData::UInt(10001)),
                    ("pageLoad".to_string(), JsonData::UInt(10002)),
                    ("implicit".to_string(), JsonData::UInt(10003)),
                ]),
            )]),
        ),
    ])
}

#[test]
fn greeting_version_three_starts_webdriver_session() {
    let mut neg = Negotiation::start();
    let req = neg.greeting("{\"marionetteProtocol\":3,\"applicationType\":\"gecko\"}").unwrap();
    assert_eq!(req.msgid, 0);
    assert_eq!(
        body_text(&req.body),
        "[0,0,\"WebDriver:NewSession\",{\"capabilities\":{\"requiredCapabilities\":{}}}]"
    );
}

#[test]
fn unsupported_version_aborts() {
    let mut neg = Negotiation::start();
    let err = neg.greeting("{\"marionetteProtocol\":2}").unwrap_err();
    assert_eq!(err, MarionetteError::UnsupportedProtocolVersion);
    assert!(err.is_fatal());
}

#[test]
fn garbled_greeting_aborts() {
    let mut neg = Negotiation::start();
    assert_eq!(neg.greeting("not json"), Err(MarionetteError::JSON));
    let mut neg = Negotiation::start();
    assert_eq!(neg.greeting("{\"somethingElse\":1}"), Err(MarionetteError::JSON));
}

#[test]
fn fallback_to_legacy_session_fixes_marionette_compatibility() {
    let mut neg = Negotiation::start();
    neg.greeting("{\"marionetteProtocol\":3}").unwrap();
    // the WebDriver-style call failed: exactly one retry, legacy name
    let retry = neg
        .session_reply(Err(MarionetteError::Call(marionette::messages::ErrorObject {
            error: "unknown command".to_string(),
            message: "no such method".to_string(),
            stacktrace: "".to_string(),
        })))
        .unwrap();
    assert_eq!(retry.msgid, 1);
    assert_eq!(
        body_text(&retry.body),
        "[0,1,\"newSession\",{\"capabilities\":{\"requiredCapabilities\":{}}}]"
    );
    // the legacy call succeeds: compatibility is fixed to the old names
    let probe = neg.session_reply(Ok(session_response_with_timeouts())).unwrap();
    assert_eq!(body_text(&probe.body), "[0,2,\"getTitle\",{}]");
    assert_eq!(neg.probe_reply(true), ProbeStep::Finished);
    let conn = neg.finish();
    assert_eq!(conn.compatibility(), Compatibility::Marionette);
    assert_eq!(
        conn.timeouts(),
        Some(Timeouts { script: 10001, pageLoad: 10002, implicit: 10003 })
    );
}

#[test]
fn legacy_failure_propagates() {
    let mut neg = Negotiation::start();
    neg.greeting("{\"marionetteProtocol\":3}").unwrap();
    neg.session_reply(Err(MarionetteError::JSON)).unwrap();
    let err = neg.session_reply(Err(MarionetteError::UnexpectedType)).unwrap_err();
    assert_eq!(err, MarionetteError::UnexpectedType);
}

#[test]
fn webdriver_session_keeps_webdriver_compatibility() {
    let mut neg = Negotiation::start();
    neg.greeting("{\"marionetteProtocol\":3}").unwrap();
    let probe = neg.session_reply(Ok(session_response_with_timeouts())).unwrap();
    assert_eq!(body_text(&probe.body), "[0,1,\"WebDriver:GetTitle\",{}]");
    assert_eq!(neg.probe_reply(true), ProbeStep::Finished);
    let conn = neg.finish();
    assert_eq!(conn.compatibility(), Compatibility::Webdriver);
}

#[test]
fn session_without_timeouts_leaves_cache_empty() {
    let mut neg = Negotiation::start();
    neg.greeting("{\"marionetteProtocol\":3}").unwrap();
    let resp = JsonData::Obj(vec![
        ("sessionId".to_string(), JsonData::Str("s-2".to_string())),
        ("capabilities".to_string(), JsonData::Obj(vec![])),
    ]);
    neg.session_reply(Ok(resp)).unwrap();
    neg.probe_reply(true);
    let conn = neg.finish();
    assert_eq!(conn.timeouts(), None);
}

#[test]
fn probes_retry_with_growing_sleeps_and_give_up_tolerantly() {
    let mut neg = Negotiation::start();
    neg.greeting("{\"marionetteProtocol\":3}").unwrap();
    neg.session_reply(Ok(session_response_with_timeouts())).unwrap();
    assert_eq!(neg.probe_reply(false), ProbeStep::SleepRetry(0));
    let req = neg.next_probe();
    assert_eq!(body_text(&req.body), "[0,2,\"WebDriver:GetTitle\",{}]");
    assert_eq!(neg.probe_reply(false), ProbeStep::SleepRetry(2));
    neg.next_probe();
    assert_eq!(neg.probe_reply(false), ProbeStep::SleepRetry(4));
    neg.next_probe();
    // the last probe's failure still hands the connection over
    assert_eq!(neg.probe_reply(false), ProbeStep::Finished);
    let conn = neg.finish();
    assert_eq!(conn.compatibility(), Compatibility::Webdriver);
}
