//! The scoped context switch and the preference scripts that run
//! inside it.

use marionette::connection::{Compatibility, Context, MarionetteConnection};
use marionette::error::MarionetteError;
use marionette::json::JsonData;
use marionette::messages::ErrorObject;
use marionette::prefs::{get_pref_script, set_pref_script, ContextScope};

fn body_text(body: &[u8]) -> String {
    String::from_utf8(body.to_vec()).unwrap()
}

fn context_value(name: &str) -> JsonData {
    JsonData::Obj(vec![("value".to_string(), JsonData::Str(name.to_string()))])
}

#[test]
fn scope_restores_prior_context_when_the_operation_fails() {
    let mut conn = MarionetteConnection::new(Compatibility::Webdriver);
    let (mut scope, req) = ContextScope::enter(&mut conn, Context::Chrome);
    assert_eq!(body_text(&req.body), "[0,0,\"Marionette:GetContext\",{}]");
    // the server reports the prior context: content
    let switch = scope.current_reply(&mut conn, Ok(&context_value("content"))).unwrap();
    assert_eq!(
        body_text(&switch.body),
        "[0,1,\"Marionette:SetContext\",{\"value\":\"chrome\"}]"
    );
    scope.switch_reply(None).unwrap();
    // the wrapped operation failed; the restore goes out anyway, and
    // the operation's error comes through untouched
    let failure = MarionetteError::Call(ErrorObject {
        error: "javascript error".to_string(),
        message: "boom".to_string(),
        stacktrace: "".to_string(),
    });
    let (restore, result) = scope.leave(&mut conn, Err(failure.clone()));
    assert_eq!(
        body_text(&restore.body),
        "[0,2,\"Marionette:SetContext\",{\"value\":\"content\"}]"
    );
    assert_eq!(result, Err(failure));
    // a failing restore is only noted, never propagated
    let noted = scope.restore_reply(Some(MarionetteError::UnexpectedType));
    assert_eq!(noted, Some(MarionetteError::UnexpectedType));
}

#[test]
fn scope_restores_prior_context_on_success_too() {
    let mut conn = MarionetteConnection::new(Compatibility::Webdriver);
    let (mut scope, _req) = ContextScope::enter(&mut conn, Context::Chrome);
    scope.current_reply(&mut conn, Ok(&context_value("chrome"))).unwrap();
    scope.switch_reply(None).unwrap();
    let (restore, result) = scope.leave(&mut conn, Ok(JsonData::Null));
    assert_eq!(
        body_text(&restore.body),
        "[0,2,\"Marionette:SetContext\",{\"value\":\"chrome\"}]"
    );
    assert_eq!(result, Ok(JsonData::Null));
    assert_eq!(scope.restore_reply(None), None);
}

#[test]
fn unreadable_context_fails_the_scope() {
    let mut conn = MarionetteConnection::new(Compatibility::Webdriver);
    let (mut scope, _req) = ContextScope::enter(&mut conn, Context::Chrome);
    let err = scope
        .current_reply(&mut conn, Ok(&context_value("somewhere else")))
        .unwrap_err();
    assert_eq!(
        err,
        MarionetteError::UnsupportedContext("somewhere else".to_string())
    );
}

#[test]
fn set_pref_script_is_privileged_and_carries_the_arguments() {
    let script = set_pref_script("browser.uitour.enabled", JsonData::Bool(false));
    assert_eq!(script.sandbox, "system");
    assert_eq!(script.args.len(), 3);
    assert_eq!(
        script.args[0],
        JsonData::Str("browser.uitour.enabled".to_string())
    );
    assert_eq!(script.args[1], JsonData::Bool(false));
    assert_eq!(script.args[2], JsonData::Bool(false));
    assert!(script.script.contains("Preferences.jsm"));
    assert!(script.script.contains("prefs.set(pref, value);"));
}

#[test]
fn get_pref_script_asks_for_a_string_value() {
    let script = get_pref_script("startup.homepage_welcome_url");
    assert_eq!(script.sandbox, "system");
    assert_eq!(
        script.args[0],
        JsonData::Str("startup.homepage_welcome_url".to_string())
    );
    assert_eq!(script.args[1], JsonData::Bool(false));
    assert_eq!(script.args[2], JsonData::Str("nsISupportsString".to_string()));
    assert!(script.script.contains("return prefs.get(pref, null,"));
}

#[test]
fn pref_write_travels_as_a_chrome_script_call() {
    let mut conn = MarionetteConnection::new(Compatibility::Webdriver);
    let (mut scope, _req) = ContextScope::enter(&mut conn, Context::Chrome);
    scope.current_reply(&mut conn, Ok(&context_value("content"))).unwrap();
    scope.switch_reply(None).unwrap();
    let script = set_pref_script("startup.homepage_welcome_url", JsonData::Str("http://localhost".to_string()));
    let req = conn.execute_script(&script);
    let text = body_text(&req.body);
    assert!(text.starts_with("[0,2,\"WebDriver:ExecuteScript\",{\"script\":\""));
    assert!(text.contains("\"sandbox\":\"system\""));
    assert!(text.contains(
        "\"args\":[\"startup.homepage_welcome_url\",\"http://localhost\",false]"
    ));
    let (restore, _result) = scope.leave(&mut conn, Ok(JsonData::Null));
    assert_eq!(
        body_text(&restore.body),
        "[0,3,\"Marionette:SetContext\",{\"value\":\"content\"}]"
    );
}
