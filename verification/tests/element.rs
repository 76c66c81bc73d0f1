//! The element handle: each method issues the right command for the
//! element it wraps.

use marionette::connection::{Compatibility, MarionetteConnection};
use marionette::element::Element;
use marionette::messages::{ElementRef, QueryMethod};

fn body_text(body: &[u8]) -> String {
    String::from_utf8(body.to_vec()).unwrap()
}

#[test]
fn element_commands_carry_its_reference() {
    let mut conn = MarionetteConnection::new(Compatibility::Webdriver);
    let elem = Element::new(&ElementRef::from_str("e-1"));
    let req = elem.attr(&mut conn, "src");
    assert_eq!(
        body_text(&req.body),
        "[0,0,\"WebDriver:GetElementAttribute\",{\"id\":\"e-1\",\"name\":\"src\"}]"
    );
    let req = elem.property(&mut conn, "outerHTML");
    assert_eq!(
        body_text(&req.body),
        "[0,1,\"WebDriver:GetElementProperty\",{\"id\":\"e-1\",\"name\":\"outerHTML\"}]"
    );
    let req = elem.text(&mut conn);
    assert_eq!(
        body_text(&req.body),
        "[0,2,\"WebDriver:GetElementText\",{\"id\":\"e-1\",\"name\":null}]"
    );
    let req = elem.find_elements(&mut conn, QueryMethod::CssSelector, "img");
    assert_eq!(
        body_text(&req.body),
        "[0,3,\"WebDriver:FindElements\",{\"value\":\"img\",\"using\":\"css selector\",\"element\":\"e-1\"}]"
    );
}

#[test]
fn document_wide_queries_have_no_element() {
    let mut conn = MarionetteConnection::new(Compatibility::Webdriver);
    let req = conn.find_elements(QueryMethod::CssSelector, "body", None);
    assert_eq!(
        body_text(&req.body),
        "[0,0,\"WebDriver:FindElements\",{\"value\":\"body\",\"using\":\"css selector\"}]"
    );
}

#[test]
fn frame_switch_commands() {
    let mut conn = MarionetteConnection::new(Compatibility::Webdriver);
    let req = conn.switch_to_frame(Some(ElementRef::from_str("frame-2")));
    assert_eq!(
        body_text(&req.body),
        "[0,0,\"WebDriver:SwitchToFrame\",{\"focus\":false,\"element\":\"frame-2\"}]"
    );
    let req = conn.switch_to_frame(None);
    assert_eq!(
        body_text(&req.body),
        "[0,1,\"WebDriver:SwitchToFrame\",{\"focus\":false,\"element\":null}]"
    );
    let req = conn.switch_to_parent_frame();
    assert_eq!(
        body_text(&req.body),
        "[0,2,\"WebDriver:SwitchToParentFrame\",{}]"
    );
}
