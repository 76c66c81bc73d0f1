//! The request/response core: a connection's message-id counter and
//! negotiated state, the command envelope, and the judgement of
//! incoming frames against the awaited message id.
//!
//! The connection performs no I/O.  Every command method returns a
//! [`Request`] whose body the caller frames and sends; each frame that
//! comes back is handed to [`read_response`], which either yields the
//! call's payload, tells the caller to keep waiting, or reports the
//! error the protocol assigns to the frame.

use vstd::prelude::*;
use crate::digits::dec_digits;
use crate::error::MarionetteError;
use crate::json::{
    JsonData, json_str_bytes, obj_lookup, obj_get, obj_take, parse_json, push_bytes, push_json_str,
    str_eq,
};
use crate::messages::{
    Cookie, ElementOp, ElementRef, Empty, ErrorObject, FindElementQuery, FrameSwitch, GetCommand,
    NewSessionResponse, QueryMethod, ResponseValue, Script, Timeouts, WindowHandle, opt_view,
    ser_add_cookie, ser_addon_install, ser_element_op, ser_empty,
    ser_find_query, ser_get_command, ser_frame_switch, ser_script, ser_timeouts,
    ser_window_handle, spec_element_ref, spec_error_object, spec_new_session, spec_element_refs,
    spec_window_handles, spec_cookies,
};

verus! {

/// Which generation of command names a connection speaks.  Fixed once
/// at session creation, for the connection's whole life.
#[derive(Debug, Clone, Copy, PartialEq, Eq, Structural)]
pub enum Compatibility {
    /// The old protocol, before the `WebDriver:` naming.
    Marionette,
    /// The newer naming: commands carry a `WebDriver:` or `Marionette:`
    /// prefix.
    Webdriver,
}

/// The execution realm scripts and element queries apply to.
#[derive(Debug, Clone, Copy, PartialEq, Eq, Structural)]
pub enum Context {
    /// Web content, such as a frame.
    Content,
    /// Browser-level context: dialogs and other privileged windows.
    Chrome,
}

/// The string each context travels as.
pub open spec fn context_str(c: Context) -> Seq<char> {
    match c {
        Context::Content => "content"@,
        Context::Chrome => "chrome"@,
    }
}

/// What a context value from the server means.
pub open spec fn spec_context_from(s: String) -> Result<Context, MarionetteError> {
    if s@ == "chrome"@ {
        Ok(Context::Chrome)
    } else if s@ == "content"@ {
        Ok(Context::Content)
    } else {
        Err(MarionetteError::UnsupportedContext(s))
    }
}

impl Context {
    /// The string this context travels as.
    pub fn name(&self) -> (r: &'static str)
        ensures
            r@ == context_str(*self),
    {
        match self {
            Context::Content => "content",
            Context::Chrome => "chrome",
        }
    }

    /// Read a context off the wire value the server reported.  A string
    /// outside `chrome`/`content` is a non-fatal error carrying it.
    pub fn from_value(val: ResponseValue<String>) -> (r: Result<Context, MarionetteError>)
        ensures
            r == spec_context_from(val.value),
    {
        if str_eq(val.value.as_str(), "chrome") {
            Ok(Context::Chrome)
        } else if str_eq(val.value.as_str(), "content") {
            Ok(Context::Content)
        } else {
            Err(MarionetteError::UnsupportedContext(val.value))
        }
    }
}

/// One outgoing command: its correlation id and the envelope text, as
/// bytes ready to be framed.
#[derive(Debug, PartialEq)]
pub struct Request {
    pub msgid: u64,
    pub body: Vec<u8>,
}

/// The request envelope: `[0,<msgid>,"<command>",<args>]`.
pub open spec fn envelope_bytes(msgid: u64, name: Seq<char>, args: Seq<u8>) -> Seq<u8> {
    seq![91u8, 48u8, 44u8] + dec_digits(msgid as nat) + seq![44u8] + json_str_bytes(name)
        + seq![44u8] + args + seq![93u8]
}

/// The command name a connection uses for one operation.
pub open spec fn cmd_name(legacy: Seq<char>, webdriver: Seq<char>, c: Compatibility) -> Seq<char> {
    match c {
        Compatibility::Marionette => legacy,
        Compatibility::Webdriver => webdriver,
    }
}

/// A synchronous protocol connection: the monotonic message-id counter,
/// the negotiated compatibility mode, and the last-known timeouts.
pub struct MarionetteConnection {
    pub(crate) msgid: u64,
    pub(crate) compatibility: Compatibility,
    pub(crate) timeouts: Option<Timeouts>,
}

/// `{}`, the empty argument object.
fn empty_args() -> (r: Vec<u8>)
    ensures
        r@ == ser_empty(),
{
    let mut v: Vec<u8> = Vec::new();
    v.push(123);
    v.push(125);
    proof {
        assert(v@ =~= ser_empty());
    }
    v
}

impl MarionetteConnection {
    /// The id the next request will carry; also the number of requests
    /// this connection has issued.
    pub closed spec fn spec_msgid(&self) -> u64 {
        self.msgid
    }

    pub closed spec fn spec_compat(&self) -> Compatibility {
        self.compatibility
    }

    pub closed spec fn spec_timeouts(&self) -> Option<Timeouts> {
        self.timeouts
    }

    /// The connection after one more request: only the counter moves.
    pub closed spec fn spec_bump(&self) -> MarionetteConnection {
        MarionetteConnection {
            msgid: (self.msgid + 1) as u64,
            compatibility: self.compatibility,
            timeouts: self.timeouts,
        }
    }

    /// Record the compatibility mode the session handshake settled on.
    pub(crate) fn set_compatibility(&mut self, c: Compatibility)
        ensures
            final(self).spec_msgid() == old(self).spec_msgid(),
            final(self).spec_compat() == c,
            final(self).spec_timeouts() == old(self).spec_timeouts(),
    {
        self.compatibility = c;
    }

    /// Record the timeouts the server reported.
    pub(crate) fn set_timeouts_cache(&mut self, t: Option<Timeouts>)
        ensures
            final(self).spec_msgid() == old(self).spec_msgid(),
            final(self).spec_compat() == old(self).spec_compat(),
            final(self).spec_timeouts() == t,
    {
        self.timeouts = t;
    }

    /// A connection in the given compatibility mode, with no request
    /// issued yet and no timeouts reported.
    pub fn new(compatibility: Compatibility) -> (r: Self)
        ensures
            r.spec_msgid() == 0,
            r.spec_compat() == compatibility,
            r.spec_timeouts() is None,
    {
        MarionetteConnection { msgid: 0, compatibility, timeouts: None }
    }

    /// The id the next request will carry.  A caller that somehow
    /// nears the counter's end must stop issuing requests.
    pub fn msgid(&self) -> (r: u64)
        ensures
            r == self.spec_msgid(),
    {
        self.msgid
    }

    pub fn compatibility(&self) -> (r: Compatibility)
        ensures
            r == self.spec_compat(),
    {
        self.compatibility
    }

    /// The timeouts last set, or last reported at session creation.
    pub fn timeouts(&self) -> (r: Option<Timeouts>)
        ensures
            r == self.spec_timeouts(),
    {
        self.timeouts
    }

    /// Build one command: take the next message id and wrap the command
    /// name and arguments in the request envelope.
    pub(crate) fn call(&mut self, name: &str, args: Vec<u8>) -> (r: Request)
        requires
            old(self).spec_msgid() < u64::MAX,
        ensures
            *final(self) == old(self).spec_bump(),
            r.msgid == old(self).spec_msgid(),
            r.body@ == envelope_bytes(old(self).spec_msgid(), name@, args@),
    {
        let msgid = self.msgid;
        self.msgid = msgid + 1;
        let mut body: Vec<u8> = Vec::new();
        body.push(91);
        body.push(48);
        body.push(44);
        crate::digits::push_dec(&mut body, msgid);
        body.push(44);
        push_json_str(&mut body, name);
        body.push(44);
        push_bytes(&mut body, args.as_slice());
        body.push(93);
        proof {
            assert(body@ =~= envelope_bytes(msgid, name@, args@));
        }
        Request { msgid, body }
    }
}

/// The argument of `setContext`: the context string under `value`.
pub open spec fn ser_context_value(c: Context) -> Seq<u8> {
    seq![123u8] + crate::json::json_key("value"@) + json_str_bytes(context_str(c)) + seq![125u8]
}

impl MarionetteConnection {
    /// Refresh the current page.  Answered with an empty object:
    /// [`response_empty`].
    pub fn refresh(&mut self) -> (r: Request)
        requires
            old(self).spec_msgid() < u64::MAX,
        ensures
            *final(self) == old(self).spec_bump(),
            r.msgid == old(self).spec_msgid(),
            r.body@ == envelope_bytes(
                old(self).spec_msgid(),
                cmd_name("refresh"@, "WebDriver:Refresh"@, old(self).spec_compat()),
                ser_empty(),
            ),
    {
        let args = empty_args();
        match self.compatibility {
            Compatibility::Marionette => self.call("refresh", args),
            Compatibility::Webdriver => self.call("WebDriver:Refresh", args),
        }
    }

    /// Go back to the previous page.  Answered with an empty object.
    pub fn go_back(&mut self) -> (r: Request)
        requires
            old(self).spec_msgid() < u64::MAX,
        ensures
            *final(self) == old(self).spec_bump(),
            r.msgid == old(self).spec_msgid(),
            r.body@ == envelope_bytes(
                old(self).spec_msgid(),
                cmd_name("goBack"@, "WebDriver:Back"@, old(self).spec_compat()),
                ser_empty(),
            ),
    {
        let args = empty_args();
        match self.compatibility {
            Compatibility::Marionette => self.call("goBack", args),
            Compatibility::Webdriver => self.call("WebDriver:Back", args),
        }
    }

    /// Go forward to the next page in history.  Answered with an empty
    /// object.
    pub fn go_forward(&mut self) -> (r: Request)
        requires
            old(self).spec_msgid() < u64::MAX,
        ensures
            *final(self) == old(self).spec_bump(),
            r.msgid == old(self).spec_msgid(),
            r.body@ == envelope_bytes(
                old(self).spec_msgid(),
                cmd_name("goForward"@, "WebDriver:Forward"@, old(self).spec_compat()),
                ser_empty(),
            ),
    {
        let args = empty_args();
        match self.compatibility {
            Compatibility::Marionette => self.call("goForward", args),
            Compatibility::Webdriver => self.call("WebDriver:Forward", args),
        }
    }

    /// Get the window title.  Answered with a string under `value`:
    /// [`response_string`].
    pub fn get_title(&mut self) -> (r: Request)
        requires
            old(self).spec_msgid() < u64::MAX,
        ensures
            *final(self) == old(self).spec_bump(),
            r.msgid == old(self).spec_msgid(),
            r.body@ == envelope_bytes(
                old(self).spec_msgid(),
                cmd_name("getTitle"@, "WebDriver:GetTitle"@, old(self).spec_compat()),
                ser_empty(),
            ),
    {
        let args = empty_args();
        match self.compatibility {
            Compatibility::Marionette => self.call("getTitle", args),
            Compatibility::Webdriver => self.call("WebDriver:GetTitle", args),
        }
    }

    /// Navigate to a URL.  Answered with an empty object.
    pub fn get(&mut self, url: &str) -> (r: Request)
        requires
            old(self).spec_msgid() < u64::MAX,
        ensures
            *final(self) == old(self).spec_bump(),
            r.msgid == old(self).spec_msgid(),
            r.body@ == envelope_bytes(
                old(self).spec_msgid(),
                cmd_name("get"@, "WebDriver:Navigate"@, old(self).spec_compat()),
                ser_get_command(url@),
            ),
    {
        let cmd = GetCommand::from(url);
        let mut args: Vec<u8> = Vec::new();
        cmd.write_json(&mut args);
        proof {
            assert(args@ =~= ser_get_command(url@));
        }
        match self.compatibility {
            Compatibility::Marionette => self.call("get", args),
            Compatibility::Webdriver => self.call("WebDriver:Navigate", args),
        }
    }

    /// `get` under its other name.
    pub fn navigate(&mut self, url: &str) -> (r: Request)
        requires
            old(self).spec_msgid() < u64::MAX,
        ensures
            *final(self) == old(self).spec_bump(),
            r.msgid == old(self).spec_msgid(),
            r.body@ == envelope_bytes(
                old(self).spec_msgid(),
                cmd_name("get"@, "WebDriver:Navigate"@, old(self).spec_compat()),
                ser_get_command(url@),
            ),
    {
        self.get(url)
    }

    /// Get the page URL.  Answered with a string under `value`.
    pub fn get_url(&mut self) -> (r: Request)
        requires
            old(self).spec_msgid() < u64::MAX,
        ensures
            *final(self) == old(self).spec_bump(),
            r.msgid == old(self).spec_msgid(),
            r.body@ == envelope_bytes(
                old(self).spec_msgid(),
                cmd_name("getCurrentUrl"@, "WebDriver:GetCurrentURL"@, old(self).spec_compat()),
                ser_empty(),
            ),
    {
        let args = empty_args();
        match self.compatibility {
            Compatibility::Marionette => self.call("getCurrentUrl", args),
            Compatibility::Webdriver => self.call("WebDriver:GetCurrentURL", args),
        }
    }

    /// The handle of the current window.  Answered with a string under
    /// `value`: [`response_window_handle`].
    pub fn get_window_handle(&mut self) -> (r: Request)
        requires
            old(self).spec_msgid() < u64::MAX,
        ensures
            *final(self) == old(self).spec_bump(),
            r.msgid == old(self).spec_msgid(),
            r.body@ == envelope_bytes(
                old(self).spec_msgid(),
                cmd_name("getWindowHandle"@, "WebDriver:GetWindowHandle"@, old(self).spec_compat()),
                ser_empty(),
            ),
    {
        let args = empty_args();
        match self.compatibility {
            Compatibility::Marionette => self.call("getWindowHandle", args),
            Compatibility::Webdriver => self.call("WebDriver:GetWindowHandle", args),
        }
    }

    /// The windows of the current context.  Answered with an array of
    /// strings: [`response_window_handles`].
    pub fn get_window_handles(&mut self) -> (r: Request)
        requires
            old(self).spec_msgid() < u64::MAX,
        ensures
            *final(self) == old(self).spec_bump(),
            r.msgid == old(self).spec_msgid(),
            r.body@ == envelope_bytes(
                old(self).spec_msgid(),
                cmd_name(
                    "getWindowHandles"@,
                    "WebDriver:GetWindowHandles"@,
                    old(self).spec_compat(),
                ),
                ser_empty(),
            ),
    {
        let args = empty_args();
        match self.compatibility {
            Compatibility::Marionette => self.call("getWindowHandles", args),
            Compatibility::Webdriver => self.call("WebDriver:GetWindowHandles", args),
        }
    }

    /// Switch to the given window.  Answered with an empty object.
    pub fn switch_to_window(&mut self, win: &WindowHandle) -> (r: Request)
        requires
            old(self).spec_msgid() < u64::MAX,
        ensures
            *final(self) == old(self).spec_bump(),
            r.msgid == old(self).spec_msgid(),
            r.body@ == envelope_bytes(
                old(self).spec_msgid(),
                cmd_name("switchToWindow"@, "WebDriver:SwitchToWindow"@, old(self).spec_compat()),
                ser_window_handle(win.0@),
            ),
    {
        let mut args: Vec<u8> = Vec::new();
        win.write_json(&mut args);
        proof {
            assert(args@ =~= ser_window_handle(win.0@));
        }
        match self.compatibility {
            Compatibility::Marionette => self.call("switchToWindow", args),
            Compatibility::Webdriver => self.call("WebDriver:SwitchToWindow", args),
        }
    }

    /// Ask for the current context.  Answered with a context string
    /// under `value`: [`response_context`].
    pub fn get_context(&mut self) -> (r: Request)
        requires
            old(self).spec_msgid() < u64::MAX,
        ensures
            *final(self) == old(self).spec_bump(),
            r.msgid == old(self).spec_msgid(),
            r.body@ == envelope_bytes(
                old(self).spec_msgid(),
                cmd_name("getContext"@, "Marionette:GetContext"@, old(self).spec_compat()),
                ser_empty(),
            ),
    {
        let args = empty_args();
        match self.compatibility {
            Compatibility::Marionette => self.call("getContext", args),
            Compatibility::Webdriver => self.call("Marionette:GetContext", args),
        }
    }

    /// Switch the execution context.  Answered with an empty object.
    pub fn set_context(&mut self, ctx: Context) -> (r: Request)
        requires
            old(self).spec_msgid() < u64::MAX,
        ensures
            *final(self) == old(self).spec_bump(),
            r.msgid == old(self).spec_msgid(),
            r.body@ == envelope_bytes(
                old(self).spec_msgid(),
                cmd_name("setContext"@, "Marionette:SetContext"@, old(self).spec_compat()),
                ser_context_value(ctx),
            ),
    {
        let mut args: Vec<u8> = Vec::new();
        args.push(123);
        crate::json::push_key(&mut args, "value");
        push_json_str(&mut args, ctx.name());
        args.push(125);
        proof {
            assert(args@ =~= ser_context_value(ctx));
        }
        match self.compatibility {
            Compatibility::Marionette => self.call("setContext", args),
            Compatibility::Webdriver => self.call("Marionette:SetContext", args),
        }
    }

    /// Execute a script.  Answered with the script's JSON result under
    /// `value`: [`response_value`].
    pub fn execute_script(&mut self, script: &Script) -> (r: Request)
        requires
            old(self).spec_msgid() < u64::MAX,
        ensures
            *final(self) == old(self).spec_bump(),
            r.msgid == old(self).spec_msgid(),
            r.body@ == envelope_bytes(
                old(self).spec_msgid(),
                cmd_name("executeScript"@, "WebDriver:ExecuteScript"@, old(self).spec_compat()),
                ser_script(script.script@, script.sandbox@, script.args@, script.scriptTimeout),
            ),
    {
        let mut args: Vec<u8> = Vec::new();
        script.write_json(&mut args);
        match self.compatibility {
            Compatibility::Marionette => self.call("executeScript", args),
            Compatibility::Webdriver => self.call("WebDriver:ExecuteScript", args),
        }
    }

    /// Execute a script that finishes through the async convention.
    /// Answered with its JSON result under `value`.
    pub fn execute_async_script(&mut self, script: &Script) -> (r: Request)
        requires
            old(self).spec_msgid() < u64::MAX,
        ensures
            *final(self) == old(self).spec_bump(),
            r.msgid == old(self).spec_msgid(),
            r.body@ == envelope_bytes(
                old(self).spec_msgid(),
                cmd_name(
                    "executeAsyncScript"@,
                    "WebDriver:ExecuteAsyncScript"@,
                    old(self).spec_compat(),
                ),
                ser_script(script.script@, script.sandbox@, script.args@, script.scriptTimeout),
            ),
    {
        let mut args: Vec<u8> = Vec::new();
        script.write_json(&mut args);
        match self.compatibility {
            Compatibility::Marionette => self.call("executeAsyncScript", args),
            Compatibility::Webdriver => self.call("WebDriver:ExecuteAsyncScript", args),
        }
    }

    /// Ask the server to set the global timeouts.  The local cache
    /// follows only when the answer arrives: [`set_timeouts_result`].
    pub fn set_timeouts(&mut self, t: Timeouts) -> (r: Request)
        requires
            old(self).spec_msgid() < u64::MAX,
        ensures
            *final(self) == old(self).spec_bump(),
            r.msgid == old(self).spec_msgid(),
            r.body@ == envelope_bytes(
                old(self).spec_msgid(),
                cmd_name("timeouts"@, "WebDriver:SetTimeouts"@, old(self).spec_compat()),
                ser_timeouts(t),
            ),
    {
        let mut args: Vec<u8> = Vec::new();
        t.write_json(&mut args);
        proof {
            assert(args@ =~= ser_timeouts(t));
        }
        match self.compatibility {
            Compatibility::Marionette => self.call("timeouts", args),
            Compatibility::Webdriver => self.call("WebDriver:SetTimeouts", args),
        }
    }

    /// Judge the answer to `set_timeouts`: on success the local cache
    /// now mirrors what the server accepted.
    pub fn set_timeouts_result(&mut self, t: Timeouts, d: &JsonData) -> (r: Result<
        Empty,
        MarionetteError,
    >)
        ensures
            r == spec_response_empty(*d),
            final(self).spec_msgid() == old(self).spec_msgid(),
            final(self).spec_compat() == old(self).spec_compat(),
            r is Ok ==> final(self).spec_timeouts() == Some(t),
            r is Err ==> final(self).spec_timeouts() == old(self).spec_timeouts(),
    {
        match response_empty(d) {
            Ok(e) => {
                self.timeouts = Some(t);
                Ok(e)
            },
            Err(x) => Err(x),
        }
    }

    /// The page source.  Answered with a string under `value`.
    pub fn get_page_source(&mut self) -> (r: Request)
        requires
            old(self).spec_msgid() < u64::MAX,
        ensures
            *final(self) == old(self).spec_bump(),
            r.msgid == old(self).spec_msgid(),
            r.body@ == envelope_bytes(
                old(self).spec_msgid(),
                cmd_name("getPageSource"@, "WebDriver:GetPageSource"@, old(self).spec_compat()),
                ser_empty(),
            ),
    {
        let args = empty_args();
        match self.compatibility {
            Compatibility::Marionette => self.call("getPageSource", args),
            Compatibility::Webdriver => self.call("WebDriver:GetPageSource", args),
        }
    }

    /// Query for elements matching `target`, inside the given element
    /// or the whole document.  Answered with an array of element
    /// references: [`response_element_refs`].
    pub fn find_elements(
        &mut self,
        method: QueryMethod,
        target: &str,
        inside: Option<&ElementRef>,
    ) -> (r: Request)
        requires
            old(self).spec_msgid() < u64::MAX,
        ensures
            *final(self) == old(self).spec_bump(),
            r.msgid == old(self).spec_msgid(),
            r.body@ == envelope_bytes(
                old(self).spec_msgid(),
                cmd_name("findElements"@, "WebDriver:FindElements"@, old(self).spec_compat()),
                ser_find_query(
                    target@,
                    method,
                    match inside {
                        Some(e) => Some(e.reference@),
                        None => None,
                    },
                ),
            ),
    {
        let query = FindElementQuery {
            value: target.to_owned(),
            using: method,
            element: match inside {
                Some(e) => Some(e.reference.clone()),
                None => None,
            },
        };
        let mut args: Vec<u8> = Vec::new();
        query.write_json(&mut args);
        match self.compatibility {
            Compatibility::Marionette => self.call("findElements", args),
            Compatibility::Webdriver => self.call("WebDriver:FindElements", args),
        }
    }

    /// An element's attribute.  Answered with a string or `null` under
    /// `value`: [`response_opt_string`] — a missing attribute is no
    /// error.
    pub fn get_element_attribute(&mut self, elem: &ElementRef, attrname: &str) -> (r: Request)
        requires
            old(self).spec_msgid() < u64::MAX,
        ensures
            *final(self) == old(self).spec_bump(),
            r.msgid == old(self).spec_msgid(),
            r.body@ == envelope_bytes(
                old(self).spec_msgid(),
                cmd_name(
                    "getElementAttribute"@,
                    "WebDriver:GetElementAttribute"@,
                    old(self).spec_compat(),
                ),
                ser_element_op(elem.reference@, Some(attrname@)),
            ),
    {
        let op = ElementOp { id: elem.reference.clone(), name: Some(attrname.to_owned()) };
        let mut args: Vec<u8> = Vec::new();
        op.write_json(&mut args);
        match self.compatibility {
            Compatibility::Marionette => self.call("getElementAttribute", args),
            Compatibility::Webdriver => self.call("WebDriver:GetElementAttribute", args),
        }
    }

    /// An element's property, as raw JSON under `value`; an absent
    /// property arrives as JSON `null`, not as an error:
    /// [`response_value`].
    pub fn get_element_property(&mut self, elem: &ElementRef, propname: &str) -> (r: Request)
        requires
            old(self).spec_msgid() < u64::MAX,
        ensures
            *final(self) == old(self).spec_bump(),
            r.msgid == old(self).spec_msgid(),
            r.body@ == envelope_bytes(
                old(self).spec_msgid(),
                cmd_name(
                    "getElementProperty"@,
                    "WebDriver:GetElementProperty"@,
                    old(self).spec_compat(),
                ),
                ser_element_op(elem.reference@, Some(propname@)),
            ),
    {
        let op = ElementOp { id: elem.reference.clone(), name: Some(propname.to_owned()) };
        let mut args: Vec<u8> = Vec::new();
        op.write_json(&mut args);
        match self.compatibility {
            Compatibility::Marionette => self.call("getElementProperty", args),
            Compatibility::Webdriver => self.call("WebDriver:GetElementProperty", args),
        }
    }

    /// An element's visible text.  Answered with a string under `value`.
    pub fn get_element_text(&mut self, elem: &ElementRef) -> (r: Request)
        requires
            old(self).spec_msgid() < u64::MAX,
        ensures
            *final(self) == old(self).spec_bump(),
            r.msgid == old(self).spec_msgid(),
            r.body@ == envelope_bytes(
                old(self).spec_msgid(),
                cmd_name("getElementText"@, "WebDriver:GetElementText"@, old(self).spec_compat()),
                ser_element_op(elem.reference@, None),
            ),
    {
        let op = ElementOp { id: elem.reference.clone(), name: None };
        let mut args: Vec<u8> = Vec::new();
        op.write_json(&mut args);
        match self.compatibility {
            Compatibility::Marionette => self.call("getElementText", args),
            Compatibility::Webdriver => self.call("WebDriver:GetElementText", args),
        }
    }

    /// The active frame, if any.  Answered with `null` or an element
    /// reference under `value`: [`response_active_frame`].
    pub fn get_active_frame(&mut self) -> (r: Request)
        requires
            old(self).spec_msgid() < u64::MAX,
        ensures
            *final(self) == old(self).spec_bump(),
            r.msgid == old(self).spec_msgid(),
            r.body@ == envelope_bytes(
                old(self).spec_msgid(),
                cmd_name("getActiveFrame"@, "WebDriver:GetActiveFrame"@, old(self).spec_compat()),
                ser_empty(),
            ),
    {
        let args = empty_args();
        match self.compatibility {
            Compatibility::Marionette => self.call("getActiveFrame", args),
            Compatibility::Webdriver => self.call("WebDriver:GetActiveFrame", args),
        }
    }

    /// Switch to the given frame, or to the top frame on `None`.
    /// Answered with an empty object.
    pub fn switch_to_frame(&mut self, elem: Option<ElementRef>) -> (r: Request)
        requires
            old(self).spec_msgid() < u64::MAX,
        ensures
            *final(self) == old(self).spec_bump(),
            r.msgid == old(self).spec_msgid(),
            r.body@ == envelope_bytes(
                old(self).spec_msgid(),
                cmd_name("switchToFrame"@, "WebDriver:SwitchToFrame"@, old(self).spec_compat()),
                ser_frame_switch(
                    false,
                    match elem {
                        Some(e) => Some(e.reference@),
                        None => None,
                    },
                ),
            ),
    {
        let arg = FrameSwitch::from_element(false, elem);
        let mut args: Vec<u8> = Vec::new();
        arg.write_json(&mut args);
        match self.compatibility {
            Compatibility::Marionette => self.call("switchToFrame", args),
            Compatibility::Webdriver => self.call("WebDriver:SwitchToFrame", args),
        }
    }

    /// Switch to the parent frame.  Answered with an empty object.
    pub fn switch_to_parent_frame(&mut self) -> (r: Request)
        requires
            old(self).spec_msgid() < u64::MAX,
        ensures
            *final(self) == old(self).spec_bump(),
            r.msgid == old(self).spec_msgid(),
            r.body@ == envelope_bytes(
                old(self).spec_msgid(),
                cmd_name(
                    "switchToParentFrame"@,
                    "WebDriver:SwitchToParentFrame"@,
                    old(self).spec_compat(),
                ),
                ser_empty(),
            ),
    {
        let args = empty_args();
        match self.compatibility {
            Compatibility::Marionette => self.call("switchToParentFrame", args),
            Compatibility::Webdriver => self.call("WebDriver:SwitchToParentFrame", args),
        }
    }

    /// Close the application.  Consumes the connection: after this
    /// request no further call is meaningful.
    pub fn quit(self) -> (r: Request)
        requires
            self.spec_msgid() < u64::MAX,
        ensures
            r.msgid == self.spec_msgid(),
            r.body@ == envelope_bytes(
                self.spec_msgid(),
                cmd_name("quitApplication"@, "Marionette:Quit"@, self.spec_compat()),
                ser_empty(),
            ),
    {
        let mut conn = self;
        let args = empty_args();
        match conn.compatibility {
            Compatibility::Marionette => conn.call("quitApplication", args),
            Compatibility::Webdriver => conn.call("Marionette:Quit", args),
        }
    }

    /// Install an XPI from an absolute path.  Consumes the connection:
    /// the session is not to be used after an installation.
    pub fn addon_install(self, path: &str) -> (r: Request)
        requires
            self.spec_msgid() < u64::MAX,
        ensures
            r.msgid == self.spec_msgid(),
            r.body@ == envelope_bytes(
                self.spec_msgid(),
                cmd_name("addon:install"@, "Addon:Install"@, self.spec_compat()),
                ser_addon_install(path@),
            ),
    {
        let mut conn = self;
        let mut args: Vec<u8> = Vec::new();
        args.push(123);
        crate::json::push_key(&mut args, "path");
        push_json_str(&mut args, path);
        args.push(125);
        proof {
            assert(args@ =~= ser_addon_install(path@));
        }
        match conn.compatibility {
            Compatibility::Marionette => conn.call("addon:install", args),
            Compatibility::Webdriver => conn.call("Addon:Install", args),
        }
    }

    /// Store a cookie.  This command exists only under its WebDriver
    /// name.  Answered with an empty object.
    pub fn add_cookie(&mut self, cookie: &Cookie) -> (r: Request)
        requires
            old(self).spec_msgid() < u64::MAX,
        ensures
            *final(self) == old(self).spec_bump(),
            r.msgid == old(self).spec_msgid(),
            r.body@ == envelope_bytes(
                old(self).spec_msgid(),
                "WebDriver:AddCookie"@,
                ser_add_cookie(
                    cookie.name@,
                    cookie.value@,
                    opt_view(cookie.path),
                    opt_view(cookie.domain),
                    cookie.secure,
                ),
            ),
    {
        let wrapped = crate::messages::AddCookie { cookie };
        let mut args: Vec<u8> = Vec::new();
        wrapped.write_json(&mut args);
        self.call("WebDriver:AddCookie", args)
    }

    /// List the cookies of the current page.  WebDriver-only.  Answered
    /// with an array of cookies: [`response_cookies`].
    pub fn get_cookies(&mut self) -> (r: Request)
        requires
            old(self).spec_msgid() < u64::MAX,
        ensures
            *final(self) == old(self).spec_bump(),
            r.msgid == old(self).spec_msgid(),
            r.body@ == envelope_bytes(old(self).spec_msgid(), "WebDriver:GetCookies"@, ser_empty()),
    {
        let args = empty_args();
        self.call("WebDriver:GetCookies", args)
    }

    /// Create the session under the legacy command name.
    pub(crate) fn new_session(&mut self, options: &crate::messages::NewSessionRequest) -> (r:
        Request)
        requires
            old(self).spec_msgid() < u64::MAX,
        ensures
            *final(self) == old(self).spec_bump(),
            r.msgid == old(self).spec_msgid(),
            r.body@ == envelope_bytes(
                old(self).spec_msgid(),
                "newSession"@,
                crate::messages::ser_new_session(options.capabilities.requiredCapabilities@),
            ),
    {
        let mut args: Vec<u8> = Vec::new();
        options.write_json(&mut args);
        self.call("newSession", args)
    }

    /// Create the session under the WebDriver command name.
    pub(crate) fn new_session_webdriver(
        &mut self,
        options: &crate::messages::NewSessionRequest,
    ) -> (r: Request)
        requires
            old(self).spec_msgid() < u64::MAX,
        ensures
            *final(self) == old(self).spec_bump(),
            r.msgid == old(self).spec_msgid(),
            r.body@ == envelope_bytes(
                old(self).spec_msgid(),
                "WebDriver:NewSession"@,
                crate::messages::ser_new_session(options.capabilities.requiredCapabilities@),
            ),
    {
        let mut args: Vec<u8> = Vec::new();
        options.write_json(&mut args);
        self.call("WebDriver:NewSession", args)
    }
}

// ---------------------------------------------------------------------
// Decoders for the payload a successful call carries.
// ---------------------------------------------------------------------

/// Commands that return nothing answer with an object, usually empty.
pub open spec fn spec_response_empty(d: JsonData) -> Result<Empty, MarionetteError> {
    match d {
        JsonData::Obj(_) => Ok(Empty {  }),
        _ => Err(MarionetteError::JSON),
    }
}

/// Accept the empty-object answer of a command that returns nothing.
pub fn response_empty(d: &JsonData) -> (r: Result<Empty, MarionetteError>)
    ensures
        r == spec_response_empty(*d),
{
    match d {
        JsonData::Obj(_) => Ok(Empty {  }),
        _ => Err(MarionetteError::JSON),
    }
}

/// A string result, wrapped under `value`.
pub open spec fn spec_response_string(d: JsonData) -> Result<String, MarionetteError> {
    match d {
        JsonData::Obj(e) => match obj_lookup(e@, "value"@) {
            Some(JsonData::Str(s)) => Ok(s),
            _ => Err(MarionetteError::JSON),
        },
        _ => Err(MarionetteError::JSON),
    }
}

/// Unwrap a string result from its `value` envelope.
pub fn response_string(d: &JsonData) -> (r: Result<String, MarionetteError>)
    ensures
        r == spec_response_string(*d),
{
    match d {
        JsonData::Obj(e) => match obj_get(e, "value") {
            Some(JsonData::Str(s)) => Ok(s.clone()),
            _ => Err(MarionetteError::JSON),
        },
        _ => Err(MarionetteError::JSON),
    }
}

/// A string-or-null result under `value`; an absent field also reads
/// as `None`.
pub open spec fn spec_response_opt_string(d: JsonData) -> Result<Option<String>, MarionetteError> {
    match d {
        JsonData::Obj(e) => match obj_lookup(e@, "value"@) {
            None => Ok(None),
            Some(JsonData::Null) => Ok(None),
            Some(JsonData::Str(s)) => Ok(Some(s)),
            Some(_) => Err(MarionetteError::JSON),
        },
        _ => Err(MarionetteError::JSON),
    }
}

/// Unwrap an optional string, as attribute reads return it: a missing
/// attribute is `None`, not an error.
pub fn response_opt_string(d: &JsonData) -> (r: Result<Option<String>, MarionetteError>)
    ensures
        r == spec_response_opt_string(*d),
{
    match d {
        JsonData::Obj(e) => match obj_get(e, "value") {
            None => Ok(None),
            Some(JsonData::Null) => Ok(None),
            Some(JsonData::Str(s)) => Ok(Some(s.clone())),
            Some(_) => Err(MarionetteError::JSON),
        },
        _ => Err(MarionetteError::JSON),
    }
}

/// The raw JSON under `value`; the field itself must be present.
pub open spec fn spec_response_value(d: JsonData) -> Result<JsonData, MarionetteError> {
    match d {
        JsonData::Obj(e) => match obj_lookup(e@, "value"@) {
            Some(v) => Ok(v),
            None => Err(MarionetteError::JSON),
        },
        _ => Err(MarionetteError::JSON),
    }
}

/// Unwrap the raw JSON result of a script or property read.
pub fn response_value(d: JsonData) -> (r: Result<JsonData, MarionetteError>)
    ensures
        r == spec_response_value(d),
{
    match d {
        JsonData::Obj(entries) => match obj_take(entries, "value") {
            Some(v) => Ok(v),
            None => Err(MarionetteError::JSON),
        },
        _ => Err(MarionetteError::JSON),
    }
}

/// A context report: the string under `value` read as a context.
pub open spec fn spec_response_context(d: JsonData) -> Result<Context, MarionetteError> {
    match d {
        JsonData::Obj(e) => match obj_lookup(e@, "value"@) {
            Some(JsonData::Str(s)) => spec_context_from(s),
            _ => Err(MarionetteError::JSON),
        },
        _ => Err(MarionetteError::JSON),
    }
}

/// Read the answer to `getContext`.  A context string this client does
/// not know is the non-fatal `UnsupportedContext` error.
pub fn response_context(d: &JsonData) -> (r: Result<Context, MarionetteError>)
    ensures
        r == spec_response_context(*d),
{
    match d {
        JsonData::Obj(e) => match obj_get(e, "value") {
            Some(JsonData::Str(s)) => Context::from_value(ResponseValue { value: s.clone() }),
            _ => Err(MarionetteError::JSON),
        },
        _ => Err(MarionetteError::JSON),
    }
}

/// A window handle under `value`.
pub open spec fn spec_response_window_handle(d: JsonData) -> Result<WindowHandle, MarionetteError> {
    match d {
        JsonData::Obj(e) => match obj_lookup(e@, "value"@) {
            Some(JsonData::Str(s)) => Ok(WindowHandle(s)),
            _ => Err(MarionetteError::JSON),
        },
        _ => Err(MarionetteError::JSON),
    }
}

/// Unwrap the current window's handle.
pub fn response_window_handle(d: &JsonData) -> (r: Result<WindowHandle, MarionetteError>)
    ensures
        r == spec_response_window_handle(*d),
{
    match d {
        JsonData::Obj(e) => match obj_get(e, "value") {
            Some(JsonData::Str(s)) => Ok(WindowHandle(s.clone())),
            _ => Err(MarionetteError::JSON),
        },
        _ => Err(MarionetteError::JSON),
    }
}

/// The active frame: `null` or an element reference under `value`.
pub open spec fn spec_response_active_frame(d: JsonData) -> Result<
    Option<ElementRef>,
    MarionetteError,
> {
    match d {
        JsonData::Obj(e) => match obj_lookup(e@, "value"@) {
            None => Ok(None),
            Some(JsonData::Null) => Ok(None),
            Some(v) => match spec_element_ref(v) {
                Some(er) => Ok(Some(er)),
                None => Err(MarionetteError::JSON),
            },
        },
        _ => Err(MarionetteError::JSON),
    }
}

/// Unwrap the answer to `getActiveFrame`.
pub fn response_active_frame(d: &JsonData) -> (r: Result<Option<ElementRef>, MarionetteError>)
    ensures
        r == spec_response_active_frame(*d),
{
    match d {
        JsonData::Obj(e) => match obj_get(e, "value") {
            None => Ok(None),
            Some(JsonData::Null) => Ok(None),
            Some(v) => match ElementRef::from_json(v) {
                Some(er) => Ok(Some(er)),
                None => Err(MarionetteError::JSON),
            },
        },
        _ => Err(MarionetteError::JSON),
    }
}

/// Read a `findElements` answer: the array of element references.
pub fn response_element_refs(d: &JsonData) -> (r: Result<Vec<ElementRef>, MarionetteError>)
    ensures
        match r {
            Ok(v) => spec_element_refs(*d) == Some(v@),
            Err(e) => e == MarionetteError::JSON && spec_element_refs(*d) is None,
        },
{
    match crate::messages::element_refs_from_json(d) {
        Some(v) => Ok(v),
        None => Err(MarionetteError::JSON),
    }
}

/// Read a `getWindowHandles` answer: the array of handles.
pub fn response_window_handles(d: &JsonData) -> (r: Result<Vec<WindowHandle>, MarionetteError>)
    ensures
        match r {
            Ok(v) => spec_window_handles(*d) == Some(v@),
            Err(e) => e == MarionetteError::JSON && spec_window_handles(*d) is None,
        },
{
    match crate::messages::window_handles_from_json(d) {
        Some(v) => Ok(v),
        None => Err(MarionetteError::JSON),
    }
}

/// Read a `WebDriver:GetCookies` answer: the array of cookies.
pub fn response_cookies(d: &JsonData) -> (r: Result<Vec<Cookie>, MarionetteError>)
    ensures
        match r {
            Ok(v) => spec_cookies(*d) == Some(v@),
            Err(e) => e == MarionetteError::JSON && spec_cookies(*d) is None,
        },
{
    match crate::messages::cookies_from_json(d) {
        Some(v) => Ok(v),
        None => Err(MarionetteError::JSON),
    }
}

/// Read a session-creation answer.
pub fn response_new_session(d: &JsonData) -> (r: Result<NewSessionResponse, MarionetteError>)
    ensures
        match r {
            Ok(n) => spec_new_session(*d) == Some(n),
            Err(e) => e == MarionetteError::JSON && spec_new_session(*d) is None,
        },
{
    match NewSessionResponse::from_json(d) {
        Some(n) => Ok(n),
        None => Err(MarionetteError::JSON),
    }
}

// ---------------------------------------------------------------------
// The dispatch laws.
// ---------------------------------------------------------------------

/// Response correlation, the ignoring half: a well-formed response that
/// carries some other message id judges to `Mismatch`, so the receive
/// loop discards it and keeps waiting.
pub proof fn lemma_response_correlation(d: JsonData, items: Seq<JsonData>, expected: u64, other: u64)
    requires
        d matches JsonData::Arr(v) && v@ == items,
        items.len() >= 2,
        items[0] == JsonData::UInt(1),
        items[1] == JsonData::UInt(other),
        other != expected,
    ensures
        spec_interpret(d, expected) == FrameEval::Mismatch,
{
}

/// Response correlation, the selecting half: when a foreign-id response
/// arrives first and a decisive frame follows, the receive loop answers
/// with the decisive frame's judgement.
pub proof fn lemma_select_skips_mismatch(frames: Seq<JsonData>, expected: u64)
    requires
        frames.len() >= 2,
        spec_interpret(frames[0], expected) == FrameEval::Mismatch,
        !(spec_interpret(frames[1], expected) is Mismatch),
    ensures
        spec_select(frames, expected) == Some(spec_interpret(frames[1], expected)),
{
    let rest = frames.drop_first();
    assert(rest[0] == frames[1]);
    assert(rest.len() >= 1);
    assert(spec_select(rest, expected) == Some(spec_interpret(rest[0], expected)));
    assert(spec_select(frames, expected) == spec_select(rest, expected));
}

/// Error mapping: a response addressed to the awaited id whose third
/// element is an error object always judges to the server's error,
/// carried as the non-fatal `Call` variant.
pub proof fn lemma_error_mapping(
    d: JsonData,
    items: Seq<JsonData>,
    expected: u64,
    eo: ErrorObject,
)
    requires
        d matches JsonData::Arr(v) && v@ == items,
        items.len() >= 3,
        items[0] == JsonData::UInt(1),
        items[1] == JsonData::UInt(expected),
        !(items[2] is Null),
        spec_error_object(items[2]) == Some(eo),
    ensures
        spec_interpret(d, expected) == FrameEval::Failed(MarionetteError::Call(eo)),
        !(MarionetteError::Call(eo) is UnsupportedContext),
{
}

/// How issuing one request moves a connection: the counter steps by
/// one and nothing else changes.
pub broadcast proof fn lemma_spec_bump(c: MarionetteConnection)
    ensures
        #![trigger c.spec_bump()]
        c.spec_msgid() < u64::MAX ==> c.spec_bump().spec_msgid() == c.spec_msgid() + 1,
        c.spec_bump().spec_compat() == c.spec_compat(),
        c.spec_bump().spec_timeouts() == c.spec_timeouts(),
{
}

/// A run of requests issued on one connection: `reqs` are the ids they
/// carried, in order.
pub open spec fn call_trace(c0: MarionetteConnection, reqs: Seq<u64>, c1: MarionetteConnection) -> bool
    decreases reqs.len(),
{
    if reqs.len() == 0 {
        c1 == c0
    } else {
        &&& c0.spec_msgid() < u64::MAX
        &&& reqs[0] == c0.spec_msgid()
        &&& call_trace(c0.spec_bump(), reqs.drop_first(), c1)
    }
}

/// Message-id monotonicity: over any run of requests on one connection,
/// the ids count up by one from where the counter stood, with no reuse;
/// on a fresh connection they are exactly `0, 1, ..., N-1`.
pub proof fn lemma_msgid_monotonic(c0: MarionetteConnection, reqs: Seq<u64>, c1: MarionetteConnection)
    requires
        call_trace(c0, reqs, c1),
    ensures
        c1.spec_msgid() == c0.spec_msgid() + reqs.len(),
        forall|i: int| 0 <= i < reqs.len() ==> reqs[i] == c0.spec_msgid() + i,
    decreases reqs.len(),
{
    if reqs.len() == 0 {
    } else {
        lemma_msgid_monotonic(c0.spec_bump(), reqs.drop_first(), c1);
        assert(forall|i: int| 1 <= i < reqs.len() ==> reqs[i] == reqs.drop_first()[i - 1]);
    }
}

/// The judgement of one incoming frame against the awaited message id.
#[derive(Debug, PartialEq)]
pub enum FrameEval {
    /// A response to some other id: log it and keep waiting.
    Mismatch,
    /// The wait is over and the call failed: a protocol violation, or
    /// the error object the server sent.
    Failed(MarionetteError),
    /// The wait is over: the call's result payload.
    Value(JsonData),
}

/// What the dispatcher makes of a parsed frame, given the id it awaits:
/// only arrays headed by the response tag `1` are accepted; a foreign
/// id is ignored; the third element carries `null` or the error object;
/// the fourth, present on success, is the payload.
pub open spec fn spec_interpret(d: JsonData, expected: u64) -> FrameEval {
    match d {
        JsonData::Arr(items) => {
            let s = items@;
            if s.len() == 0 {
                FrameEval::Failed(MarionetteError::UnexpectedType)
            } else if s[0] != JsonData::UInt(1) {
                FrameEval::Failed(MarionetteError::UnexpectedType)
            } else if s.len() < 2 {
                FrameEval::Failed(MarionetteError::InvalidMsgId)
            } else {
                match s[1] {
                    JsonData::UInt(id) => if id != expected {
                        FrameEval::Mismatch
                    } else if s.len() < 3 {
                        FrameEval::Failed(MarionetteError::InvalidResponseArray)
                    } else {
                        match s[2] {
                            JsonData::Null => if s.len() < 4 {
                                FrameEval::Failed(MarionetteError::InvalidResponseArray)
                            } else {
                                FrameEval::Value(s[3])
                            },
                            e => match spec_error_object(e) {
                                Some(eo) => FrameEval::Failed(MarionetteError::Call(eo)),
                                None => FrameEval::Failed(MarionetteError::JSON),
                            },
                        }
                    },
                    _ => FrameEval::Failed(MarionetteError::InvalidMsgId),
                }
            }
        },
        _ => FrameEval::Failed(MarionetteError::UnexpectedType),
    }
}

/// Judge one parsed frame against the awaited message id.
pub fn interpret_response(d: JsonData, expected: u64) -> (r: FrameEval)
    ensures
        r == spec_interpret(d, expected),
{
    match d {
        JsonData::Arr(items) => {
            let mut items = items;
            if items.len() == 0 {
                return FrameEval::Failed(MarionetteError::UnexpectedType);
            }
            let tag_ok = match &items[0] {
                JsonData::UInt(v) => *v == 1,
                _ => false,
            };
            if !tag_ok {
                return FrameEval::Failed(MarionetteError::UnexpectedType);
            }
            if items.len() < 2 {
                return FrameEval::Failed(MarionetteError::InvalidMsgId);
            }
            let id = match &items[1] {
                JsonData::UInt(v) => *v,
                _ => {
                    return FrameEval::Failed(MarionetteError::InvalidMsgId);
                },
            };
            if id != expected {
                return FrameEval::Mismatch;
            }
            if items.len() < 3 {
                return FrameEval::Failed(MarionetteError::InvalidResponseArray);
            }
            let err_is_null = match &items[2] {
                JsonData::Null => true,
                _ => false,
            };
            if !err_is_null {
                return match ErrorObject::from_json(&items[2]) {
                    Some(eo) => FrameEval::Failed(MarionetteError::Call(eo)),
                    None => FrameEval::Failed(MarionetteError::JSON),
                };
            }
            if items.len() < 4 {
                return FrameEval::Failed(MarionetteError::InvalidResponseArray);
            }
            let payload = items.remove(3);
            FrameEval::Value(payload)
        },
        _ => FrameEval::Failed(MarionetteError::UnexpectedType),
    }
}

/// Parse one frame's text and judge it against the awaited message id.
/// Text that is not JSON is a protocol error; the parsed tree is judged
/// exactly as [`spec_interpret`] says.
pub fn read_response(text: &str, expected: u64) -> (r: FrameEval)
    ensures
        r == (match crate::json::spec_parse_json(text@) {
            None => FrameEval::Failed(MarionetteError::JSON),
            Some(d) => spec_interpret(d, expected),
        }),
{
    match parse_json(text) {
        None => FrameEval::Failed(MarionetteError::JSON),
        Some(d) => interpret_response(d, expected),
    }
}

/// What a finite run of frames settles to: the first frame that is not
/// a foreign-id response decides the call; `None` when every frame was
/// a mismatch and the caller must keep reading.
pub open spec fn spec_select(frames: Seq<JsonData>, expected: u64) -> Option<FrameEval>
    decreases frames.len(),
{
    if frames.len() == 0 {
        None
    } else {
        let e = spec_interpret(frames[0], expected);
        if e is Mismatch {
            spec_select(frames.drop_first(), expected)
        } else {
            Some(e)
        }
    }
}

/// Run the dispatcher's receive loop over a run of already-parsed
/// frames: responses with a foreign id are discarded, and the first
/// frame addressed to `expected` (or breaking the protocol) decides.
#[verifier::loop_isolation(false)]
pub fn select_response(frames: Vec<JsonData>, expected: u64) -> (r: Option<FrameEval>)
    ensures
        r == spec_select(frames@, expected),
{
    let ghost orig = frames@;
    let mut frames = frames;
    proof {
        assert(orig.skip(0) =~= orig);
    }
    let ghost mut k: int = 0;
    loop
        invariant
            0 <= k <= orig.len(),
            frames@ == orig.skip(k),
            spec_select(orig, expected) == spec_select(orig.skip(k), expected),
        decreases orig.len() - k,
    {
        if frames.len() == 0 {
            return None;
        }
        proof {
            assert(orig.skip(k)[0] == orig[k]);
            assert(orig.skip(k).drop_first() =~= orig.skip(k + 1));
        }
        let d = frames.remove(0);
        let e = interpret_response(d, expected);
        let mismatch = match &e {
            FrameEval::Mismatch => true,
            _ => false,
        };
        if !mismatch {
            return Some(e);
        }
        proof {
            k = k + 1;
        }
    }
}

} // verus!
