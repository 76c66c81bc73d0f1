//! The typed messages of the protocol: their fields, the exact bytes
//! they serialize to, and verified decoders for the shapes the server
//! sends back.

#![allow(non_snake_case)]

use vstd::prelude::*;
use crate::json::{
    JsonData, json_str_bytes, json_key, json_opt_str, json_ser_items, json_ser_entries,
    null_bytes, bool_bytes, obj_lookup, obj_get, push_json_str, push_key, push_null, push_bool,
    push_opt_json_str, push_items,
};
use crate::digits::dec_digits;

verus! {

/// `Some(s@)` of an optional string.
pub open spec fn opt_view(o: Option<String>) -> Option<Seq<char>> {
    match o {
        Some(s) => Some(s@),
        None => None,
    }
}

/// The structured error a failed call carries: an error code, a
/// human-readable message, and the remote stack trace.
#[derive(Debug, Clone, PartialEq)]
pub struct ErrorObject {
    pub error: String,
    pub message: String,
    pub stacktrace: String,
}

/// The greeting the server sends on connect.
#[derive(Debug, PartialEq)]
pub struct ServerInfo {
    pub marionetteProtocol: u64,
}

/// The capabilities the server reports at session creation.
#[derive(Debug, PartialEq)]
pub struct Capabilities {
    pub timeouts: Option<Timeouts>,
}

/// What a new session reports back.
#[derive(Debug, PartialEq)]
pub struct NewSessionResponse {
    pub sessionId: String,
    pub capabilities: Capabilities,
}

/// The empty argument object, and the empty result many commands return.
#[derive(Debug, PartialEq)]
pub struct Empty {}

/// The bytes of the empty object.
pub open spec fn ser_empty() -> Seq<u8> {
    seq![123u8, 125u8]
}

impl Empty {
    pub fn write_json(&self, out: &mut Vec<u8>)
        ensures
            final(out)@ == old(out)@ + ser_empty(),
    {
        out.push(123);
        out.push(125);
        proof {
            assert(out@ =~= old(out)@ + ser_empty());
        }
    }
}

/// The server-side timeouts, in milliseconds: script interruption, page
/// load, and implicit element waits.
#[derive(Debug, Clone, Copy, PartialEq, Eq, Structural)]
pub struct Timeouts {
    /// when to interrupt a script that is being evaluated
    pub script: u64,
    /// the limit used to interrupt navigation of the browsing context
    pub pageLoad: u64,
    /// when to abort locating an element
    pub implicit: u64,
}

pub open spec fn ser_timeouts(t: Timeouts) -> Seq<u8> {
    seq![123u8] + json_key("script"@) + dec_digits(t.script as nat) + seq![44u8] + json_key(
        "pageLoad"@,
    ) + dec_digits(t.pageLoad as nat) + seq![44u8] + json_key("implicit"@) + dec_digits(
        t.implicit as nat,
    ) + seq![125u8]
}

impl Timeouts {
    pub fn write_json(&self, out: &mut Vec<u8>)
        ensures
            final(out)@ == old(out)@ + ser_timeouts(*self),
    {
        out.push(123);
        push_key(out, "script");
        crate::digits::push_dec(out, self.script);
        out.push(44);
        push_key(out, "pageLoad");
        crate::digits::push_dec(out, self.pageLoad);
        out.push(44);
        push_key(out, "implicit");
        crate::digits::push_dec(out, self.implicit);
        out.push(125);
        proof {
            assert(out@ =~= old(out)@ + ser_timeouts(*self));
        }
    }
}

/// A typed result wrapped in an object under a `value` attribute, as
/// many responses use it.
#[derive(Debug, PartialEq)]
pub struct ResponseValue<T> {
    pub value: T,
}

/// The argument of a navigation command.
#[derive(Debug, PartialEq)]
pub struct GetCommand {
    pub url: String,
}

pub open spec fn ser_get_command(url: Seq<char>) -> Seq<u8> {
    seq![123u8] + json_key("url"@) + json_str_bytes(url) + seq![125u8]
}

impl GetCommand {
    pub fn from(url: &str) -> (r: GetCommand)
        ensures
            r.url@ == url@,
    {
        GetCommand { url: url.to_owned() }
    }

    pub fn write_json(&self, out: &mut Vec<u8>)
        ensures
            final(out)@ == old(out)@ + ser_get_command(self.url@),
    {
        out.push(123);
        push_key(out, "url");
        push_json_str(out, self.url.as_str());
        out.push(125);
        proof {
            assert(out@ =~= old(out)@ + ser_get_command(self.url@));
        }
    }
}

/// A log message to push to the server, with an arbitrary level.
#[derive(Debug, PartialEq)]
pub struct LogMsg {
    pub value: String,
    pub level: String,
}

pub open spec fn ser_log_msg(value: Seq<char>, level: Seq<char>) -> Seq<u8> {
    seq![123u8] + json_key("value"@) + json_str_bytes(value) + seq![44u8] + json_key("level"@)
        + json_str_bytes(level) + seq![125u8]
}

impl LogMsg {
    pub fn new(msg: &str, lvl: &str) -> (r: LogMsg)
        ensures
            r.value@ == msg@,
            r.level@ == lvl@,
    {
        LogMsg { value: msg.to_owned(), level: lvl.to_owned() }
    }

    pub fn write_json(&self, out: &mut Vec<u8>)
        ensures
            final(out)@ == old(out)@ + ser_log_msg(self.value@, self.level@),
    {
        out.push(123);
        push_key(out, "value");
        push_json_str(out, self.value.as_str());
        out.push(44);
        push_key(out, "level");
        push_json_str(out, self.level.as_str());
        out.push(125);
        proof {
            assert(out@ =~= old(out)@ + ser_log_msg(self.value@, self.level@));
        }
    }
}

/// A log entry as the server returns it: level, message, date.
#[derive(Debug, PartialEq)]
pub struct LogEntry(pub String, pub String, pub String);

impl LogEntry {
    pub fn level(&self) -> (r: &str)
        ensures
            r@ == self.0@,
    {
        self.0.as_str()
    }

    pub fn msg(&self) -> (r: &str)
        ensures
            r@ == self.1@,
    {
        self.1.as_str()
    }
}

/// An opaque handle to a window.  It arrives as a plain string but is
/// sent as an object naming the handle twice, under the old key `name`
/// and the newer `handle`.
#[derive(Debug, PartialEq)]
pub struct WindowHandle(pub String);

pub open spec fn ser_window_handle(h: Seq<char>) -> Seq<u8> {
    seq![123u8] + json_key("name"@) + json_str_bytes(h) + seq![44u8] + json_key("handle"@)
        + json_str_bytes(h) + seq![125u8]
}

impl WindowHandle {
    pub fn from_str(handle: &str) -> (r: WindowHandle)
        ensures
            r.0@ == handle@,
    {
        WindowHandle(handle.to_owned())
    }

    pub fn write_json(&self, out: &mut Vec<u8>)
        ensures
            final(out)@ == old(out)@ + ser_window_handle(self.0@),
    {
        out.push(123);
        push_key(out, "name");
        push_json_str(out, self.0.as_str());
        out.push(44);
        push_key(out, "handle");
        push_json_str(out, self.0.as_str());
        out.push(125);
        proof {
            assert(out@ =~= old(out)@ + ser_window_handle(self.0@));
        }
    }
}

/// A unit of remote execution: source, a named sandbox, a JSON argument
/// list (always an array: the async variant rejects `null`), and a
/// deprecated per-call timeout that old servers still accept.
#[derive(Debug, PartialEq)]
pub struct Script {
    pub script: String,
    pub sandbox: String,
    pub args: Vec<JsonData>,
    pub scriptTimeout: Option<u64>,
}

pub open spec fn ser_opt_u64(t: Option<u64>) -> Seq<u8> {
    match t {
        Some(v) => dec_digits(v as nat),
        None => null_bytes(),
    }
}

pub open spec fn ser_script(
    script: Seq<char>,
    sandbox: Seq<char>,
    args: Seq<JsonData>,
    t: Option<u64>,
) -> Seq<u8> {
    seq![123u8] + json_key("script"@) + json_str_bytes(script) + seq![44u8] + json_key("sandbox"@)
        + json_str_bytes(sandbox) + seq![44u8] + json_key("args"@) + seq![91u8] + json_ser_items(
        args,
    ) + seq![93u8] + seq![44u8] + json_key("scriptTimeout"@) + ser_opt_u64(t) + seq![125u8]
}

impl Script {
    pub fn new(src: &str) -> (r: Script)
        ensures
            r.script@ == src@,
            r.sandbox@ == "default"@,
            r.args@.len() == 0,
            r.scriptTimeout is None,
    {
        Script {
            script: src.to_owned(),
            sandbox: "default".to_owned(),
            args: Vec::new(),
            scriptTimeout: None,
        }
    }

    /// Set the script's `arguments` array.
    pub fn arguments(&mut self, args: Vec<JsonData>)
        ensures
            final(self).args == args,
            final(self).script == old(self).script,
            final(self).sandbox == old(self).sandbox,
            final(self).scriptTimeout == old(self).scriptTimeout,
    {
        self.args = args;
    }

    /// Execute the script in a named sandbox.
    pub fn sandbox(&mut self, name: &str)
        ensures
            final(self).sandbox@ == name@,
            final(self).script == old(self).script,
            final(self).args == old(self).args,
            final(self).scriptTimeout == old(self).scriptTimeout,
    {
        self.sandbox = name.to_owned();
    }

    /// Set a per-call execution timeout in milliseconds.  Removed from
    /// the server side in 2019; old servers still honour it.
    pub fn timeout(&mut self, timeout_ms: u64)
        ensures
            final(self).scriptTimeout == Some(timeout_ms),
            final(self).script == old(self).script,
            final(self).sandbox == old(self).sandbox,
            final(self).args == old(self).args,
    {
        self.scriptTimeout = Some(timeout_ms);
    }

    pub fn write_json(&self, out: &mut Vec<u8>)
        ensures
            final(out)@ == old(out)@ + ser_script(
                self.script@,
                self.sandbox@,
                self.args@,
                self.scriptTimeout,
            ),
    {
        out.push(123);
        push_key(out, "script");
        push_json_str(out, self.script.as_str());
        out.push(44);
        push_key(out, "sandbox");
        push_json_str(out, self.sandbox.as_str());
        out.push(44);
        push_key(out, "args");
        push_items(out, &self.args);
        out.push(44);
        push_key(out, "scriptTimeout");
        match self.scriptTimeout {
            Some(v) => crate::digits::push_dec(out, v),
            None => push_null(out),
        }
        out.push(125);
        proof {
            assert(out@ =~= old(out)@ + ser_script(
                self.script@,
                self.sandbox@,
                self.args@,
                self.scriptTimeout,
            ));
        }
    }
}

/// The ways an element query can address its targets.
#[derive(Debug, Clone, Copy, PartialEq, Eq, Structural)]
pub enum QueryMethod {
    Id,
    Name,
    ClassName,
    TagName,
    CssSelector,
    LinkText,
    PartialLinkText,
    XPath,
}

/// The strategy name each query method sends.
pub open spec fn query_method_str(m: QueryMethod) -> Seq<char> {
    match m {
        QueryMethod::Id => "id"@,
        QueryMethod::Name => "name"@,
        QueryMethod::ClassName => "class name"@,
        QueryMethod::TagName => "tag name"@,
        QueryMethod::CssSelector => "css selector"@,
        QueryMethod::LinkText => "link text"@,
        QueryMethod::PartialLinkText => "partial link text"@,
        QueryMethod::XPath => "xpath"@,
    }
}

impl QueryMethod {
    pub fn name(&self) -> (r: &'static str)
        ensures
            r@ == query_method_str(*self),
    {
        match self {
            QueryMethod::Id => "id",
            QueryMethod::Name => "name",
            QueryMethod::ClassName => "class name",
            QueryMethod::TagName => "tag name",
            QueryMethod::CssSelector => "css selector",
            QueryMethod::LinkText => "link text",
            QueryMethod::PartialLinkText => "partial link text",
            QueryMethod::XPath => "xpath",
        }
    }
}

/// An element query: the target, the method, and an optional element to
/// search inside.  An absent element is left out of the message, not
/// sent as `null`: recent servers reject the latter.
#[derive(Debug, PartialEq)]
pub struct FindElementQuery {
    pub value: String,
    pub using: QueryMethod,
    pub element: Option<String>,
}

pub open spec fn ser_find_query(
    value: Seq<char>,
    using: QueryMethod,
    element: Option<Seq<char>>,
) -> Seq<u8> {
    seq![123u8] + json_key("value"@) + json_str_bytes(value) + seq![44u8] + json_key("using"@)
        + json_str_bytes(query_method_str(using)) + (match element {
        Some(e) => seq![44u8] + json_key("element"@) + json_str_bytes(e),
        None => Seq::empty(),
    }) + seq![125u8]
}

impl FindElementQuery {
    pub fn write_json(&self, out: &mut Vec<u8>)
        ensures
            final(out)@ == old(out)@ + ser_find_query(
                self.value@,
                self.using,
                opt_view(self.element),
            ),
    {
        out.push(123);
        push_key(out, "value");
        push_json_str(out, self.value.as_str());
        out.push(44);
        push_key(out, "using");
        push_json_str(out, self.using.name());
        match &self.element {
            Some(e) => {
                out.push(44);
                push_key(out, "element");
                push_json_str(out, e.as_str());
            },
            None => {},
        }
        out.push(125);
        proof {
            assert(out@ =~= old(out)@ + ser_find_query(
                self.value@,
                self.using,
                opt_view(self.element),
            ));
        }
    }
}

/// An opaque, server-issued element reference.  The server is the sole
/// authority on whether it is still valid; equality is by identifier.
#[derive(Debug, Clone, PartialEq)]
pub struct ElementRef {
    pub reference: String,
}

/// The WebDriver specification's key for element references.
pub open spec fn element_key() -> Seq<char> {
    "element-6066-11e4-a52e-4f735466cecf"@
}

/// An element reference is sent under both the legacy key `ELEMENT` and
/// the WebDriver key, so either server generation can read it.
pub open spec fn ser_element_ref(r: Seq<char>) -> Seq<u8> {
    seq![123u8] + json_key("ELEMENT"@) + json_str_bytes(r) + seq![44u8] + json_key(element_key())
        + json_str_bytes(r) + seq![125u8]
}

impl ElementRef {
    pub fn from_str(handle: &str) -> (r: ElementRef)
        ensures
            r.reference@ == handle@,
    {
        ElementRef { reference: handle.to_owned() }
    }

    pub fn write_json(&self, out: &mut Vec<u8>)
        ensures
            final(out)@ == old(out)@ + ser_element_ref(self.reference@),
    {
        out.push(123);
        push_key(out, "ELEMENT");
        push_json_str(out, self.reference.as_str());
        out.push(44);
        push_key(out, "element-6066-11e4-a52e-4f735466cecf");
        push_json_str(out, self.reference.as_str());
        out.push(125);
        proof {
            assert(out@ =~= old(out)@ + ser_element_ref(self.reference@));
        }
    }
}

/// An operation on one element: its reference and, for attribute or
/// property reads, the name asked for.
#[derive(Debug, PartialEq)]
pub struct ElementOp {
    pub id: String,
    pub name: Option<String>,
}

pub open spec fn ser_element_op(id: Seq<char>, name: Option<Seq<char>>) -> Seq<u8> {
    seq![123u8] + json_key("id"@) + json_str_bytes(id) + seq![44u8] + json_key("name"@)
        + json_opt_str(name) + seq![125u8]
}

impl ElementOp {
    pub fn write_json(&self, out: &mut Vec<u8>)
        ensures
            final(out)@ == old(out)@ + ser_element_op(self.id@, opt_view(self.name)),
    {
        out.push(123);
        push_key(out, "id");
        push_json_str(out, self.id.as_str());
        out.push(44);
        push_key(out, "name");
        push_opt_json_str(out, &self.name);
        out.push(125);
        proof {
            assert(out@ =~= old(out)@ + ser_element_op(self.id@, opt_view(self.name)));
        }
    }
}

/// A `switchToFrame` request: the frame to focus, `null` for the top.
#[derive(Debug, PartialEq)]
pub struct FrameSwitch {
    pub focus: bool,
    pub element: Option<String>,
}

pub open spec fn ser_frame_switch(focus: bool, element: Option<Seq<char>>) -> Seq<u8> {
    seq![123u8] + json_key("focus"@) + bool_bytes(focus) + seq![44u8] + json_key("element"@)
        + json_opt_str(element) + seq![125u8]
}

impl FrameSwitch {
    /// Switch to the top level frame.
    pub fn top(focus: bool) -> (r: FrameSwitch)
        ensures
            r.focus == focus,
            r.element is None,
    {
        FrameSwitch { focus, element: None }
    }

    /// Switch to the frame of the given element, top when `None`.
    pub fn from_element(focus: bool, element: Option<ElementRef>) -> (r: FrameSwitch)
        ensures
            r.focus == focus,
            opt_view(r.element) == (match element {
                Some(e) => Some(e.reference@),
                None => None::<Seq<char>>,
            }),
    {
        FrameSwitch {
            focus,
            element: match element {
                Some(e) => Some(e.reference),
                None => None,
            },
        }
    }

    pub fn write_json(&self, out: &mut Vec<u8>)
        ensures
            final(out)@ == old(out)@ + ser_frame_switch(self.focus, opt_view(self.element)),
    {
        out.push(123);
        push_key(out, "focus");
        push_bool(out, self.focus);
        out.push(44);
        push_key(out, "element");
        push_opt_json_str(out, &self.element);
        out.push(125);
        proof {
            assert(out@ =~= old(out)@ + ser_frame_switch(self.focus, opt_view(self.element)));
        }
    }
}

/// An addon installation request: the absolute path of the XPI file.
#[derive(Debug, PartialEq)]
pub struct AddonInstall {
    pub path: String,
}

pub open spec fn ser_addon_install(path: Seq<char>) -> Seq<u8> {
    seq![123u8] + json_key("path"@) + json_str_bytes(path) + seq![125u8]
}

impl AddonInstall {
    pub fn write_json(&self, out: &mut Vec<u8>)
        ensures
            final(out)@ == old(out)@ + ser_addon_install(self.path@),
    {
        out.push(123);
        push_key(out, "path");
        push_json_str(out, self.path.as_str());
        out.push(125);
        proof {
            assert(out@ =~= old(out)@ + ser_addon_install(self.path@));
        }
    }
}

/// A browser cookie.  Only name and value are guaranteed to round-trip
/// through the server; absent optional fields are left out of the
/// message entirely.
#[derive(Debug, Clone, PartialEq)]
pub struct Cookie {
    pub name: String,
    pub value: String,
    pub path: Option<String>,
    pub domain: Option<String>,
    pub secure: Option<bool>,
}

pub open spec fn ser_cookie(
    name: Seq<char>,
    value: Seq<char>,
    path: Option<Seq<char>>,
    domain: Option<Seq<char>>,
    secure: Option<bool>,
) -> Seq<u8> {
    seq![123u8] + json_key("name"@) + json_str_bytes(name) + seq![44u8] + json_key("value"@)
        + json_str_bytes(value) + (match path {
        Some(p) => seq![44u8] + json_key("path"@) + json_str_bytes(p),
        None => Seq::empty(),
    }) + (match domain {
        Some(x) => seq![44u8] + json_key("domain"@) + json_str_bytes(x),
        None => Seq::empty(),
    }) + (match secure {
        Some(b) => seq![44u8] + json_key("secure"@) + bool_bytes(b),
        None => Seq::empty(),
    }) + seq![125u8]
}

impl Cookie {
    #[verifier::rlimit(100)]
    pub fn write_json(&self, out: &mut Vec<u8>)
        ensures
            final(out)@ == old(out)@ + ser_cookie(
                self.name@,
                self.value@,
                opt_view(self.path),
                opt_view(self.domain),
                self.secure,
            ),
    {
        let ghost base = old(out)@ + seq![123u8] + json_key("name"@) + json_str_bytes(self.name@)
            + seq![44u8] + json_key("value"@) + json_str_bytes(self.value@);
        out.push(123);
        push_key(out, "name");
        push_json_str(out, self.name.as_str());
        out.push(44);
        push_key(out, "value");
        push_json_str(out, self.value.as_str());
        proof {
            assert(out@ =~= base);
        }
        let ghost with_path = base + (match opt_view(self.path) {
            Some(p) => seq![44u8] + json_key("path"@) + json_str_bytes(p),
            None => Seq::<u8>::empty(),
        });
        match &self.path {
            Some(p) => {
                out.push(44);
                push_key(out, "path");
                push_json_str(out, p.as_str());
            },
            None => {},
        }
        proof {
            assert(out@ =~= with_path);
        }
        let ghost with_domain = with_path + (match opt_view(self.domain) {
            Some(x) => seq![44u8] + json_key("domain"@) + json_str_bytes(x),
            None => Seq::<u8>::empty(),
        });
        match &self.domain {
            Some(x) => {
                out.push(44);
                push_key(out, "domain");
                push_json_str(out, x.as_str());
            },
            None => {},
        }
        proof {
            assert(out@ =~= with_domain);
        }
        let ghost with_secure = with_domain + (match self.secure {
            Some(b) => seq![44u8] + json_key("secure"@) + bool_bytes(b),
            None => Seq::<u8>::empty(),
        });
        match self.secure {
            Some(b) => {
                out.push(44);
                push_key(out, "secure");
                push_bool(out, b);
            },
            None => {},
        }
        proof {
            assert(out@ =~= with_secure);
        }
        out.push(125);
        proof {
            assert(out@ =~= old(out)@ + ser_cookie(
                self.name@,
                self.value@,
                opt_view(self.path),
                opt_view(self.domain),
                self.secure,
            ));
        }
    }
}

/// The argument of `WebDriver:AddCookie`: the cookie under a `cookie` key.
#[derive(Debug, PartialEq)]
pub struct AddCookie<'a> {
    pub cookie: &'a Cookie,
}

pub open spec fn ser_add_cookie(
    name: Seq<char>,
    value: Seq<char>,
    path: Option<Seq<char>>,
    domain: Option<Seq<char>>,
    secure: Option<bool>,
) -> Seq<u8> {
    seq![123u8] + json_key("cookie"@) + ser_cookie(name, value, path, domain, secure) + seq![125u8]
}

impl<'a> AddCookie<'a> {
    pub fn write_json(&self, out: &mut Vec<u8>)
        ensures
            final(out)@ == old(out)@ + ser_add_cookie(
                self.cookie.name@,
                self.cookie.value@,
                opt_view(self.cookie.path),
                opt_view(self.cookie.domain),
                self.cookie.secure,
            ),
    {
        out.push(123);
        push_key(out, "cookie");
        self.cookie.write_json(out);
        out.push(125);
        proof {
            assert(out@ =~= old(out)@ + ser_add_cookie(
                self.cookie.name@,
                self.cookie.value@,
                opt_view(self.cookie.path),
                opt_view(self.cookie.domain),
                self.cookie.secure,
            ));
        }
    }
}

/// A capability the client can require at session creation.
#[derive(Debug, PartialEq)]
pub enum Capability {
    PageLoadStrategy(String),
}

/// The required capabilities, keyed by capability name.  Only
/// `pageLoadStrategy` can be required, so the map holds at most that
/// one entry.
#[derive(Debug, PartialEq)]
pub struct CapabilityRequest {
    pub requiredCapabilities: Vec<(String, JsonData)>,
}

/// The argument of session creation.
#[derive(Debug, PartialEq)]
pub struct NewSessionRequest {
    pub capabilities: CapabilityRequest,
}

pub open spec fn ser_new_session(caps: Seq<(String, JsonData)>) -> Seq<u8> {
    seq![123u8] + json_key("capabilities"@) + seq![123u8] + json_key("requiredCapabilities"@)
        + seq![123u8] + json_ser_entries(caps) + seq![125u8] + seq![125u8] + seq![125u8]
}

impl NewSessionRequest {
    pub fn new() -> (r: NewSessionRequest)
        ensures
            r.capabilities.requiredCapabilities@.len() == 0,
    {
        NewSessionRequest { capabilities: CapabilityRequest { requiredCapabilities: Vec::new() } }
    }

    /// Require a capability.  The one capability there is replaces any
    /// earlier value it had.
    pub fn required(&mut self, cap: Capability)
        ensures
            cap matches Capability::PageLoadStrategy(s) ==> {
                &&& final(self).capabilities.requiredCapabilities@.len() == 1
                &&& final(self).capabilities.requiredCapabilities@[0].0@ == "pageLoadStrategy"@
                &&& final(self).capabilities.requiredCapabilities@[0].1 == JsonData::Str(s)
            },
    {
        match cap {
            Capability::PageLoadStrategy(s) => {
                let mut entries: Vec<(String, JsonData)> = Vec::new();
                entries.push(("pageLoadStrategy".to_owned(), JsonData::Str(s)));
                self.capabilities.requiredCapabilities = entries;
            },
        }
    }

    #[verifier::loop_isolation(false)]
    pub fn write_json(&self, out: &mut Vec<u8>)
        ensures
            final(out)@ == old(out)@ + ser_new_session(self.capabilities.requiredCapabilities@),
    {
        out.push(123);
        push_key(out, "capabilities");
        out.push(123);
        push_key(out, "requiredCapabilities");
        out.push(123);
        let mut i: usize = 0;
        proof {
            assert(self.capabilities.requiredCapabilities@.subrange(0, 0) =~= Seq::<(
                String,
                JsonData,
            )>::empty());
        }
        while i < self.capabilities.requiredCapabilities.len()
            invariant
                i <= self.capabilities.requiredCapabilities.len(),
                out@ == old(out)@ + seq![123u8] + json_key("capabilities"@) + seq![123u8]
                    + json_key("requiredCapabilities"@) + seq![123u8] + json_ser_entries(
                    self.capabilities.requiredCapabilities@.subrange(0, i as int),
                ),
            decreases self.capabilities.requiredCapabilities.len() - i,
        {
            if i > 0 {
                out.push(44);
            }
            let ghost pre = self.capabilities.requiredCapabilities@.subrange(0, i as int);
            let ghost e = self.capabilities.requiredCapabilities@[i as int];
            proof {
                assert(self.capabilities.requiredCapabilities@.subrange(0, i + 1) =~= pre.push(e));
                crate::json::lemma_ser_entries_push(pre, e);
            }
            let pair = &self.capabilities.requiredCapabilities[i];
            push_json_str(out, pair.0.as_str());
            out.push(58);
            crate::json::json_write(&pair.1, out);
            proof {
                assert(out@ =~= old(out)@ + seq![123u8] + json_key("capabilities"@) + seq![123u8]
                    + json_key("requiredCapabilities"@) + seq![123u8] + json_ser_entries(
                    self.capabilities.requiredCapabilities@.subrange(0, i + 1),
                ));
            }
            i = i + 1;
        }
        out.push(125);
        out.push(125);
        out.push(125);
        proof {
            assert(self.capabilities.requiredCapabilities@.subrange(
                0,
                self.capabilities.requiredCapabilities@.len() as int,
            ) =~= self.capabilities.requiredCapabilities@);
            assert(out@ =~= old(out)@ + ser_new_session(
                self.capabilities.requiredCapabilities@,
            ));
        }
    }
}

// ---------------------------------------------------------------------
// Decoders for the JSON shapes the server sends back.  Each one has a
// spec mirror that says exactly which trees decode and to what.
// ---------------------------------------------------------------------

/// The timeouts object: three mandatory unsigned fields.
pub open spec fn spec_timeouts_from(d: JsonData) -> Option<Timeouts> {
    match d {
        JsonData::Obj(e) => match (
            obj_lookup(e@, "script"@),
            obj_lookup(e@, "pageLoad"@),
            obj_lookup(e@, "implicit"@),
        ) {
            (Some(JsonData::UInt(s)), Some(JsonData::UInt(p)), Some(JsonData::UInt(i))) => Some(
                Timeouts { script: s, pageLoad: p, implicit: i },
            ),
            _ => None,
        },
        _ => None,
    }
}

impl Timeouts {
    pub fn from_json(d: &JsonData) -> (r: Option<Timeouts>)
        ensures
            r == spec_timeouts_from(*d),
    {
        match d {
            JsonData::Obj(e) => {
                let s = match obj_get(e, "script") {
                    Some(JsonData::UInt(s)) => *s,
                    _ => {
                        return None;
                    },
                };
                let p = match obj_get(e, "pageLoad") {
                    Some(JsonData::UInt(p)) => *p,
                    _ => {
                        return None;
                    },
                };
                let i = match obj_get(e, "implicit") {
                    Some(JsonData::UInt(i)) => *i,
                    _ => {
                        return None;
                    },
                };
                Some(Timeouts { script: s, pageLoad: p, implicit: i })
            },
            _ => None,
        }
    }
}

/// The greeting: an object whose `marionetteProtocol` field is unsigned.
pub open spec fn spec_server_info(d: JsonData) -> Option<ServerInfo> {
    match d {
        JsonData::Obj(e) => match obj_lookup(e@, "marionetteProtocol"@) {
            Some(JsonData::UInt(v)) => Some(ServerInfo { marionetteProtocol: v }),
            _ => None,
        },
        _ => None,
    }
}

impl ServerInfo {
    pub fn from_json(d: &JsonData) -> (r: Option<ServerInfo>)
        ensures
            r == spec_server_info(*d),
    {
        match d {
            JsonData::Obj(e) => match obj_get(e, "marionetteProtocol") {
                Some(JsonData::UInt(v)) => Some(ServerInfo { marionetteProtocol: *v }),
                _ => None,
            },
            _ => None,
        }
    }
}

/// The error object: three mandatory string fields.
pub open spec fn spec_error_object(d: JsonData) -> Option<ErrorObject> {
    match d {
        JsonData::Obj(e) => match (
            obj_lookup(e@, "error"@),
            obj_lookup(e@, "message"@),
            obj_lookup(e@, "stacktrace"@),
        ) {
            (Some(JsonData::Str(a)), Some(JsonData::Str(m)), Some(JsonData::Str(t))) => Some(
                ErrorObject { error: a, message: m, stacktrace: t },
            ),
            _ => None,
        },
        _ => None,
    }
}

impl ErrorObject {
    pub fn from_json(d: &JsonData) -> (r: Option<ErrorObject>)
        ensures
            r == spec_error_object(*d),
    {
        match d {
            JsonData::Obj(e) => {
                let a = match obj_get(e, "error") {
                    Some(JsonData::Str(s)) => s.clone(),
                    _ => {
                        return None;
                    },
                };
                let m = match obj_get(e, "message") {
                    Some(JsonData::Str(s)) => s.clone(),
                    _ => {
                        return None;
                    },
                };
                let t = match obj_get(e, "stacktrace") {
                    Some(JsonData::Str(s)) => s.clone(),
                    _ => {
                        return None;
                    },
                };
                Some(ErrorObject { error: a, message: m, stacktrace: t })
            },
            _ => None,
        }
    }
}

/// An element reference on the wire: deserialization reads only the
/// WebDriver specification key and ignores every other field.
pub open spec fn spec_element_ref(d: JsonData) -> Option<ElementRef> {
    match d {
        JsonData::Obj(e) => match obj_lookup(e@, element_key()) {
            Some(JsonData::Str(s)) => Some(ElementRef { reference: s }),
            _ => None,
        },
        _ => None,
    }
}

impl ElementRef {
    pub fn from_json(d: &JsonData) -> (r: Option<ElementRef>)
        ensures
            r == spec_element_ref(*d),
    {
        match d {
            JsonData::Obj(e) => match obj_get(e, "element-6066-11e4-a52e-4f735466cecf") {
                Some(JsonData::Str(s)) => Some(ElementRef { reference: s.clone() }),
                _ => None,
            },
            _ => None,
        }
    }
}

/// A window handle arrives as a plain string.
pub open spec fn spec_window_handle(d: JsonData) -> Option<WindowHandle> {
    match d {
        JsonData::Str(s) => Some(WindowHandle(s)),
        _ => None,
    }
}

impl WindowHandle {
    pub fn from_json(d: &JsonData) -> (r: Option<WindowHandle>)
        ensures
            r == spec_window_handle(*d),
    {
        match d {
            JsonData::Str(s) => Some(WindowHandle(s.clone())),
            _ => None,
        }
    }
}

/// An optional string field: absent and `null` both mean `None`, any
/// other non-string value refuses the whole object.
pub open spec fn spec_opt_str_field(
    entries: Seq<(String, JsonData)>,
    key: Seq<char>,
) -> Option<Option<String>> {
    match obj_lookup(entries, key) {
        None => Some(None),
        Some(JsonData::Null) => Some(None),
        Some(JsonData::Str(s)) => Some(Some(s)),
        Some(_) => None,
    }
}

pub(crate) fn opt_str_field(entries: &Vec<(String, JsonData)>, key: &str) -> (r: Option<Option<String>>)
    ensures
        r == spec_opt_str_field(entries@, key@),
{
    match obj_get(entries, key) {
        None => Some(None),
        Some(JsonData::Null) => Some(None),
        Some(JsonData::Str(s)) => Some(Some(s.clone())),
        Some(_) => None,
    }
}

/// An optional boolean field, with the same conventions.
pub open spec fn spec_opt_bool_field(
    entries: Seq<(String, JsonData)>,
    key: Seq<char>,
) -> Option<Option<bool>> {
    match obj_lookup(entries, key) {
        None => Some(None),
        Some(JsonData::Null) => Some(None),
        Some(JsonData::Bool(b)) => Some(Some(b)),
        Some(_) => None,
    }
}

pub(crate) fn opt_bool_field(entries: &Vec<(String, JsonData)>, key: &str) -> (r: Option<Option<bool>>)
    ensures
        r == spec_opt_bool_field(entries@, key@),
{
    match obj_get(entries, key) {
        None => Some(None),
        Some(JsonData::Null) => Some(None),
        Some(JsonData::Bool(b)) => Some(Some(*b)),
        Some(_) => None,
    }
}

/// A cookie: mandatory name and value strings, optional path, domain
/// and secure fields.
pub open spec fn spec_cookie(d: JsonData) -> Option<Cookie> {
    match d {
        JsonData::Obj(e) => match (obj_lookup(e@, "name"@), obj_lookup(e@, "value"@)) {
            (Some(JsonData::Str(n)), Some(JsonData::Str(v))) => match (
                spec_opt_str_field(e@, "path"@),
                spec_opt_str_field(e@, "domain"@),
                spec_opt_bool_field(e@, "secure"@),
            ) {
                (Some(p), Some(x), Some(s)) => Some(
                    Cookie { name: n, value: v, path: p, domain: x, secure: s },
                ),
                _ => None,
            },
            _ => None,
        },
        _ => None,
    }
}

impl Cookie {
    pub fn from_json(d: &JsonData) -> (r: Option<Cookie>)
        ensures
            r == spec_cookie(*d),
    {
        match d {
            JsonData::Obj(e) => {
                let n = match obj_get(e, "name") {
                    Some(JsonData::Str(s)) => s.clone(),
                    _ => {
                        return None;
                    },
                };
                let v = match obj_get(e, "value") {
                    Some(JsonData::Str(s)) => s.clone(),
                    _ => {
                        return None;
                    },
                };
                let p = match opt_str_field(e, "path") {
                    Some(p) => p,
                    None => {
                        return None;
                    },
                };
                let x = match opt_str_field(e, "domain") {
                    Some(x) => x,
                    None => {
                        return None;
                    },
                };
                let s = match opt_bool_field(e, "secure") {
                    Some(s) => s,
                    None => {
                        return None;
                    },
                };
                Some(Cookie { name: n, value: v, path: p, domain: x, secure: s })
            },
            _ => None,
        }
    }
}

/// The session-creation response: a session id, and the capabilities
/// object whose `timeouts` member is optional.
pub open spec fn spec_new_session(d: JsonData) -> Option<NewSessionResponse> {
    match d {
        JsonData::Obj(e) => match (obj_lookup(e@, "sessionId"@), obj_lookup(e@, "capabilities"@)) {
            (Some(JsonData::Str(sid)), Some(JsonData::Obj(ce))) => match obj_lookup(
                ce@,
                "timeouts"@,
            ) {
                None => Some(
                    NewSessionResponse {
                        sessionId: sid,
                        capabilities: Capabilities { timeouts: None },
                    },
                ),
                Some(JsonData::Null) => Some(
                    NewSessionResponse {
                        sessionId: sid,
                        capabilities: Capabilities { timeouts: None },
                    },
                ),
                Some(t) => match spec_timeouts_from(t) {
                    Some(tt) => Some(
                        NewSessionResponse {
                            sessionId: sid,
                            capabilities: Capabilities { timeouts: Some(tt) },
                        },
                    ),
                    None => None,
                },
            },
            _ => None,
        },
        _ => None,
    }
}

impl NewSessionResponse {
    pub fn from_json(d: &JsonData) -> (r: Option<NewSessionResponse>)
        ensures
            r == spec_new_session(*d),
    {
        match d {
            JsonData::Obj(e) => {
                let sid = match obj_get(e, "sessionId") {
                    Some(JsonData::Str(s)) => s.clone(),
                    _ => {
                        return None;
                    },
                };
                let ce = match obj_get(e, "capabilities") {
                    Some(JsonData::Obj(ce)) => ce,
                    _ => {
                        return None;
                    },
                };
                let timeouts = match obj_get(ce, "timeouts") {
                    None => None,
                    Some(JsonData::Null) => None,
                    Some(t) => match Timeouts::from_json(t) {
                        Some(tt) => Some(tt),
                        None => {
                            return None;
                        },
                    },
                };
                Some(
                    NewSessionResponse {
                        sessionId: sid,
                        capabilities: Capabilities { timeouts },
                    },
                )
            },
            _ => None,
        }
    }
}

/// A list of element references.
pub open spec fn spec_element_ref_list(items: Seq<JsonData>) -> Option<Seq<ElementRef>>
    decreases items.len(),
{
    if items.len() == 0 {
        Some(Seq::empty())
    } else {
        match spec_element_ref_list(items.drop_last()) {
            None => None,
            Some(pre) => match spec_element_ref(items.last()) {
                Some(e) => Some(pre.push(e)),
                None => None,
            },
        }
    }
}

/// Once a prefix refuses to decode, the whole list refuses.
proof fn lemma_element_ref_list_none(items: Seq<JsonData>, i: int)
    requires
        0 <= i <= items.len(),
        spec_element_ref_list(items.subrange(0, i)) is None,
    ensures
        spec_element_ref_list(items) is None,
    decreases items.len() - i,
{
    if i == items.len() {
        assert(items.subrange(0, i) =~= items);
    } else {
        assert(items.subrange(0, i + 1).drop_last() =~= items.subrange(0, i));
        lemma_element_ref_list_none(items, i + 1);
    }
}

/// What a `findElements` result decodes to.
pub open spec fn spec_element_refs(d: JsonData) -> Option<Seq<ElementRef>> {
    match d {
        JsonData::Arr(items) => spec_element_ref_list(items@),
        _ => None,
    }
}

/// Decode a `findElements` result: an array of element references.
#[verifier::loop_isolation(false)]
pub fn element_refs_from_json(d: &JsonData) -> (r: Option<Vec<ElementRef>>)
    ensures
        match r {
            Some(v) => spec_element_refs(*d) == Some(v@),
            None => spec_element_refs(*d) is None,
        },
{
    match d {
        JsonData::Arr(items) => {
            let mut out: Vec<ElementRef> = Vec::new();
            let mut i: usize = 0;
            proof {
                assert(items@.subrange(0, 0) =~= Seq::<JsonData>::empty());
            }
            while i < items.len()
                invariant
                    i <= items.len(),
                    spec_element_ref_list(items@.subrange(0, i as int)) == Some(out@),
                decreases items.len() - i,
            {
                proof {
                    assert(items@.subrange(0, i + 1).drop_last() =~= items@.subrange(0, i as int));
                    assert(items@.subrange(0, i + 1).last() == items@[i as int]);
                }
                match ElementRef::from_json(&items[i]) {
                    Some(e) => out.push(e),
                    None => {
                        proof {
                            lemma_element_ref_list_none(items@, i + 1);
                        }
                        return None;
                    },
                }
                i = i + 1;
            }
            proof {
                assert(items@.subrange(0, items@.len() as int) =~= items@);
            }
            Some(out)
        },
        _ => None,
    }
}

/// A list of window handles.
pub open spec fn spec_window_handle_list(items: Seq<JsonData>) -> Option<Seq<WindowHandle>>
    decreases items.len(),
{
    if items.len() == 0 {
        Some(Seq::empty())
    } else {
        match spec_window_handle_list(items.drop_last()) {
            None => None,
            Some(pre) => match spec_window_handle(items.last()) {
                Some(w) => Some(pre.push(w)),
                None => None,
            },
        }
    }
}

proof fn lemma_window_handle_list_none(items: Seq<JsonData>, i: int)
    requires
        0 <= i <= items.len(),
        spec_window_handle_list(items.subrange(0, i)) is None,
    ensures
        spec_window_handle_list(items) is None,
    decreases items.len() - i,
{
    if i == items.len() {
        assert(items.subrange(0, i) =~= items);
    } else {
        assert(items.subrange(0, i + 1).drop_last() =~= items.subrange(0, i));
        lemma_window_handle_list_none(items, i + 1);
    }
}

/// What a window-handle list decodes to.
pub open spec fn spec_window_handles(d: JsonData) -> Option<Seq<WindowHandle>> {
    match d {
        JsonData::Arr(items) => spec_window_handle_list(items@),
        _ => None,
    }
}

/// Decode a window-handle list: an array of strings.
#[verifier::loop_isolation(false)]
pub fn window_handles_from_json(d: &JsonData) -> (r: Option<Vec<WindowHandle>>)
    ensures
        match r {
            Some(v) => spec_window_handles(*d) == Some(v@),
            None => spec_window_handles(*d) is None,
        },
{
    match d {
        JsonData::Arr(items) => {
            let mut out: Vec<WindowHandle> = Vec::new();
            let mut i: usize = 0;
            proof {
                assert(items@.subrange(0, 0) =~= Seq::<JsonData>::empty());
            }
            while i < items.len()
                invariant
                    i <= items.len(),
                    spec_window_handle_list(items@.subrange(0, i as int)) == Some(out@),
                decreases items.len() - i,
            {
                proof {
                    assert(items@.subrange(0, i + 1).drop_last() =~= items@.subrange(0, i as int));
                    assert(items@.subrange(0, i + 1).last() == items@[i as int]);
                }
                match WindowHandle::from_json(&items[i]) {
                    Some(w) => out.push(w),
                    None => {
                        proof {
                            lemma_window_handle_list_none(items@, i + 1);
                        }
                        return None;
                    },
                }
                i = i + 1;
            }
            proof {
                assert(items@.subrange(0, items@.len() as int) =~= items@);
            }
            Some(out)
        },
        _ => None,
    }
}

/// A list of cookies.
pub open spec fn spec_cookie_list(items: Seq<JsonData>) -> Option<Seq<Cookie>>
    decreases items.len(),
{
    if items.len() == 0 {
        Some(Seq::empty())
    } else {
        match spec_cookie_list(items.drop_last()) {
            None => None,
            Some(pre) => match spec_cookie(items.last()) {
                Some(c) => Some(pre.push(c)),
                None => None,
            },
        }
    }
}

proof fn lemma_cookie_list_none(items: Seq<JsonData>, i: int)
    requires
        0 <= i <= items.len(),
        spec_cookie_list(items.subrange(0, i)) is None,
    ensures
        spec_cookie_list(items) is None,
    decreases items.len() - i,
{
    if i == items.len() {
        assert(items.subrange(0, i) =~= items);
    } else {
        assert(items.subrange(0, i + 1).drop_last() =~= items.subrange(0, i));
        lemma_cookie_list_none(items, i + 1);
    }
}

/// What a cookie list decodes to.
pub open spec fn spec_cookies(d: JsonData) -> Option<Seq<Cookie>> {
    match d {
        JsonData::Arr(items) => spec_cookie_list(items@),
        _ => None,
    }
}

/// Decode a cookie list.
#[verifier::loop_isolation(false)]
pub fn cookies_from_json(d: &JsonData) -> (r: Option<Vec<Cookie>>)
    ensures
        match r {
            Some(v) => spec_cookies(*d) == Some(v@),
            None => spec_cookies(*d) is None,
        },
{
    match d {
        JsonData::Arr(items) => {
            let mut out: Vec<Cookie> = Vec::new();
            let mut i: usize = 0;
            proof {
                assert(items@.subrange(0, 0) =~= Seq::<JsonData>::empty());
            }
            while i < items.len()
                invariant
                    i <= items.len(),
                    spec_cookie_list(items@.subrange(0, i as int)) == Some(out@),
                decreases items.len() - i,
            {
                proof {
                    assert(items@.subrange(0, i + 1).drop_last() =~= items@.subrange(0, i as int));
                    assert(items@.subrange(0, i + 1).last() == items@[i as int]);
                }
                match Cookie::from_json(&items[i]) {
                    Some(c) => out.push(c),
                    None => {
                        proof {
                            lemma_cookie_list_none(items@, i + 1);
                        }
                        return None;
                    },
                }
                i = i + 1;
            }
            proof {
                assert(items@.subrange(0, items@.len() as int) =~= items@);
            }
            Some(out)
        },
        _ => None,
    }
}

/// An instance record: a port and a name.
pub open spec fn spec_instance(d: JsonData) -> Option<Instance> {
    match d {
        JsonData::Obj(e) => match (obj_lookup(e@, "port"@), obj_lookup(e@, "name"@)) {
            (Some(JsonData::UInt(p)), Some(JsonData::Str(n))) => if p <= u16::MAX {
                Some(Instance { port: p as u16, name: n })
            } else {
                None
            },
            _ => None,
        },
        _ => None,
    }
}

impl Instance {
    pub fn from_json(d: &JsonData) -> (r: Option<Instance>)
        ensures
            r == spec_instance(*d),
    {
        match d {
            JsonData::Obj(e) => {
                let p = match obj_get(e, "port") {
                    Some(JsonData::UInt(p)) => *p,
                    _ => {
                        return None;
                    },
                };
                if p > u16::MAX as u64 {
                    return None;
                }
                let n = match obj_get(e, "name") {
                    Some(JsonData::Str(s)) => s.clone(),
                    _ => {
                        return None;
                    },
                };
                Some(Instance { port: p as u16, name: n })
            },
            _ => None,
        }
    }
}

/// One running browser instance as the session registry records it.
#[derive(Debug, PartialEq)]
pub struct Instance {
    pub port: u16,
    pub name: String,
}

pub open spec fn ser_instance(port: u16, name: Seq<char>) -> Seq<u8> {
    seq![123u8] + json_key("port"@) + dec_digits(port as nat) + seq![44u8] + json_key("name"@)
        + json_str_bytes(name) + seq![125u8]
}

impl Instance {
    pub fn write_json(&self, out: &mut Vec<u8>)
        ensures
            final(out)@ == old(out)@ + ser_instance(self.port, self.name@),
    {
        out.push(123);
        push_key(out, "port");
        crate::digits::push_dec(out, self.port as u64);
        out.push(44);
        push_key(out, "name");
        push_json_str(out, self.name.as_str());
        out.push(125);
        proof {
            assert(out@ =~= old(out)@ + ser_instance(self.port, self.name@));
        }
    }
}

} // verus!
