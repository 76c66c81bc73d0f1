//! Session negotiation, run as a state machine: the caller moves the
//! bytes, the machine decides.
//!
//! On connect the server sends a greeting naming its protocol version;
//! only version 3 is spoken.  Session creation is first tried under the
//! WebDriver command name and, if that call fails for any reason,
//! retried exactly once under the legacy name; whichever succeeds fixes
//! the connection's [`Compatibility`] for its whole life, and the
//! timeouts the server reported are recorded.  Up to four title-fetch
//! probes then absorb the race between the TCP accept and the page
//! becoming ready; probe failures are tolerated, each followed by a
//! growing sleep, and the connection is handed over in any case.

use vstd::prelude::*;
use crate::connection::{
    Compatibility, MarionetteConnection, Request, cmd_name, envelope_bytes, lemma_spec_bump,
};
use crate::error::MarionetteError;
use crate::json::{JsonData, parse_json};
use crate::messages::{
    NewSessionRequest, ser_empty, ser_new_session, spec_new_session, spec_server_info,
};

verus! {

broadcast use lemma_spec_bump;

/// Where the handshake stands.
#[derive(Debug, Clone, Copy, PartialEq, Eq, Structural)]
pub enum Phase {
    /// Waiting for the server's greeting frame.
    Greeting,
    /// Session creation sent under the WebDriver name.
    AwaitNewSession,
    /// The fallback: session creation sent under the legacy name.
    AwaitLegacySession,
    /// A liveness probe is under way; `attempt` counts from zero.
    AwaitProbe { attempt: u64 },
    /// A probe failed; sleep, then ask for the next probe.
    SleepProbe { attempt: u64 },
    /// The handshake is over; the connection can be taken.
    Ready,
    /// The handshake failed; nothing more can be done.
    Failed,
}

/// What to do after a probe's reply.
#[derive(Debug, PartialEq)]
pub enum ProbeStep {
    /// The handshake is over; take the connection with [`Negotiation::finish`].
    Finished,
    /// Sleep this many seconds, then ask [`Negotiation::next_probe`].
    SleepRetry(u64),
}

/// The handshake machine: the connection being negotiated and the
/// phase the exchange is in.
pub struct Negotiation {
    conn: MarionetteConnection,
    phase: Phase,
}

/// How many liveness probes are tried before giving the connection
/// over regardless.
pub open spec fn probe_limit() -> u64 {
    4
}

impl Negotiation {
    pub closed spec fn spec_phase(&self) -> Phase {
        self.phase
    }

    pub closed spec fn conn_msgid(&self) -> u64 {
        self.conn.spec_msgid()
    }

    pub closed spec fn conn_compat(&self) -> Compatibility {
        self.conn.spec_compat()
    }

    pub closed spec fn conn_timeouts(&self) -> Option<crate::messages::Timeouts> {
        self.conn.spec_timeouts()
    }

    /// Each phase bounds how many requests can have been issued, so
    /// the message-id counter never nears its limit.
    pub open spec fn wf(&self) -> bool {
        match self.spec_phase() {
            Phase::Greeting => self.conn_msgid() == 0 && self.conn_compat()
                == Compatibility::Webdriver,
            Phase::AwaitNewSession => self.conn_msgid() == 1 && self.conn_compat()
                == Compatibility::Webdriver,
            Phase::AwaitLegacySession => self.conn_msgid() == 2 && self.conn_compat()
                == Compatibility::Webdriver,
            Phase::AwaitProbe { attempt } => attempt < probe_limit() && self.conn_msgid() <= attempt
                + 3,
            Phase::SleepProbe { attempt } => 0 < attempt < probe_limit() && self.conn_msgid()
                <= attempt + 2,
            Phase::Ready => self.conn_msgid() <= probe_limit() + 3,
            Phase::Failed => true,
        }
    }

    /// Begin a handshake: nothing sent yet, greeting awaited.
    pub fn start() -> (r: Negotiation)
        ensures
            r.wf(),
            r.spec_phase() == Phase::Greeting,
            r.conn_msgid() == 0,
    {
        Negotiation { conn: MarionetteConnection::new(Compatibility::Webdriver), phase: Phase::Greeting }
    }

    /// What handling the greeting does, given the parsed greeting tree:
    /// version 3 answers with the WebDriver-style session request; any
    /// other version, or a tree that is no greeting, fails the
    /// handshake.
    pub open spec fn spec_greeting_step(
        pre: Negotiation,
        post: Negotiation,
        d: JsonData,
        r: Result<Request, MarionetteError>,
    ) -> bool {
        match spec_server_info(d) {
            None => {
                &&& r == Err::<Request, MarionetteError>(MarionetteError::JSON)
                &&& post.spec_phase() == Phase::Failed
            },
            Some(si) => if si.marionetteProtocol == 3 {
                &&& r matches Ok(req)
                &&& req.msgid == 0
                &&& req.body@ == envelope_bytes(
                    0,
                    "WebDriver:NewSession"@,
                    ser_new_session(Seq::<(String, JsonData)>::empty()),
                )
                &&& post.spec_phase() == Phase::AwaitNewSession
            } else {
                &&& r == Err::<Request, MarionetteError>(
                    MarionetteError::UnsupportedProtocolVersion,
                )
                &&& post.spec_phase() == Phase::Failed
            },
        }
    }

    /// Handle the parsed greeting.
    pub fn greeting_data(&mut self, d: &JsonData) -> (r: Result<Request, MarionetteError>)
        requires
            old(self).wf(),
            old(self).spec_phase() == Phase::Greeting,
        ensures
            final(self).wf(),
            Self::spec_greeting_step(*old(self), *final(self), *d, r),
    {
        let info = match crate::messages::ServerInfo::from_json(d) {
            Some(info) => info,
            None => {
                self.phase = Phase::Failed;
                return Err(MarionetteError::JSON);
            },
        };
        if info.marionetteProtocol != 3 {
            self.phase = Phase::Failed;
            return Err(MarionetteError::UnsupportedProtocolVersion);
        }
        let options = NewSessionRequest::new();
        let req = self.conn.new_session_webdriver(&options);
        proof {
            assert(ser_new_session(options.capabilities.requiredCapabilities@) =~= ser_new_session(
                Seq::<(String, JsonData)>::empty(),
            ));
        }
        self.phase = Phase::AwaitNewSession;
        Ok(req)
    }

    /// Handle the greeting frame's text.  Text that is not JSON fails
    /// the handshake; the parsed tree is handled exactly as
    /// [`Negotiation::spec_greeting_step`] says.
    pub fn greeting(&mut self, text: &str) -> (r: Result<Request, MarionetteError>)
        requires
            old(self).wf(),
            old(self).spec_phase() == Phase::Greeting,
        ensures
            final(self).wf(),
            match crate::json::spec_parse_json(text@) {
                None => r == Err::<Request, MarionetteError>(MarionetteError::JSON)
                    && final(self).spec_phase() == Phase::Failed,
                Some(d) => Self::spec_greeting_step(*old(self), *final(self), d, r),
            },
    {
        match parse_json(text) {
            None => {
                self.phase = Phase::Failed;
                Err(MarionetteError::JSON)
            },
            Some(d) => self.greeting_data(&d),
        }
    }

    /// What the reply to a session-creation call does.  A successful
    /// decode fixes the compatibility mode - the one the request was
    /// sent under - records the reported timeouts, and opens the probe
    /// round with a title fetch.  A failure of the WebDriver-style call,
    /// of any kind, is answered by exactly one retry under the legacy
    /// name; a failure of that retry fails the handshake with the
    /// error of the legacy call.
    pub open spec fn spec_session_step(
        pre: Negotiation,
        post: Negotiation,
        outcome: Result<JsonData, MarionetteError>,
        r: Result<Request, MarionetteError>,
    ) -> bool {
        let was_new = pre.spec_phase() == Phase::AwaitNewSession;
        let fixed = if was_new {
            Compatibility::Webdriver
        } else {
            Compatibility::Marionette
        };
        let decoded = match outcome {
            Ok(d) => spec_new_session(d),
            Err(_) => None,
        };
        match decoded {
            Some(resp) => {
                &&& r matches Ok(req)
                &&& req.msgid == pre.conn_msgid()
                &&& req.body@ == envelope_bytes(
                    pre.conn_msgid(),
                    cmd_name("getTitle"@, "WebDriver:GetTitle"@, fixed),
                    ser_empty(),
                )
                &&& post.spec_phase() == (Phase::AwaitProbe { attempt: 0 })
                &&& post.conn_compat() == fixed
                &&& post.conn_timeouts() == resp.capabilities.timeouts
            },
            None => if was_new {
                // Compatibility fallback: one retry, under the legacy name.
                &&& r matches Ok(req)
                &&& req.msgid == pre.conn_msgid()
                &&& req.body@ == envelope_bytes(
                    pre.conn_msgid(),
                    "newSession"@,
                    ser_new_session(Seq::<(String, JsonData)>::empty()),
                )
                &&& post.spec_phase() == Phase::AwaitLegacySession
            } else {
                &&& (match outcome {
                    Err(e) => r == Err::<Request, MarionetteError>(e),
                    Ok(_) => r == Err::<Request, MarionetteError>(MarionetteError::JSON),
                })
                &&& post.spec_phase() == Phase::Failed
            },
        }
    }

    /// Handle the reply to a session-creation call: its payload, or the
    /// error the call ended in.
    pub fn session_reply(&mut self, outcome: Result<JsonData, MarionetteError>) -> (r: Result<
        Request,
        MarionetteError,
    >)
        requires
            old(self).wf(),
            old(self).spec_phase() == Phase::AwaitNewSession || old(self).spec_phase()
                == Phase::AwaitLegacySession,
        ensures
            final(self).wf(),
            Self::spec_session_step(*old(self), *final(self), outcome, r),
    {
        let was_new = match self.phase {
            Phase::AwaitNewSession => true,
            _ => false,
        };
        let decoded = match &outcome {
            Ok(d) => crate::messages::NewSessionResponse::from_json(d),
            Err(_) => None,
        };
        match decoded {
            Some(resp) => {
                if !was_new {
                    self.conn.set_compatibility(Compatibility::Marionette);
                }
                self.conn.set_timeouts_cache(resp.capabilities.timeouts);
                let req = self.conn.get_title();
                self.phase = Phase::AwaitProbe { attempt: 0 };
                Ok(req)
            },
            None => {
                if was_new {
                    let options = NewSessionRequest::new();
                    let req = self.conn.new_session(&options);
                    proof {
                        assert(ser_new_session(options.capabilities.requiredCapabilities@)
                            =~= ser_new_session(Seq::<(String, JsonData)>::empty()));
                    }
                    self.phase = Phase::AwaitLegacySession;
                    Ok(req)
                } else {
                    self.phase = Phase::Failed;
                    match outcome {
                        Err(e) => Err(e),
                        Ok(_) => Err(MarionetteError::JSON),
                    }
                }
            },
        }
    }

    /// Handle a probe's outcome: whether the title fetch succeeded.
    /// Success, or the failure of the last probe, ends the handshake;
    /// an earlier failure is followed by a sleep of two seconds per
    /// attempt already made, and another probe.
    pub fn probe_reply(&mut self, ok: bool) -> (r: ProbeStep)
        requires
            old(self).wf(),
            old(self).spec_phase() matches Phase::AwaitProbe { .. },
        ensures
            final(self).wf(),
            final(self).conn_compat() == old(self).conn_compat(),
            final(self).conn_timeouts() == old(self).conn_timeouts(),
            old(self).spec_phase() matches Phase::AwaitProbe { attempt } ==> {
                &&& ((ok || attempt >= probe_limit() - 1) ==> (r == ProbeStep::Finished
                    && final(self).spec_phase() == Phase::Ready))
                &&& ((!ok && attempt < probe_limit() - 1) ==> (r == ProbeStep::SleepRetry(
                    (2 * attempt) as u64,
                ) && final(self).spec_phase() == (Phase::SleepProbe {
                    attempt: (attempt + 1) as u64,
                })))
            },
    {
        let attempt = match self.phase {
            Phase::AwaitProbe { attempt } => attempt,
            _ => 0,
        };
        if ok || attempt >= 3 {
            self.phase = Phase::Ready;
            ProbeStep::Finished
        } else {
            self.phase = Phase::SleepProbe { attempt: attempt + 1 };
            ProbeStep::SleepRetry(2 * attempt)
        }
    }

    /// Ask for the next liveness probe, after the sleep.
    pub fn next_probe(&mut self) -> (r: Request)
        requires
            old(self).wf(),
            old(self).spec_phase() matches Phase::SleepProbe { .. },
        ensures
            final(self).wf(),
            final(self).conn_compat() == old(self).conn_compat(),
            final(self).conn_timeouts() == old(self).conn_timeouts(),
            r.msgid == old(self).conn_msgid(),
            r.body@ == envelope_bytes(
                old(self).conn_msgid(),
                cmd_name("getTitle"@, "WebDriver:GetTitle"@, old(self).conn_compat()),
                ser_empty(),
            ),
            old(self).spec_phase() matches Phase::SleepProbe { attempt } ==> final(self).spec_phase()
                == (Phase::AwaitProbe { attempt }),
    {
        let attempt = match self.phase {
            Phase::SleepProbe { attempt } => attempt,
            _ => 0,
        };
        let req = self.conn.get_title();
        self.phase = Phase::AwaitProbe { attempt };
        req
    }

    /// Take the negotiated connection.
    pub fn finish(self) -> (r: MarionetteConnection)
        requires
            self.wf(),
            self.spec_phase() == Phase::Ready,
        ensures
            r.spec_msgid() == self.conn_msgid(),
            r.spec_msgid() <= probe_limit() + 3,
            r.spec_compat() == self.conn_compat(),
            r.spec_timeouts() == self.conn_timeouts(),
    {
        self.conn
    }
}

} // verus!
