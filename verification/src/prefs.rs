//! The scoped context switch, and the preference operations built on
//! it.
//!
//! A scope reads the current context, switches to a target, lets the
//! caller run one operation, and then always switches back - whether
//! the operation succeeded or not - without ever letting the restore
//! step mask the operation's own result.  Preferences are read and
//! written through privileged scripts executed inside such a scope.

use vstd::prelude::*;
use crate::connection::{
    Context, MarionetteConnection, Request, cmd_name, envelope_bytes, lemma_spec_bump,
    ser_context_value, spec_response_context,
};
use crate::error::MarionetteError;
use crate::json::JsonData;
use crate::messages::{Script, ser_empty};

verus! {

broadcast use lemma_spec_bump;

/// Where a scoped context switch stands.
#[derive(Debug, Clone, Copy, PartialEq, Eq, Structural)]
pub enum ScopePhase {
    /// `getContext` sent; the prior context is being read.
    AwaitCurrent,
    /// `setContext(target)` sent.
    AwaitSwitch,
    /// The scope holds; the caller may run its operation.
    Active,
    /// `setContext(prior)` sent; the scope is closing.
    AwaitRestore,
    /// The scope is closed.
    Done,
    /// The scope could not be entered.
    Failed,
}

/// A scoped switch of the execution context on one connection.
pub struct ContextScope {
    target: Context,
    prev: Option<Context>,
    phase: ScopePhase,
}

impl ContextScope {
    pub closed spec fn spec_phase(&self) -> ScopePhase {
        self.phase
    }

    pub closed spec fn spec_target(&self) -> Context {
        self.target
    }

    /// The context that was active before the switch, once read.
    pub closed spec fn spec_prev(&self) -> Option<Context> {
        self.prev
    }

    pub open spec fn wf(&self) -> bool {
        match self.spec_phase() {
            ScopePhase::AwaitCurrent => self.spec_prev() is None,
            ScopePhase::AwaitSwitch => self.spec_prev() is Some,
            ScopePhase::Active => self.spec_prev() is Some,
            ScopePhase::AwaitRestore => self.spec_prev() is Some,
            _ => true,
        }
    }

    /// Enter a scope: ask for the current context, to be restored when
    /// the scope leaves.
    pub fn enter(conn: &mut MarionetteConnection, target: Context) -> (r: (ContextScope, Request))
        requires
            old(conn).spec_msgid() < u64::MAX,
        ensures
            *final(conn) == old(conn).spec_bump(),
            r.0.wf(),
            r.0.spec_phase() == ScopePhase::AwaitCurrent,
            r.0.spec_target() == target,
            r.1.msgid == old(conn).spec_msgid(),
            r.1.body@ == envelope_bytes(
                old(conn).spec_msgid(),
                cmd_name("getContext"@, "Marionette:GetContext"@, old(conn).spec_compat()),
                ser_empty(),
            ),
    {
        let req = conn.get_context();
        (ContextScope { target, prev: None, phase: ScopePhase::AwaitCurrent }, req)
    }

    /// Handle the reported current context: remember it and switch to
    /// the target.  An error, including an unknown context string,
    /// leaves the scope unentered and is passed through.
    pub fn current_reply(
        &mut self,
        conn: &mut MarionetteConnection,
        outcome: Result<&JsonData, MarionetteError>,
    ) -> (r: Result<Request, MarionetteError>)
        requires
            old(self).wf(),
            old(self).spec_phase() == ScopePhase::AwaitCurrent,
            old(conn).spec_msgid() < u64::MAX,
        ensures
            final(self).wf(),
            final(self).spec_target() == old(self).spec_target(),
            match (match outcome {
                Ok(d) => spec_response_context(*d),
                Err(e) => Err(e),
            }) {
                Ok(prev) => {
                    &&& r matches Ok(req)
                    &&& req.msgid == old(conn).spec_msgid()
                    &&& req.body@ == envelope_bytes(
                        old(conn).spec_msgid(),
                        cmd_name("setContext"@, "Marionette:SetContext"@, old(conn).spec_compat()),
                        ser_context_value(old(self).spec_target()),
                    )
                    &&& final(self).spec_phase() == ScopePhase::AwaitSwitch
                    &&& final(self).spec_prev() == Some(prev)
                    &&& *final(conn) == old(conn).spec_bump()
                },
                Err(e) => {
                    &&& r == Err::<Request, MarionetteError>(e)
                    &&& final(self).spec_phase() == ScopePhase::Failed
                    &&& *final(conn) == *old(conn)
                },
            },
    {
        let prev = match outcome {
            Ok(d) => match crate::connection::response_context(d) {
                Ok(prev) => prev,
                Err(e) => {
                    self.phase = ScopePhase::Failed;
                    return Err(e);
                },
            },
            Err(e) => {
                self.phase = ScopePhase::Failed;
                return Err(e);
            },
        };
        self.prev = Some(prev);
        let req = conn.set_context(self.target);
        self.phase = ScopePhase::AwaitSwitch;
        Ok(req)
    }

    /// Handle the reply to the switch.  On success the scope is active;
    /// a failure leaves the scope unentered and is passed through.
    pub fn switch_reply(&mut self, ok: Option<MarionetteError>) -> (r: Result<(), MarionetteError>)
        requires
            old(self).wf(),
            old(self).spec_phase() == ScopePhase::AwaitSwitch,
        ensures
            final(self).wf(),
            final(self).spec_target() == old(self).spec_target(),
            final(self).spec_prev() == old(self).spec_prev(),
            match ok {
                None => r == Ok::<(), MarionetteError>(()) && final(self).spec_phase()
                    == ScopePhase::Active,
                Some(e) => r == Err::<(), MarionetteError>(e) && final(self).spec_phase()
                    == ScopePhase::Failed,
            },
    {
        match ok {
            None => {
                self.phase = ScopePhase::Active;
                Ok(())
            },
            Some(e) => {
                self.phase = ScopePhase::Failed;
                Err(e)
            },
        }
    }

    /// Leave the scope: whatever the wrapped operation ended in, emit
    /// the request that restores the prior context, and hand the
    /// operation's result through untouched.  The restore can never
    /// mask it.
    pub fn leave(
        &mut self,
        conn: &mut MarionetteConnection,
        op_result: Result<JsonData, MarionetteError>,
    ) -> (r: (Request, Result<JsonData, MarionetteError>))
        requires
            old(self).wf(),
            old(self).spec_phase() == ScopePhase::Active,
            old(conn).spec_msgid() < u64::MAX,
        ensures
            final(self).wf(),
            final(self).spec_phase() == ScopePhase::AwaitRestore,
            final(self).spec_prev() == old(self).spec_prev(),
            *final(conn) == old(conn).spec_bump(),
            r.1 == op_result,
            old(self).spec_prev() matches Some(prev) ==> {
                &&& r.0.msgid == old(conn).spec_msgid()
                &&& r.0.body@ == envelope_bytes(
                    old(conn).spec_msgid(),
                    cmd_name("setContext"@, "Marionette:SetContext"@, old(conn).spec_compat()),
                    ser_context_value(prev),
                )
            },
    {
        let prev = match self.prev {
            Some(prev) => prev,
            None => Context::Content,
        };
        let req = conn.set_context(prev);
        self.phase = ScopePhase::AwaitRestore;
        (req, op_result)
    }

    /// Handle the reply to the restore.  A failure here is only noted:
    /// the scope is closed either way, and nothing of the wrapped
    /// operation's outcome is changed.
    pub fn restore_reply(&mut self, failed: Option<MarionetteError>) -> (r: Option<MarionetteError>)
        requires
            old(self).spec_phase() == ScopePhase::AwaitRestore,
        ensures
            final(self).spec_phase() == ScopePhase::Done,
            r == failed,
    {
        self.phase = ScopePhase::Done;
        failed
    }
}

/// The privileged script that writes one preference.
pub fn set_pref_script(name: &str, value: JsonData) -> (r: Script)
    ensures
        r.script@ == ("\n        Components.utils.import(\"resource://gre/modules/Preferences.jsm\");\n        let [pref, value, defaultBranch] = arguments;\n        prefs = new Preferences({defaultBranch: defaultBranch});\n        prefs.set(pref, value);\n        ")@,
        r.sandbox@ == "system"@,
        r.args@.len() == 3,
        r.args@[0] matches JsonData::Str(s) && s@ == name@,
        r.args@[1] == value,
        r.args@[2] == JsonData::Bool(false),
        r.scriptTimeout is None,
{
    let mut script = Script::new(
        "\n        Components.utils.import(\"resource://gre/modules/Preferences.jsm\");\n        let [pref, value, defaultBranch] = arguments;\n        prefs = new Preferences({defaultBranch: defaultBranch});\n        prefs.set(pref, value);\n        ",
    );
    let mut args: Vec<JsonData> = Vec::new();
    args.push(JsonData::Str(name.to_owned()));
    args.push(value);
    args.push(JsonData::Bool(false));
    script.arguments(args);
    script.sandbox("system");
    script
}

/// The privileged script that reads one preference.
pub fn get_pref_script(name: &str) -> (r: Script)
    ensures
        r.script@ == ("\n        Components.utils.import(\"resource://gre/modules/Preferences.jsm\");\n        let [pref, defaultBranch, valueType] = arguments;\n        prefs = new Preferences({defaultBranch: defaultBranch});\n        return prefs.get(pref, null, valueType=Components.interfaces[valueType]);\n        ")@,
        r.sandbox@ == "system"@,
        r.args@.len() == 3,
        r.args@[0] matches JsonData::Str(s) && s@ == name@,
        r.args@[1] == JsonData::Bool(false),
        r.args@[2] matches JsonData::Str(s) && s@ == "nsISupportsString"@,
        r.scriptTimeout is None,
{
    let mut script = Script::new(
        "\n        Components.utils.import(\"resource://gre/modules/Preferences.jsm\");\n        let [pref, defaultBranch, valueType] = arguments;\n        prefs = new Preferences({defaultBranch: defaultBranch});\n        return prefs.get(pref, null, valueType=Components.interfaces[valueType]);\n        ",
    );
    let mut args: Vec<JsonData> = Vec::new();
    args.push(JsonData::Str(name.to_owned()));
    args.push(JsonData::Bool(false));
    args.push(JsonData::Str("nsISupportsString".to_owned()));
    script.arguments(args);
    script.sandbox("system");
    script
}

} // verus!
