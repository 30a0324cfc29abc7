//! The privilege sequence around the argument grammar. The launcher starts
//! with effective UID 0 and the caller's real UID; it drops to the caller's
//! identity, validates, and only then raises every ID to root and spawns the
//! proxy. The caller performs each credential change and reports whether it
//! succeeded; these functions decide what comes next. The proxy can only be
//! started from a `Privileged`, which only a successful escalation of a
//! validated invocation yields.

use crate::args::{parse_and_validate_args, parse_outcome, views, ArgError, Outcome, Parsed, ValidatedInvocation};
use vstd::prelude::*;

verus! {

/// Why the launcher stops with a non-zero status.
#[derive(Clone, Copy, Debug, PartialEq, Eq, Structural)]
pub enum Fatal {
    /// Setting the effective UID to the real UID failed.
    DropFailed,
    /// The argument vector was refused.
    BadArguments(ArgError),
    /// Raising the UID and GID triads to root failed.
    EscalationFailed,
}

/// What the caller does once the initial privilege drop has been attempted.
pub enum Step {
    /// Drop real, effective and saved UID to the caller's, print the usage
    /// text and exit successfully.
    ShowHelp,
    /// Raise the UID and GID triads to root, then report to `after_escalation`.
    Escalate(ValidatedInvocation),
    /// Stop with a diagnostic and a non-zero status.
    Abort(Fatal),
}

/// The meaning of a `Step`.
pub enum Plan {
    ShowHelp,
    Escalate(Seq<char>, Seq<Seq<char>>),
    Abort(Fatal),
}

impl View for Step {
    type V = Plan;

    open spec fn view(&self) -> Plan {
        match self {
            Step::ShowHelp => Plan::ShowHelp,
            Step::Escalate(inv) => Plan::Escalate(inv@.0, inv@.1),
            Step::Abort(f) => Plan::Abort(*f),
        }
    }
}

/// The step owed after the drop (which succeeded when `dropped`) on `args`.
pub open spec fn plan_after_drop(dropped: bool, args: Seq<Seq<char>>) -> Plan {
    if !dropped {
        Plan::Abort(Fatal::DropFailed)
    } else {
        match parse_outcome(args) {
            Outcome::Help => Plan::ShowHelp,
            Outcome::Launch(p, f) => Plan::Escalate(p, f),
            Outcome::Rejected(e) => Plan::Abort(Fatal::BadArguments(e)),
        }
    }
}

/// Decides what follows the initial drop of the effective UID to the real
/// UID: a failed drop is fatal; otherwise the arguments are validated.
pub fn after_drop(dropped: bool, args: &Vec<String>) -> (r: Step)
    ensures
        r@ == plan_after_drop(dropped, views(args@)),
        r matches Step::Escalate(inv) ==> inv.wf(),
{
    if !dropped {
        return Step::Abort(Fatal::DropFailed);
    }
    match parse_and_validate_args(args) {
        Ok(Parsed::Help) => Step::ShowHelp,
        Ok(Parsed::Launch(inv)) => Step::Escalate(inv),
        Err(e) => Step::Abort(Fatal::BadArguments(e)),
    }
}

/// A validated invocation whose launcher now runs as root.
pub struct Privileged {
    invocation: ValidatedInvocation,
}

impl View for Privileged {
    type V = (Seq<char>, Seq<Seq<char>>);

    closed spec fn view(&self) -> (Seq<char>, Seq<Seq<char>>) {
        self.invocation@
    }
}

impl Privileged {
    /// The argument vector to start the proxy with.
    pub fn command_line(&self) -> (r: Vec<String>)
        ensures
            views(r@) == seq![self@.0] + self@.1,
    {
        self.invocation.command_line()
    }
}

/// Decides what follows the attempt to raise the UID and GID triads to root
/// (which succeeded when `escalated`): the proxy may start only then.
pub fn after_escalation(inv: ValidatedInvocation, escalated: bool) -> (r: Result<Privileged, Fatal>)
    ensures
        escalated <==> r is Ok,
        r matches Ok(p) ==> p@ == inv@,
        r matches Err(f) ==> f == Fatal::EscalationFailed,
{
    if escalated {
        Ok(Privileged { invocation: inv })
    } else {
        Err(Fatal::EscalationFailed)
    }
}

} // verus!
