//! The process-wide exit intent and the window-close state machine built on
//! it: an unconfirmed close hides or asks the UI, a close after exit was
//! requested shuts the backend down and lets the window go.

use vstd::prelude::*;

verus! {

/// Records whether a user-initiated quit has been requested. The flag starts
/// false and only ever moves to true.
#[derive(PartialEq, Eq, Structural)]
pub struct ExitState {
    requested: bool,
}

impl ExitState {
    /// Whether exit has been requested so far.
    pub closed spec fn exit_requested(&self) -> bool {
        self.requested
    }

    /// A fresh flag: the application is still running normally.
    pub fn new() -> (s: ExitState)
        ensures
            !s.exit_requested(),
    {
        ExitState { requested: false }
    }

    /// How a call of `request_exit` relates the flag before it to the flag
    /// after it.
    pub open spec fn request_exit_step(pre: ExitState, post: ExitState) -> bool {
        post.exit_requested() && (pre.exit_requested() ==> post == pre)
    }

    /// Records the decision to terminate. Monotonic: a second request
    /// changes nothing.
    pub fn request_exit(&mut self)
        ensures
            Self::request_exit_step(*old(self), *final(self)),
    {
        self.requested = true;
    }

    /// Reads the flag.
    pub fn is_exit_requested(&self) -> (r: bool)
        ensures
            r == self.exit_requested(),
    {
        self.requested
    }
}

/// What the shell does with a close request for the main window.
#[derive(PartialEq, Eq, Structural, Debug)]
pub enum CloseAction {
    /// Exit was already requested: shut the backend down and let the close
    /// proceed.
    ShutdownAndClose,
    /// Consume the close event and ask the displayed content to confirm.
    SuppressAndPrompt,
    /// Consume the close event and hide the window instead of quitting.
    HideWindow,
}

/// How an unconfirmed close is handled, chosen at build time: ask the
/// displayed content first, or hide the window without asking. True
/// termination always requires an explicit exit intent.
#[derive(PartialEq, Eq, Structural, Debug)]
pub enum ClosePolicy {
    /// Ask the UI's confirmation hook; fall back to exiting when it is
    /// absent.
    ConfirmFirst,
    /// Hide the window unconditionally.
    HideOnly,
}

/// What follows the attempt to deliver the confirmation prompt.
#[derive(PartialEq, Eq, Structural, Debug)]
pub enum PromptOutcome {
    /// The hook ran; the UI will either call back to exit or hide the
    /// window.
    AwaitUi,
    /// No UI was there to confirm: record exit intent, shut down, terminate.
    ForceExit,
}

/// The action a close request resolves to under a policy, in a given exit
/// state: a requested exit always proceeds to shutdown, an unconfirmed
/// close is suppressed — into a confirmation round or a plain hide.
pub open spec fn close_decision(policy: ClosePolicy, exit: ExitState) -> CloseAction {
    if exit.exit_requested() {
        CloseAction::ShutdownAndClose
    } else if policy == ClosePolicy::ConfirmFirst {
        CloseAction::SuppressAndPrompt
    } else {
        CloseAction::HideWindow
    }
}

/// Decides a close request for the main window. The confirmation flow and
/// the hide are reached only while exit has not been requested.
pub fn on_close_requested(policy: &ClosePolicy, exit: &ExitState) -> (a: CloseAction)
    ensures
        a == close_decision(*policy, *exit),
{
    if exit.is_exit_requested() {
        CloseAction::ShutdownAndClose
    } else {
        match policy {
            ClosePolicy::ConfirmFirst => CloseAction::SuppressAndPrompt,
            ClosePolicy::HideOnly => CloseAction::HideWindow,
        }
    }
}

/// Decides what follows the confirmation hook: a hook that could not be
/// delivered means no UI is present, and the shell exits unconditionally.
pub fn on_prompt_result(delivered: bool) -> (o: PromptOutcome)
    ensures
        o == (if delivered {
            PromptOutcome::AwaitUi
        } else {
            PromptOutcome::ForceExit
        }),
{
    if delivered {
        PromptOutcome::AwaitUi
    } else {
        PromptOutcome::ForceExit
    }
}

/// Exit intent is monotonic: once exit has been requested, requesting it
/// again leaves the state exactly as it was, and every close request from
/// that point on — under either close policy — resolves to an immediate
/// shutdown, never to another confirmation round or hide.
pub proof fn lemma_exit_intent_monotonic(s0: ExitState, s1: ExitState)
    requires
        s0.exit_requested(),
        ExitState::request_exit_step(s0, s1),
    ensures
        s1 == s0,
        s1.exit_requested(),
        forall|policy: ClosePolicy|
            close_decision(policy, s1) == CloseAction::ShutdownAndClose,
{
}

} // verus!
