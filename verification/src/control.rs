//! The control channel: how the SMT setting is written.
//!
//! The control file belongs to root. A write is first tried directly; if that
//! fails for whatever reason, a privilege-escalation helper is run once and
//! copies the same token from its standard input to the control file. Nothing
//! is retried beyond that.
//!
//! The protocol is a state machine. [`set_smt_enabled`] begins an attempt and
//! names the first action; the caller carries each action out and reports what
//! happened to [`WriteAttempt::advance`], which names the next action, until the
//! action is [`WriteAction::Finish`].

use vstd::prelude::*;

verus! {

/// The kernel's control file for SMT.
pub const SMT_CONTROL_PATH: &'static str = "/sys/devices/system/cpu/smt/control";

/// The program that grants the privilege to write the control file.
pub const HELPER_PROGRAM: &'static str = "pkexec";

/// The program that the helper runs to copy its standard input to a file.
pub const HELPER_COPY_TOOL: &'static str = "tee";

/// The token that the control file takes for a setting.
pub open spec fn token_of(enabled: bool) -> Seq<char> {
    if enabled {
        "on"@
    } else {
        "off"@
    }
}

/// The token that the control file takes for a setting.
pub fn token(enabled: bool) -> (word: &'static str)
    ensures
        word@ == token_of(enabled),
{
    if enabled {
        "on"
    } else {
        "off"
    }
}

/// Why a write failed.
#[derive(Debug)]
pub enum WriteError {
    /// The helper could not be run, refused, or ended without success.
    PermissionDenied(String),
    /// Feeding the helper or waiting for it failed.
    Io(String),
}

/// A [`WriteError`] as a mathematical value.
pub enum WriteErrorView {
    PermissionDenied(Seq<char>),
    Io(Seq<char>),
}

impl View for WriteError {
    type V = WriteErrorView;

    open spec fn view(&self) -> WriteErrorView {
        match self {
            WriteError::PermissionDenied(text) => WriteErrorView::PermissionDenied(text@),
            WriteError::Io(text) => WriteErrorView::Io(text@),
        }
    }
}

impl WriteErrorView {
    /// The explanation that the error carries.
    pub open spec fn message(self) -> Seq<char> {
        match self {
            WriteErrorView::PermissionDenied(text) => text,
            WriteErrorView::Io(text) => text,
        }
    }
}

impl WriteError {
    /// The explanation that the error carries.
    pub fn message(&self) -> (text: String)
        ensures
            text@ == self@.message(),
    {
        match self {
            WriteError::PermissionDenied(text) => text.clone(),
            WriteError::Io(text) => text.clone(),
        }
    }

    /// Whether the failure is one of permission rather than of plain I/O.
    pub fn is_permission_denied(&self) -> (yes: bool)
        ensures
            yes == (self@ is PermissionDenied),
    {
        matches!(self, WriteError::PermissionDenied(_))
    }
}

/// What the caller reports after it carried out an action.
#[derive(Debug)]
pub enum WriteEvent {
    /// The direct write went through.
    DirectWriteSucceeded,
    /// The direct write failed, for whatever reason.
    DirectWriteFailed,
    /// The helper ran to its end; `success` says whether its exit code was 0.
    HelperExited { success: bool },
    /// The helper could not be started.
    HelperNotStarted { reason: String },
    /// The helper was started but its standard input could not be had.
    HelperInputUnavailable,
    /// Writing to the helper's standard input, or waiting for it, failed.
    HelperIoFailed { reason: String },
}

/// What the caller has to do next.
#[derive(Debug)]
pub enum WriteAction {
    /// Write `token` to the file at `path`, as the process itself.
    WriteDirect { path: &'static str, token: &'static str },
    /// Run `program` with the two arguments `copy_tool` and `path`, write
    /// `token` to its standard input, close that, and wait for its exit.
    RunHelper {
        program: &'static str,
        copy_tool: &'static str,
        path: &'static str,
        token: &'static str,
    },
    /// The attempt is over with this result.
    Finish(Result<(), WriteError>),
}

/// A [`WriteAction`] as a mathematical value.
pub enum WriteActionView {
    WriteDirect { path: Seq<char>, token: Seq<char> },
    RunHelper { program: Seq<char>, copy_tool: Seq<char>, path: Seq<char>, token: Seq<char> },
    Finish(Result<(), WriteErrorView>),
}

impl View for WriteAction {
    type V = WriteActionView;

    open spec fn view(&self) -> WriteActionView {
        match self {
            WriteAction::WriteDirect { path, token } => WriteActionView::WriteDirect {
                path: path@,
                token: token@,
            },
            WriteAction::RunHelper { program, copy_tool, path, token } => WriteActionView::RunHelper {
                program: program@,
                copy_tool: copy_tool@,
                path: path@,
                token: token@,
            },
            WriteAction::Finish(Ok(_)) => WriteActionView::Finish(Ok(())),
            WriteAction::Finish(Err(error)) => WriteActionView::Finish(Err(error@)),
        }
    }
}

/// How far an attempt has come.
#[derive(Debug, Clone, Copy, PartialEq, Eq, Structural)]
pub enum Phase {
    /// The direct write was asked for and has not been reported yet.
    DirectWrite,
    /// The helper was asked for and has not been reported yet.
    Helper,
    /// The result is out.
    Done,
}

/// An attempt as a mathematical value.
pub struct AttemptState {
    /// The setting that the attempt is to write.
    pub enabled: bool,
    /// How far the attempt has come.
    pub phase: Phase,
}

/// The direct write of the token for `enabled`.
pub open spec fn direct_write(enabled: bool) -> WriteActionView {
    WriteActionView::WriteDirect { path: SMT_CONTROL_PATH@, token: token_of(enabled) }
}

/// The run of the helper with the token for `enabled`.
pub open spec fn helper_run(enabled: bool) -> WriteActionView {
    WriteActionView::RunHelper {
        program: HELPER_PROGRAM@,
        copy_tool: HELPER_COPY_TOOL@,
        path: SMT_CONTROL_PATH@,
        token: token_of(enabled),
    }
}

/// The failure reported when the helper ended without success.
pub open spec fn helper_refused() -> WriteErrorView {
    WriteErrorView::PermissionDenied("Failed to set SMT status (pkexec failed)"@)
}

/// The failure reported when the helper could not be started.
pub open spec fn helper_not_started(reason: Seq<char>) -> WriteErrorView {
    WriteErrorView::PermissionDenied(
        "Failed to set SMT status (pkexec could not be started: "@ + reason + ")"@,
    )
}

/// The failure reported when the helper's standard input could not be had.
pub open spec fn helper_input_unavailable() -> WriteErrorView {
    WriteErrorView::PermissionDenied("Failed to set SMT status (pkexec input unavailable)"@)
}

/// The state in which an attempt begins.
pub open spec fn initial(enabled: bool) -> AttemptState {
    AttemptState { enabled: enabled, phase: Phase::DirectWrite }
}

/// The state after `event` was reported in state `s`. A report that does not
/// answer the action that is under way changes nothing.
pub open spec fn next_attempt(s: AttemptState, event: WriteEvent) -> AttemptState {
    match (s.phase, event) {
        (Phase::DirectWrite, WriteEvent::DirectWriteSucceeded) => AttemptState {
            phase: Phase::Done,
            ..s
        },
        (Phase::DirectWrite, WriteEvent::DirectWriteFailed) => AttemptState {
            phase: Phase::Helper,
            ..s
        },
        (Phase::Helper, WriteEvent::HelperExited { .. }) => AttemptState { phase: Phase::Done, ..s },
        (Phase::Helper, WriteEvent::HelperNotStarted { .. }) => AttemptState {
            phase: Phase::Done,
            ..s
        },
        (Phase::Helper, WriteEvent::HelperInputUnavailable) => AttemptState {
            phase: Phase::Done,
            ..s
        },
        (Phase::Helper, WriteEvent::HelperIoFailed { .. }) => AttemptState {
            phase: Phase::Done,
            ..s
        },
        _ => s,
    }
}

/// The action that follows when `event` is reported in state `s`, or `None`
/// where the report does not answer the action that is under way.
pub open spec fn next_action(s: AttemptState, event: WriteEvent) -> Option<WriteActionView> {
    match (s.phase, event) {
        (Phase::DirectWrite, WriteEvent::DirectWriteSucceeded) => Some(
            WriteActionView::Finish(Ok(())),
        ),
        (Phase::DirectWrite, WriteEvent::DirectWriteFailed) => Some(helper_run(s.enabled)),
        (Phase::Helper, WriteEvent::HelperExited { success }) => Some(
            WriteActionView::Finish(
                if success {
                    Ok(())
                } else {
                    Err(helper_refused())
                },
            ),
        ),
        (Phase::Helper, WriteEvent::HelperNotStarted { reason }) => Some(
            WriteActionView::Finish(Err(helper_not_started(reason@))),
        ),
        (Phase::Helper, WriteEvent::HelperInputUnavailable) => Some(
            WriteActionView::Finish(Err(helper_input_unavailable())),
        ),
        (Phase::Helper, WriteEvent::HelperIoFailed { reason }) => Some(
            WriteActionView::Finish(Err(WriteErrorView::Io(reason@))),
        ),
        _ => None,
    }
}

/// One attempt to write the SMT setting.
#[derive(Debug)]
pub struct WriteAttempt {
    enabled: bool,
    phase: Phase,
}

impl View for WriteAttempt {
    type V = AttemptState;

    closed spec fn view(&self) -> AttemptState {
        AttemptState { enabled: self.enabled, phase: self.phase }
    }
}

/// Begins an attempt to switch SMT on or off: the first action is the direct
/// write of the setting's token.
pub fn set_smt_enabled(enabled: bool) -> (begun: (WriteAttempt, WriteAction))
    ensures
        begun.0@ == initial(enabled),
        begun.1@ == direct_write(enabled),
{
    (
        WriteAttempt { enabled, phase: Phase::DirectWrite },
        WriteAction::WriteDirect { path: SMT_CONTROL_PATH, token: token(enabled) },
    )
}

impl WriteAttempt {
    /// The setting that the attempt is to write.
    pub fn enabled(&self) -> (enabled: bool)
        ensures
            enabled == self@.enabled,
    {
        self.enabled
    }

    /// How far the attempt has come.
    pub fn phase(&self) -> (phase: Phase)
        ensures
            phase == self@.phase,
    {
        self.phase
    }

    /// Takes the report on the action under way and names the next action.
    /// A report that does not answer the action under way is passed over:
    /// the attempt stays as it is and the result is `None`.
    pub fn advance(&mut self, event: WriteEvent) -> (action: Option<WriteAction>)
        ensures
            final(self)@ == next_attempt(old(self)@, event),
            match action {
                Some(a) => next_action(old(self)@, event) == Some(a@),
                None => next_action(old(self)@, event) is None,
            },
    {
        match self.phase {
            Phase::DirectWrite => match event {
                WriteEvent::DirectWriteSucceeded => {
                    self.phase = Phase::Done;
                    Some(WriteAction::Finish(Ok(())))
                },
                WriteEvent::DirectWriteFailed => {
                    self.phase = Phase::Helper;
                    Some(
                        WriteAction::RunHelper {
                            program: HELPER_PROGRAM,
                            copy_tool: HELPER_COPY_TOOL,
                            path: SMT_CONTROL_PATH,
                            token: token(self.enabled),
                        },
                    )
                },
                _ => None,
            },
            Phase::Helper => match event {
                WriteEvent::HelperExited { success } => {
                    self.phase = Phase::Done;
                    if success {
                        Some(WriteAction::Finish(Ok(())))
                    } else {
                        let text = String::from_str("Failed to set SMT status (pkexec failed)");
                        Some(WriteAction::Finish(Err(WriteError::PermissionDenied(text))))
                    }
                },
                WriteEvent::HelperNotStarted { reason } => {
                    self.phase = Phase::Done;
                    let text = String::from_str(
                        "Failed to set SMT status (pkexec could not be started: ",
                    ).concat(reason.as_str()).concat(")");
                    Some(WriteAction::Finish(Err(WriteError::PermissionDenied(text))))
                },
                WriteEvent::HelperInputUnavailable => {
                    self.phase = Phase::Done;
                    let text = String::from_str(
                        "Failed to set SMT status (pkexec input unavailable)",
                    );
                    Some(WriteAction::Finish(Err(WriteError::PermissionDenied(text))))
                },
                WriteEvent::HelperIoFailed { reason } => {
                    self.phase = Phase::Done;
                    Some(WriteAction::Finish(Err(WriteError::Io(reason))))
                },
                _ => None,
            },
            Phase::Done => None,
        }
    }
}

/// The actions that an attempt in state `s` names, in order, while `events`
/// are reported to it one after the other.
pub open spec fn actions_after(s: AttemptState, events: Seq<WriteEvent>) -> Seq<WriteActionView>
    decreases events.len(),
{
    if events.len() == 0 {
        Seq::empty()
    } else {
        let rest = actions_after(next_attempt(s, events.first()), events.drop_first());
        match next_action(s, events.first()) {
            Some(action) => seq![action] + rest,
            None => rest,
        }
    }
}

/// All actions of an attempt to write `enabled` to which `events` are
/// reported: the direct write first, then what the reports lead to.
pub open spec fn actions_of_attempt(enabled: bool, events: Seq<WriteEvent>) -> Seq<
    WriteActionView,
> {
    seq![direct_write(enabled)] + actions_after(initial(enabled), events)
}

/// How often the helper is run among `actions`.
pub open spec fn helper_runs(actions: Seq<WriteActionView>) -> nat
    decreases actions.len(),
{
    if actions.len() == 0 {
        0
    } else if actions.first() is RunHelper {
        1 + helper_runs(actions.drop_first())
    } else {
        helper_runs(actions.drop_first())
    }
}

/// How often a direct write is made among `actions`.
pub open spec fn direct_writes(actions: Seq<WriteActionView>) -> nat
    decreases actions.len(),
{
    if actions.len() == 0 {
        0
    } else if actions.first() is WriteDirect {
        1 + direct_writes(actions.drop_first())
    } else {
        direct_writes(actions.drop_first())
    }
}

/// The first of `events` that answers a direct write, if there is one.
pub open spec fn first_direct_report(events: Seq<WriteEvent>) -> Option<WriteEvent>
    decreases events.len(),
{
    if events.len() == 0 {
        None
    } else if events.first() is DirectWriteSucceeded || events.first() is DirectWriteFailed {
        Some(events.first())
    } else {
        first_direct_report(events.drop_first())
    }
}

/// Once the direct write has been answered, no report leads to another run of
/// the helper or to another direct write; and while the helper runs, every
/// action named is the end of the attempt.
proof fn lemma_no_escalation_later(s: AttemptState, events: Seq<WriteEvent>)
    requires
        s.phase != Phase::DirectWrite,
    ensures
        helper_runs(actions_after(s, events)) == 0,
        direct_writes(actions_after(s, events)) == 0,
        forall|i: int|
            0 <= i < actions_after(s, events).len() ==> #[trigger] actions_after(s, events)[i]
                is Finish,
        actions_after(s, events).len() <= 1,
    decreases events.len(),
{
    if events.len() > 0 {
        let next = next_attempt(s, events.first());
        let rest = actions_after(next, events.drop_first());
        lemma_no_escalation_later(next, events.drop_first());
        match next_action(s, events.first()) {
            Some(action) => {
                let all = seq![action] + rest;
                assert(all.drop_first() =~= rest);
                assert(next.phase == Phase::Done);
                lemma_attempt_over(next, events.drop_first());
            },
            None => {},
        }
    }
}

/// An attempt that is over names no further action.
proof fn lemma_attempt_over(s: AttemptState, events: Seq<WriteEvent>)
    requires
        s.phase == Phase::Done,
    ensures
        actions_after(s, events) == Seq::<WriteActionView>::empty(),
    decreases events.len(),
{
    if events.len() > 0 {
        lemma_attempt_over(s, events.drop_first());
    }
}

/// The order of escalation. Whatever is reported to an attempt, and in
/// whatever order:
/// - it makes the direct write once, as its first action, and runs the helper
///   at most once;
/// - if the direct write is reported as done, the helper is never run;
/// - if the direct write is reported as failed, the helper is run exactly
///   once, with the token of the direct write;
/// - as long as the direct write is not answered, the helper is not run.
pub proof fn lemma_escalation_order(enabled: bool, events: Seq<WriteEvent>)
    ensures
        actions_of_attempt(enabled, events)[0] == direct_write(enabled),
        direct_writes(actions_of_attempt(enabled, events)) == 1,
        helper_runs(actions_of_attempt(enabled, events)) <= 1,
        first_direct_report(events) matches Some(WriteEvent::DirectWriteSucceeded) ==> helper_runs(
            actions_of_attempt(enabled, events),
        ) == 0,
        first_direct_report(events) matches Some(WriteEvent::DirectWriteFailed) ==> helper_runs(
            actions_of_attempt(enabled, events),
        ) == 1 && actions_of_attempt(enabled, events)[1] == helper_run(enabled),
        first_direct_report(events) is None ==> helper_runs(actions_of_attempt(enabled, events))
            == 0,
        forall|i: int|
            0 <= i < actions_of_attempt(enabled, events).len() && #[trigger] actions_of_attempt(
                enabled,
                events,
            )[i] is RunHelper ==> actions_of_attempt(enabled, events)[i] == helper_run(enabled),
{
    let later = actions_after(initial(enabled), events);
    let all = actions_of_attempt(enabled, events);
    lemma_after_direct_write(initial(enabled), events);
    assert(all.drop_first() =~= later);
}

/// What an attempt that waits for the answer to its direct write goes on to do.
proof fn lemma_after_direct_write(s: AttemptState, events: Seq<WriteEvent>)
    requires
        s.phase == Phase::DirectWrite,
    ensures
        direct_writes(actions_after(s, events)) == 0,
        helper_runs(actions_after(s, events)) <= 1,
        first_direct_report(events) matches Some(WriteEvent::DirectWriteSucceeded) ==> helper_runs(
            actions_after(s, events),
        ) == 0,
        first_direct_report(events) matches Some(WriteEvent::DirectWriteFailed) ==> helper_runs(
            actions_after(s, events),
        ) == 1 && actions_after(s, events).len() >= 1 && actions_after(s, events)[0] == helper_run(
            s.enabled,
        ),
        first_direct_report(events) is None ==> helper_runs(actions_after(s, events)) == 0,
        forall|i: int|
            0 <= i < actions_after(s, events).len() && #[trigger] actions_after(s, events)[i]
                is RunHelper ==> actions_after(s, events)[i] == helper_run(s.enabled),
    decreases events.len(),
{
    if events.len() > 0 {
        let event = events.first();
        let next = next_attempt(s, event);
        let rest = actions_after(next, events.drop_first());
        match next_action(s, event) {
            Some(action) => {
                let all = seq![action] + rest;
                assert(all.drop_first() =~= rest);
                lemma_no_escalation_later(next, events.drop_first());
            },
            None => {
                lemma_after_direct_write(next, events.drop_first());
            },
        }
    }
}

} // verus!
