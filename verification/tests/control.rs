use smt_toggle::control::{
    set_smt_enabled, token, Phase, WriteAction, WriteAttempt, WriteError, WriteEvent,
    HELPER_COPY_TOOL, HELPER_PROGRAM, SMT_CONTROL_PATH,
};

/// A stand-in for the control channel that counts what it is asked to do.
struct FakeChannel {
    direct_succeeds: bool,
    helper_reports: fn() -> WriteEvent,
    direct_writes: u32,
    helper_runs: u32,
    direct_tokens: Vec<String>,
    helper_tokens: Vec<String>,
}

impl FakeChannel {
    fn new(direct_succeeds: bool, helper_reports: fn() -> WriteEvent) -> Self {
        FakeChannel {
            direct_succeeds,
            helper_reports,
            direct_writes: 0,
            helper_runs: 0,
            direct_tokens: Vec::new(),
            helper_tokens: Vec::new(),
        }
    }

    fn write(&mut self, enabled: bool) -> Result<(), WriteError> {
        let (mut attempt, mut action) = set_smt_enabled(enabled);
        loop {
            let event = match action {
                WriteAction::WriteDirect { path, token } => {
                    assert_eq!(path, "/sys/devices/system/cpu/smt/control");
                    self.direct_writes += 1;
                    self.direct_tokens.push(token.to_string());
                    if self.direct_succeeds {
                        WriteEvent::DirectWriteSucceeded
                    } else {
                        WriteEvent::DirectWriteFailed
                    }
                }
                WriteAction::RunHelper { program, copy_tool, path, token } => {
                    assert_eq!(program, "pkexec");
                    assert_eq!(copy_tool, "tee");
                    assert_eq!(path, "/sys/devices/system/cpu/smt/control");
                    self.helper_runs += 1;
                    self.helper_tokens.push(token.to_string());
                    (self.helper_reports)()
                }
                WriteAction::Finish(result) => {
                    assert_eq!(attempt.phase(), Phase::Done);
                    return result;
                }
            };
            action = attempt.advance(event).unwrap();
        }
    }
}

fn helper_ok() -> WriteEvent {
    WriteEvent::HelperExited { success: true }
}

fn helper_refuses() -> WriteEvent {
    WriteEvent::HelperExited { success: false }
}

fn helper_missing() -> WriteEvent {
    WriteEvent::HelperNotStarted { reason: String::from("No such file or directory (os error 2)") }
}

fn helper_without_input() -> WriteEvent {
    WriteEvent::HelperInputUnavailable
}

fn helper_pipe_breaks() -> WriteEvent {
    WriteEvent::HelperIoFailed { reason: String::from("Broken pipe (os error 32)") }
}

fn begun(enabled: bool) -> WriteAttempt {
    set_smt_enabled(enabled).0
}

fn failed_direct(enabled: bool) -> WriteAttempt {
    let mut attempt = begun(enabled);
    assert!(matches!(
        attempt.advance(WriteEvent::DirectWriteFailed),
        Some(WriteAction::RunHelper { .. })
    ));
    attempt
}

#[test]
fn tokens_are_on_and_off() {
    assert_eq!(token(true), "on");
    assert_eq!(token(false), "off");
}

#[test]
fn names_of_path_and_helper() {
    assert_eq!(SMT_CONTROL_PATH, "/sys/devices/system/cpu/smt/control");
    assert_eq!(HELPER_PROGRAM, "pkexec");
    assert_eq!(HELPER_COPY_TOOL, "tee");
}

#[test]
fn attempt_begins_with_the_direct_write() {
    let (attempt, action) = set_smt_enabled(true);
    assert_eq!(attempt.phase(), Phase::DirectWrite);
    assert!(attempt.enabled());
    match action {
        WriteAction::WriteDirect { path, token } => {
            assert_eq!(path, "/sys/devices/system/cpu/smt/control");
            assert_eq!(token, "on");
        }
        other => panic!("{:?}", other),
    }
    let (attempt, action) = set_smt_enabled(false);
    assert!(!attempt.enabled());
    match action {
        WriteAction::WriteDirect { token, .. } => assert_eq!(token, "off"),
        other => panic!("{:?}", other),
    }
}

#[test]
fn direct_success_never_runs_the_helper() {
    for enabled in [true, false] {
        let mut channel = FakeChannel::new(true, helper_ok);
        assert!(channel.write(enabled).is_ok());
        assert_eq!(channel.direct_writes, 1);
        assert_eq!(channel.helper_runs, 0);
        assert_eq!(channel.direct_tokens, vec![token(enabled).to_string()]);
    }
}

#[test]
fn direct_failure_runs_the_helper_once_with_the_same_token() {
    for enabled in [true, false] {
        for helper in [
            helper_ok as fn() -> WriteEvent,
            helper_refuses,
            helper_missing,
            helper_without_input,
            helper_pipe_breaks,
        ] {
            let mut channel = FakeChannel::new(false, helper);
            let _ = channel.write(enabled);
            assert_eq!(channel.direct_writes, 1);
            assert_eq!(channel.helper_runs, 1);
            assert_eq!(channel.helper_tokens, channel.direct_tokens);
            assert_eq!(channel.helper_tokens, vec![token(enabled).to_string()]);
        }
    }
}

#[test]
fn helper_success_is_success() {
    let mut channel = FakeChannel::new(false, helper_ok);
    assert!(channel.write(false).is_ok());
}

#[test]
fn helper_exit_without_success_is_permission_denied() {
    let mut channel = FakeChannel::new(false, helper_refuses);
    let error = channel.write(true).unwrap_err();
    assert!(error.is_permission_denied());
    assert!(matches!(error, WriteError::PermissionDenied(_)));
    assert_eq!(error.message(), "Failed to set SMT status (pkexec failed)");
}

#[test]
fn helper_that_cannot_start_is_permission_denied() {
    let mut channel = FakeChannel::new(false, helper_missing);
    let error = channel.write(true).unwrap_err();
    assert!(error.is_permission_denied());
    assert_eq!(
        error.message(),
        "Failed to set SMT status (pkexec could not be started: No such file or directory (os error 2))"
    );
}

#[test]
fn helper_without_input_is_permission_denied() {
    let mut channel = FakeChannel::new(false, helper_without_input);
    let error = channel.write(false).unwrap_err();
    assert!(error.is_permission_denied());
    assert_eq!(error.message(), "Failed to set SMT status (pkexec input unavailable)");
}

#[test]
fn trouble_with_the_helpers_pipe_is_plain_io() {
    let mut channel = FakeChannel::new(false, helper_pipe_breaks);
    let error = channel.write(false).unwrap_err();
    assert!(!error.is_permission_denied());
    assert!(matches!(error, WriteError::Io(_)));
    assert_eq!(error.message(), "Broken pipe (os error 32)");
}

#[test]
fn phases_follow_the_reports() {
    let mut attempt = begun(true);
    assert_eq!(attempt.phase(), Phase::DirectWrite);
    let action = attempt.advance(WriteEvent::DirectWriteFailed);
    assert_eq!(attempt.phase(), Phase::Helper);
    match action {
        Some(WriteAction::RunHelper { program, copy_tool, path, token }) => {
            assert_eq!(program, "pkexec");
            assert_eq!(copy_tool, "tee");
            assert_eq!(path, "/sys/devices/system/cpu/smt/control");
            assert_eq!(token, "on");
        }
        other => panic!("{:?}", other),
    }
    let action = attempt.advance(WriteEvent::HelperExited { success: true });
    assert_eq!(attempt.phase(), Phase::Done);
    assert!(matches!(action, Some(WriteAction::Finish(Ok(())))));
    assert!(attempt.enabled());
}

#[test]
fn reports_out_of_turn_are_passed_over() {
    let mut attempt = begun(false);
    assert!(attempt.advance(WriteEvent::HelperExited { success: true }).is_none());
    assert!(attempt.advance(WriteEvent::HelperExited { success: false }).is_none());
    assert!(attempt.advance(WriteEvent::HelperInputUnavailable).is_none());
    assert!(attempt.advance(WriteEvent::HelperNotStarted { reason: String::from("x") }).is_none());
    assert!(attempt.advance(WriteEvent::HelperIoFailed { reason: String::from("x") }).is_none());
    assert_eq!(attempt.phase(), Phase::DirectWrite);

    let mut attempt = failed_direct(false);
    assert!(attempt.advance(WriteEvent::DirectWriteFailed).is_none());
    assert!(attempt.advance(WriteEvent::DirectWriteSucceeded).is_none());
    assert_eq!(attempt.phase(), Phase::Helper);
    assert!(matches!(
        attempt.advance(WriteEvent::HelperExited { success: true }),
        Some(WriteAction::Finish(Ok(())))
    ));
}

#[test]
fn nothing_follows_the_result() {
    let mut attempt = begun(true);
    assert!(matches!(
        attempt.advance(WriteEvent::DirectWriteSucceeded),
        Some(WriteAction::Finish(Ok(())))
    ));
    assert_eq!(attempt.phase(), Phase::Done);
    assert!(attempt.advance(WriteEvent::DirectWriteFailed).is_none());
    assert!(attempt.advance(WriteEvent::DirectWriteSucceeded).is_none());
    assert!(attempt.advance(WriteEvent::HelperExited { success: false }).is_none());
    assert!(attempt.advance(WriteEvent::HelperInputUnavailable).is_none());
    assert_eq!(attempt.phase(), Phase::Done);

    let mut attempt = failed_direct(true);
    assert!(attempt.advance(WriteEvent::HelperExited { success: false }).is_some());
    assert!(attempt.advance(WriteEvent::HelperExited { success: true }).is_none());
    assert!(attempt.advance(WriteEvent::DirectWriteFailed).is_none());
    assert_eq!(attempt.phase(), Phase::Done);
}
