use talpid_openvpn::supervisor::Action;
use talpid_openvpn::supervisor::Event;
use talpid_openvpn::supervisor::ExitStatus;
use talpid_openvpn::supervisor::IoError;
use talpid_openvpn::supervisor::Phase;
use talpid_openvpn::supervisor::Supervisor;

fn ok_status(code: i32) -> Result<ExitStatus, IoError> {
    Ok(ExitStatus { code: Some(code) })
}

#[test]
fn request_shutdown_is_idempotent() {
    let mut sup = Supervisor::new();
    assert_eq!(sup.request_shutdown(1000), Some(1000));
    // The one-shot channel was consumed; later requests send nothing.
    assert_eq!(sup.request_shutdown(5), None);
    assert_eq!(sup.request_shutdown(1000), None);
}

#[test]
fn graceful_shutdown_closes_stdin_then_waits() {
    let mut sup = Supervisor::new();
    assert_eq!(sup.request_shutdown(1000), Some(1000));

    let actions = sup.step(Event::Signal(Some(1000)));
    assert_eq!(actions, vec![Action::CloseStdin, Action::WaitGrace(1000)]);

    // The process exits within the grace period; the task waits once more
    // unconditionally and finishes with the status.
    let actions = sup.step(Event::GraceDone(true));
    assert_eq!(actions, vec![Action::WaitForExit]);
    let actions = sup.step(Event::FinalDone(ok_status(0)));
    assert_eq!(actions, vec![]);
    assert_eq!(sup.wait_result(), Some(ok_status(0)));
}

#[test]
fn elapsed_timeout_escalates_to_kill() {
    let mut sup = Supervisor::new();
    let actions = sup.step(Event::Signal(Some(10)));
    assert_eq!(actions, vec![Action::CloseStdin, Action::WaitGrace(10)]);

    // The grace timeout elapses first: the kill comes only now, after the
    // pipe was closed, and is itself awaited.
    let actions = sup.step(Event::GraceDone(false));
    assert_eq!(actions, vec![Action::Kill]);
    let actions = sup.step(Event::KillDone(None));
    assert_eq!(actions, vec![Action::WaitForExit]);
    let actions = sup.step(Event::FinalDone(ok_status(9)));
    assert_eq!(actions, vec![]);
    assert_eq!(sup.wait_result(), Some(ok_status(9)));
}

#[test]
fn failed_kill_is_nonfatal_to_wait() {
    let mut sup = Supervisor::new();
    sup.step(Event::Signal(Some(10)));
    sup.step(Event::GraceDone(false));
    // The kill attempt fails, but the failure is non-fatal: the
    // unconditional wait still runs and its result is what `wait` returns.
    let actions = sup.step(Event::KillDone(Some(IoError { code: 13 })));
    assert_eq!(actions, vec![Action::WaitForExit]);
    sup.step(Event::FinalDone(ok_status(137)));
    assert_eq!(sup.wait_result(), Some(ok_status(137)));
}

#[test]
fn final_wait_failure_surfaces_from_wait() {
    let mut sup = Supervisor::new();
    sup.step(Event::Signal(Some(10)));
    sup.step(Event::GraceDone(false));
    sup.step(Event::KillDone(None));
    sup.step(Event::FinalDone(Err(IoError { code: 5 })));
    assert_eq!(sup.wait_result(), Some(Err(IoError { code: 5 })));
}

#[test]
fn dropped_channel_kills_immediately() {
    let mut sup = Supervisor::new();
    let actions = sup.step(Event::Signal(None));
    assert_eq!(actions, vec![Action::CloseStdin, Action::Kill]);

    // A kill failure is ignored on this path; the final wait still decides.
    let actions = sup.step(Event::KillDone(Some(IoError { code: 3 })));
    assert_eq!(actions, vec![Action::WaitForExit]);
    sup.step(Event::FinalDone(ok_status(137)));
    assert_eq!(sup.wait_result(), Some(ok_status(137)));
}

#[test]
fn natural_exit_skips_shutdown_path() {
    let mut sup = Supervisor::new();
    let actions = sup.step(Event::ExitedEarly(ok_status(0)));
    assert_eq!(actions, vec![]);
    assert_eq!(sup.phase, Phase::Done(ok_status(0)));
    assert_eq!(sup.wait_result(), Some(ok_status(0)));
}

#[test]
fn wait_twice_returns_identical_status() {
    let mut sup = Supervisor::new();
    sup.step(Event::ExitedEarly(ok_status(42)));
    let first = sup.wait_result();
    let second = sup.wait_result();
    assert_eq!(first, second);
    assert_eq!(first, Some(ok_status(42)));

    // Even a late shutdown signal moves nothing once the task is done.
    let actions = sup.step(Event::Signal(Some(1)));
    assert_eq!(actions, vec![]);
    assert_eq!(sup.phase, Phase::Done(ok_status(42)));
    assert_eq!(sup.wait_result(), Some(ok_status(42)));
}

#[test]
fn no_shutdown_before_request() {
    let sup = Supervisor::new();
    assert_eq!(sup.phase, Phase::Running);
    assert_eq!(sup.wait_result(), None);
}
