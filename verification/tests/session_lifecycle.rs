use termloop::event::InputEvent;
use termloop::event::KeyEvent;
use termloop::event::KeyId;
use termloop::event::KeyKind;
use termloop::script::FrameInput;
use termloop::script::RunError;
use termloop::script::RunResult;
use termloop::session::DEFAULT_QUIT_KEY;
use termloop::session::POLL_INTERVAL_MS;
use termloop::session::SessionResult;
use termloop::session::exit_code;
use termloop::session::session;

fn press(c: char) -> InputEvent {
    InputEvent::Key(KeyEvent { id: KeyId::Char(c), kind: KeyKind::Press })
}

#[test]
fn clean_quit_releases_once_and_exits_zero() {
    let frames = vec![FrameInput::Polled(None), FrameInput::Polled(Some(press('q')))];
    let report = session(true, &frames, true, 'q');
    assert!(report.run_entered);
    assert_eq!(report.releases, 1);
    assert_eq!(report.renders, 2);
    assert_eq!(
        report.result,
        SessionResult::Completed { run: RunResult::Stopped, restore_failed: false },
    );
    assert_eq!(exit_code(&report.result), 0);
}

#[test]
fn render_failure_on_second_frame_still_releases_once() {
    let frames = vec![FrameInput::Polled(Some(press('x'))), FrameInput::RenderFailed];
    let report = session(true, &frames, true, 'q');
    assert!(report.run_entered);
    assert_eq!(report.releases, 1);
    assert_eq!(report.renders, 2);
    assert_eq!(
        report.result,
        SessionResult::Completed {
            run: RunResult::Failed(RunError::Render),
            restore_failed: false,
        },
    );
    assert_eq!(exit_code(&report.result), 1);
}

#[test]
fn input_failure_still_releases_once() {
    let frames = vec![FrameInput::PollFailed];
    let report = session(true, &frames, true, 'q');
    assert_eq!(report.releases, 1);
    assert_eq!(
        report.result,
        SessionResult::Completed { run: RunResult::Failed(RunError::Input), restore_failed: false },
    );
    assert_eq!(exit_code(&report.result), 1);
}

#[test]
fn failed_acquire_never_enters_run_and_never_releases() {
    let frames = vec![FrameInput::Polled(Some(press('q')))];
    let report = session(false, &frames, true, 'q');
    assert!(!report.run_entered);
    assert_eq!(report.releases, 0);
    assert_eq!(report.renders, 0);
    assert_eq!(report.result, SessionResult::InitFailed);
    assert_eq!(exit_code(&report.result), 1);
}

#[test]
fn restore_failure_is_reported_beside_the_run_error() {
    let frames = vec![FrameInput::RenderFailed];
    let report = session(true, &frames, false, 'q');
    assert_eq!(report.releases, 1);
    assert_eq!(
        report.result,
        SessionResult::Completed { run: RunResult::Failed(RunError::Render), restore_failed: true },
    );
    assert_eq!(exit_code(&report.result), 1);
}

#[test]
fn restore_failure_alone_is_not_a_clean_exit() {
    let frames = vec![FrameInput::Polled(Some(press('q')))];
    let report = session(true, &frames, false, 'q');
    assert_eq!(report.releases, 1);
    assert_eq!(
        report.result,
        SessionResult::Completed { run: RunResult::Stopped, restore_failed: true },
    );
    assert_eq!(exit_code(&report.result), 1);
}

#[test]
fn cancelled_run_is_not_a_clean_exit() {
    let frames = vec![FrameInput::Polled(None)];
    let report = session(true, &frames, true, 'q');
    assert_eq!(report.releases, 1);
    assert_eq!(
        report.result,
        SessionResult::Completed { run: RunResult::Cancelled, restore_failed: false },
    );
    assert_eq!(exit_code(&report.result), 1);
}

#[test]
fn shipped_configuration() {
    assert_eq!(DEFAULT_QUIT_KEY, 'q');
    assert_eq!(POLL_INTERVAL_MS, 16);
}
