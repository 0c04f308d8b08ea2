use room237::selection::ClipboardError;
use room237::windows::{win_failure_error, win_next, win_start, WinAction, WinFailure, WinStep};

fn run(outcome: impl Fn(WinStep) -> Option<WinFailure>) -> (Vec<WinStep>, Option<WinFailure>) {
    let mut state = win_start();
    let mut steps = Vec::new();
    let mut last_outcome = None;
    loop {
        let (next, action) = win_next(state, last_outcome.take());
        state = next;
        match action {
            WinAction::Run(step) => {
                steps.push(step);
                last_outcome = outcome(step);
            }
            WinAction::Finish(r) => return (steps, r),
        }
    }
}

#[test]
fn session_success_runs_every_step() {
    let (steps, r) = run(|_| None);
    assert_eq!(
        steps,
        vec![WinStep::Open, WinStep::Empty, WinStep::PlaceFiles, WinStep::PlaceDropEffect, WinStep::Close]
    );
    assert_eq!(r, None);
}

#[test]
fn drop_effect_failure_is_not_fatal() {
    let (steps, r) = run(|s| if s == WinStep::PlaceDropEffect { Some(WinFailure::Allocate("no memory".to_string())) } else { None });
    assert_eq!(steps.last(), Some(&WinStep::Close));
    assert_eq!(r, None);
}

#[test]
fn failure_after_open_still_closes() {
    let (steps, r) = run(|s| if s == WinStep::PlaceFiles { Some(WinFailure::Lock) } else { None });
    assert_eq!(steps, vec![WinStep::Open, WinStep::Empty, WinStep::PlaceFiles, WinStep::Close]);
    assert_eq!(r, Some(WinFailure::Lock));
    let (steps, r) = run(|s| if s == WinStep::Empty { Some(WinFailure::Empty("busy".to_string())) } else { None });
    assert_eq!(steps, vec![WinStep::Open, WinStep::Empty, WinStep::Close]);
    assert_eq!(r, Some(WinFailure::Empty("busy".to_string())));
}

#[test]
fn open_failure_has_nothing_to_close() {
    let (steps, r) = run(|s| if s == WinStep::Open { Some(WinFailure::Open("Access is denied. (os error 5)".to_string())) } else { None });
    assert_eq!(steps, vec![WinStep::Open]);
    assert_eq!(r, Some(WinFailure::Open("Access is denied. (os error 5)".to_string())));
}

#[test]
fn failures_map_to_errors() {
    assert_eq!(
        win_failure_error(WinFailure::Open("denied".to_string())),
        ClipboardError::OpenFailed("denied".to_string())
    );
    assert_eq!(
        win_failure_error(WinFailure::Empty("busy".to_string())),
        ClipboardError::EmptyFailed("busy".to_string())
    );
    assert_eq!(
        win_failure_error(WinFailure::Allocate("no memory".to_string())),
        ClipboardError::AllocateFailed("no memory".to_string())
    );
    assert_eq!(win_failure_error(WinFailure::Lock), ClipboardError::LockFailed);
    assert_eq!(win_failure_error(WinFailure::SetData), ClipboardError::SetDataFailed);
}

#[test]
fn session_errors_carry_system_text() {
    assert_eq!(
        win_failure_error(WinFailure::Open("Access is denied. (os error 5)".to_string())).message(),
        "Failed to open clipboard: Access is denied. (os error 5)"
    );
    assert_eq!(
        win_failure_error(WinFailure::Empty("busy".to_string())).message(),
        "Failed to empty clipboard: busy"
    );
    assert_eq!(
        win_failure_error(WinFailure::Allocate("no memory".to_string())).message(),
        "Failed to allocate memory: no memory"
    );
    assert_eq!(win_failure_error(WinFailure::Lock).message(), "Failed to lock memory");
    assert_eq!(win_failure_error(WinFailure::SetData).message(), "Failed to set clipboard data");
}
