//! One Windows clipboard session: open once, empty, place the
//! dropped-files block, try the preferred drop effect, and close on every
//! path once the clipboard is open.
use vstd::prelude::*;
use crate::selection::ClipboardError;

verus! {

/// A step that the caller performs against the clipboard.
#[derive(Clone, Copy, Debug, PartialEq, Eq, Structural)]
pub enum WinStep {
    Open,
    Empty,
    PlaceFiles,
    PlaceDropEffect,
    Close,
}

/// How a step failed; the system's error text where it gives one.
#[derive(Clone, Debug, PartialEq, Eq)]
pub enum WinFailure {
    Open(String),
    Empty(String),
    Allocate(String),
    Lock,
    SetData,
}

/// The step last performed, and the failure that the session will report.
#[derive(Debug)]
pub struct WinState {
    pub last: Option<WinStep>,
    pub pending: Option<WinFailure>,
}

/// What to do next: perform a step, or end with the failure to report
/// (`None` for success).
#[derive(Debug)]
pub enum WinAction {
    Run(WinStep),
    Finish(Option<WinFailure>),
}

/// The session's rule: `outcome` is how the last step went (`None` when it
/// succeeded).
pub open spec fn win_after(s: WinState, outcome: Option<WinFailure>) -> (WinState, WinAction) {
    match s.last {
        None => (WinState { last: Some(WinStep::Open), pending: None }, WinAction::Run(WinStep::Open)),
        Some(WinStep::Open) => match outcome {
            None => (WinState { last: Some(WinStep::Empty), pending: None }, WinAction::Run(WinStep::Empty)),
            Some(f) => (WinState { last: Some(WinStep::Open), pending: None }, WinAction::Finish(Some(f))),
        },
        Some(WinStep::Empty) => match outcome {
            None => (
                WinState { last: Some(WinStep::PlaceFiles), pending: None },
                WinAction::Run(WinStep::PlaceFiles),
            ),
            Some(f) => (WinState { last: Some(WinStep::Close), pending: Some(f) }, WinAction::Run(WinStep::Close)),
        },
        Some(WinStep::PlaceFiles) => match outcome {
            None => (
                WinState { last: Some(WinStep::PlaceDropEffect), pending: None },
                WinAction::Run(WinStep::PlaceDropEffect),
            ),
            Some(f) => (WinState { last: Some(WinStep::Close), pending: Some(f) }, WinAction::Run(WinStep::Close)),
        },
        Some(WinStep::PlaceDropEffect) => (
            WinState { last: Some(WinStep::Close), pending: s.pending },
            WinAction::Run(WinStep::Close),
        ),
        Some(WinStep::Close) => (
            WinState { last: Some(WinStep::Close), pending: None },
            WinAction::Finish(s.pending),
        ),
    }
}

/// The state before the session starts.
pub fn win_start() -> (r: WinState)
    ensures
        r == (WinState { last: None, pending: None }),
{
    WinState { last: None, pending: None }
}

/// The next state and action once the last step went as `outcome` says.
pub fn win_next(s: WinState, outcome: Option<WinFailure>) -> (r: (WinState, WinAction))
    ensures
        r == win_after(s, outcome),
{
    match s.last {
        None => (WinState { last: Some(WinStep::Open), pending: None }, WinAction::Run(WinStep::Open)),
        Some(WinStep::Open) => match outcome {
            None => (WinState { last: Some(WinStep::Empty), pending: None }, WinAction::Run(WinStep::Empty)),
            Some(f) => (WinState { last: Some(WinStep::Open), pending: None }, WinAction::Finish(Some(f))),
        },
        Some(WinStep::Empty) => match outcome {
            None => (
                WinState { last: Some(WinStep::PlaceFiles), pending: None },
                WinAction::Run(WinStep::PlaceFiles),
            ),
            Some(f) => (WinState { last: Some(WinStep::Close), pending: Some(f) }, WinAction::Run(WinStep::Close)),
        },
        Some(WinStep::PlaceFiles) => match outcome {
            None => (
                WinState { last: Some(WinStep::PlaceDropEffect), pending: None },
                WinAction::Run(WinStep::PlaceDropEffect),
            ),
            Some(f) => (WinState { last: Some(WinStep::Close), pending: Some(f) }, WinAction::Run(WinStep::Close)),
        },
        Some(WinStep::PlaceDropEffect) => (
            WinState { last: Some(WinStep::Close), pending: s.pending },
            WinAction::Run(WinStep::Close),
        ),
        Some(WinStep::Close) => (
            WinState { last: Some(WinStep::Close), pending: None },
            WinAction::Finish(s.pending),
        ),
    }
}

/// The error that a session failure is reported as.
pub fn win_failure_error(f: WinFailure) -> (e: ClipboardError)
    ensures
        f is Open ==> e == ClipboardError::OpenFailed(f->Open_0),
        f is Empty ==> e == ClipboardError::EmptyFailed(f->Empty_0),
        f is Allocate ==> e == ClipboardError::AllocateFailed(f->Allocate_0),
        f is Lock ==> e == ClipboardError::LockFailed,
        f is SetData ==> e == ClipboardError::SetDataFailed,
{
    match f {
        WinFailure::Open(t) => ClipboardError::OpenFailed(t),
        WinFailure::Empty(t) => ClipboardError::EmptyFailed(t),
        WinFailure::Allocate(t) => ClipboardError::AllocateFailed(t),
        WinFailure::Lock => ClipboardError::LockFailed,
        WinFailure::SetData => ClipboardError::SetDataFailed,
    }
}

/// How each step of one session goes (`None` for success).
pub struct WinOutcomes {
    pub open: Option<WinFailure>,
    pub empty: Option<WinFailure>,
    pub place_files: Option<WinFailure>,
    pub drop_effect: Option<WinFailure>,
    pub close: Option<WinFailure>,
}

pub open spec fn outcome_of(step: WinStep, o: WinOutcomes) -> Option<WinFailure> {
    match step {
        WinStep::Open => o.open,
        WinStep::Empty => o.empty,
        WinStep::PlaceFiles => o.place_files,
        WinStep::PlaceDropEffect => o.drop_effect,
        WinStep::Close => o.close,
    }
}

/// Runs the rule from `s` for at most `fuel` steps: the steps performed, in
/// order, and the failure reported at the end.
pub open spec fn win_run_from(s: WinState, o: WinOutcomes, fuel: nat) -> (
    Seq<WinStep>,
    Option<WinFailure>,
)
    decreases fuel,
{
    let outcome = match s.last {
        None => None,
        Some(step) => outcome_of(step, o),
    };
    let (next, action) = win_after(s, outcome);
    match action {
        WinAction::Finish(r) => (seq![], r),
        WinAction::Run(step) => if fuel == 0 {
            (seq![], None)
        } else {
            let rest = win_run_from(next, o, (fuel - 1) as nat);
            (seq![step] + rest.0, rest.1)
        },
    }
}

/// A whole session in which each step goes as `o` says.
pub open spec fn win_session(o: WinOutcomes) -> (Seq<WinStep>, Option<WinFailure>) {
    win_run_from(WinState { last: None, pending: None }, o, 5)
}

/// Every session opens the clipboard once, as its first step. When the
/// open fails the session ends there with that failure; otherwise it closes
/// the clipboard once, as its last step, whatever failed in between. It
/// fails exactly when opening, emptying or placing the files fails, with
/// the first such failure: how the drop effect and the close go never
/// changes the result.
pub proof fn lemma_session_discipline(o: WinOutcomes)
    ensures
        win_session(o).0.len() > 0,
        win_session(o).0[0] == WinStep::Open,
        o.open is Some ==> win_session(o).0 == seq![WinStep::Open] && win_session(o).1 == o.open,
        o.open is None ==> win_session(o).0.last() == WinStep::Close,
        o.open is None ==> win_session(o).0.drop_last().drop_first().len() <= 3,
        o.open is None ==> !win_session(o).0.drop_first().contains(WinStep::Open),
        o.open is None ==> !win_session(o).0.drop_last().contains(WinStep::Close),
        o.open is None ==> win_session(o).1 == (if o.empty is Some {
            o.empty
        } else {
            o.place_files
        }),
{
    reveal_with_fuel(win_run_from, 6);
    let t = win_session(o).0;
    if o.open is None {
        if o.empty is Some {
            assert(t =~= seq![WinStep::Open, WinStep::Empty, WinStep::Close]);
        } else if o.place_files is Some {
            assert(t =~= seq![WinStep::Open, WinStep::Empty, WinStep::PlaceFiles, WinStep::Close]);
        } else {
            assert(t =~= seq![
                WinStep::Open,
                WinStep::Empty,
                WinStep::PlaceFiles,
                WinStep::PlaceDropEffect,
                WinStep::Close,
            ]);
        }
        assert(t.drop_first().contains(WinStep::Open) ==> false);
        assert(t.drop_last().contains(WinStep::Close) ==> false);
    } else {
        assert(t =~= seq![WinStep::Open]);
    }
}

} // verus!
