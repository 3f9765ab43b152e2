//! The rules of the screen guard, which makes sure that the terminal is taken
//! over at most once at a time and handed back when the guard goes away.
//!
//! Taking the terminal over runs a fixed list of steps; the first one that
//! fails ends the attempt with its error, and the steps that had succeeded
//! are undone, so that the terminal is restored. The flag that says that a
//! guard is open is only set once every step has succeeded, and only cleared
//! once every step of handing the terminal back has succeeded.

use vstd::prelude::*;

use crate::error::Error;

verus! {

/// The steps that take the terminal over, in order.
#[derive(Clone, Copy, Debug, PartialEq, Eq, Structural)]
pub enum SetupStep {
    EnableRawMode,
    EnterAlternateScreen,
    EnableMouseCapture,
    CreateTerminal,
}

/// The steps that hand the terminal back, in order.
#[derive(Clone, Copy, Debug, PartialEq, Eq, Structural)]
pub enum TeardownStep {
    DisableRawMode,
    DisableMouseCapture,
    LeaveAlternateScreen,
}

/// What to do after a step.
#[derive(Debug)]
pub enum Progress<S> {
    /// Run this step next.
    Next(S),
    /// All steps succeeded.
    Done,
    /// A step failed with this error; run no further step.
    Failed(Error),
}

/// What to do after a setup step.
#[derive(Debug)]
pub enum SetupProgress {
    /// Run this step next.
    Next(SetupStep),
    /// All steps succeeded; the guard is open.
    Done,
    /// A step failed with this error. Run these teardown steps, in order, to
    /// undo the steps that had succeeded, then report the error.
    Failed(Error, Vec<TeardownStep>),
}

/// The teardown steps that undo the setup steps run before `failed`, in the
/// order in which the terminal is handed back.
pub open spec fn undo_before(failed: SetupStep) -> Seq<TeardownStep> {
    match failed {
        SetupStep::EnableRawMode => seq![],
        SetupStep::EnterAlternateScreen => seq![TeardownStep::DisableRawMode],
        SetupStep::EnableMouseCapture => seq![
            TeardownStep::DisableRawMode,
            TeardownStep::LeaveAlternateScreen,
        ],
        SetupStep::CreateTerminal => seq![
            TeardownStep::DisableRawMode,
            TeardownStep::DisableMouseCapture,
            TeardownStep::LeaveAlternateScreen,
        ],
    }
}

/// The step after a setup step, if any.
pub open spec fn setup_after(step: SetupStep) -> Option<SetupStep> {
    match step {
        SetupStep::EnableRawMode => Some(SetupStep::EnterAlternateScreen),
        SetupStep::EnterAlternateScreen => Some(SetupStep::EnableMouseCapture),
        SetupStep::EnableMouseCapture => Some(SetupStep::CreateTerminal),
        SetupStep::CreateTerminal => None,
    }
}

/// The step after a teardown step, if any.
pub open spec fn teardown_after(step: TeardownStep) -> Option<TeardownStep> {
    match step {
        TeardownStep::DisableRawMode => Some(TeardownStep::DisableMouseCapture),
        TeardownStep::DisableMouseCapture => Some(TeardownStep::LeaveAlternateScreen),
        TeardownStep::LeaveAlternateScreen => None,
    }
}

/// The flag that says whether a screen guard is open, with the rules that
/// change it.
#[derive(Clone, Copy, Debug)]
pub struct ScreenLatch {
    is_open: bool,
}

impl ScreenLatch {
    /// Whether a screen guard is open.
    pub closed spec fn open_view(&self) -> bool {
        self.is_open
    }

    /// A latch holding the given flag.
    pub fn new(is_open: bool) -> (r: ScreenLatch)
        ensures
            r.open_view() == is_open,
    {
        ScreenLatch { is_open }
    }

    /// Whether a screen guard is open.
    pub fn is_open(&self) -> (r: bool)
        ensures
            r == self.open_view(),
    {
        self.is_open
    }

    /// The first step of opening a guard, or the refusal when one is open.
    pub fn begin_open(&self) -> (r: Result<SetupStep, Error>)
        ensures
            self.open_view() ==> r matches Err(Error::ScreenAlreadyOpen),
            !self.open_view() ==> r == Ok::<SetupStep, Error>(SetupStep::EnableRawMode),
    {
        if self.is_open {
            Err(Error::ScreenAlreadyOpen)
        } else {
            Ok(SetupStep::EnableRawMode)
        }
    }

    /// Takes the outcome of a setup step: a failure ends the attempt with its
    /// error and asks for the steps that had succeeded to be undone; a
    /// success leads to the next step, and the success of the last step opens
    /// the guard.
    pub fn setup_step_done(&mut self, step: SetupStep, outcome: Result<(), Error>) -> (r:
        SetupProgress)
        ensures
            match outcome {
                Err(e) => r matches SetupProgress::Failed(err, undo) && err == e && undo@
                    == undo_before(step) && final(self).open_view() == old(self).open_view(),
                Ok(()) => match setup_after(step) {
                    Some(next) => r == SetupProgress::Next(next)
                        && final(self).open_view() == old(self).open_view(),
                    None => r == SetupProgress::Done && final(self).open_view(),
                },
            },
    {
        match outcome {
            Err(e) => {
                let mut undo: Vec<TeardownStep> = Vec::new();
                match step {
                    SetupStep::EnableRawMode => {},
                    SetupStep::EnterAlternateScreen => {
                        undo.push(TeardownStep::DisableRawMode);
                    },
                    SetupStep::EnableMouseCapture => {
                        undo.push(TeardownStep::DisableRawMode);
                        undo.push(TeardownStep::LeaveAlternateScreen);
                    },
                    SetupStep::CreateTerminal => {
                        undo.push(TeardownStep::DisableRawMode);
                        undo.push(TeardownStep::DisableMouseCapture);
                        undo.push(TeardownStep::LeaveAlternateScreen);
                    },
                }
                assert(undo@ =~= undo_before(step));
                SetupProgress::Failed(e, undo)
            },
            Ok(()) => match step {
                SetupStep::EnableRawMode => SetupProgress::Next(SetupStep::EnterAlternateScreen),
                SetupStep::EnterAlternateScreen => SetupProgress::Next(SetupStep::EnableMouseCapture),
                SetupStep::EnableMouseCapture => SetupProgress::Next(SetupStep::CreateTerminal),
                SetupStep::CreateTerminal => {
                    self.is_open = true;
                    SetupProgress::Done
                },
            },
        }
    }

    /// The first step of handing the terminal back.
    pub fn begin_close(&self) -> (r: TeardownStep)
        ensures
            r == TeardownStep::DisableRawMode,
    {
        TeardownStep::DisableRawMode
    }

    /// Takes the outcome of a teardown step: a failure ends the teardown with
    /// its error and leaves the guard marked open; a success leads to the next
    /// step, and the success of the last step closes the guard.
    pub fn teardown_step_done(&mut self, step: TeardownStep, outcome: Result<(), Error>) -> (r:
        Progress<TeardownStep>)
        ensures
            match outcome {
                Err(e) => r == Progress::<TeardownStep>::Failed(e) && final(self).open_view()
                    == old(self).open_view(),
                Ok(()) => match teardown_after(step) {
                    Some(next) => r == Progress::<TeardownStep>::Next(next)
                        && final(self).open_view() == old(self).open_view(),
                    None => r == Progress::<TeardownStep>::Done && !final(self).open_view(),
                },
            },
    {
        match outcome {
            Err(e) => Progress::Failed(e),
            Ok(()) => match step {
                TeardownStep::DisableRawMode => Progress::Next(TeardownStep::DisableMouseCapture),
                TeardownStep::DisableMouseCapture => Progress::Next(
                    TeardownStep::LeaveAlternateScreen,
                ),
                TeardownStep::LeaveAlternateScreen => {
                    self.is_open = false;
                    Progress::Done
                },
            },
        }
    }
}

/// The position of a setup step in the order in which the steps run.
pub open spec fn setup_position(s: SetupStep) -> int {
    match s {
        SetupStep::EnableRawMode => 0,
        SetupStep::EnterAlternateScreen => 1,
        SetupStep::EnableMouseCapture => 2,
        SetupStep::CreateTerminal => 3,
    }
}

/// The teardown step that undoes a setup step, if it changes the terminal.
pub open spec fn undone_by(s: SetupStep) -> Option<TeardownStep> {
    match s {
        SetupStep::EnableRawMode => Some(TeardownStep::DisableRawMode),
        SetupStep::EnterAlternateScreen => Some(TeardownStep::LeaveAlternateScreen),
        SetupStep::EnableMouseCapture => Some(TeardownStep::DisableMouseCapture),
        SetupStep::CreateTerminal => None,
    }
}

/// When a setup step fails, the teardown steps asked for undo exactly the
/// steps that ran before it and changed the terminal, each once.
pub proof fn lemma_failure_restores_terminal(failed: SetupStep)
    ensures
        forall|s: SetupStep|
            setup_position(s) < setup_position(failed) && #[trigger] undone_by(s) is Some
                ==> undo_before(failed).contains(undone_by(s).unwrap()),
        forall|i: int|
            #![trigger undo_before(failed)[i]]
            0 <= i < undo_before(failed).len() ==> exists|s: SetupStep|
                setup_position(s) < setup_position(failed) && #[trigger] undone_by(s) == Some(
                    undo_before(failed)[i],
                ),
        forall|i: int, j: int|
            #![trigger undo_before(failed)[i], undo_before(failed)[j]]
            0 <= i < j < undo_before(failed).len() ==> undo_before(failed)[i] != undo_before(
                failed,
            )[j],
{
    let u = undo_before(failed);
    assert forall|s: SetupStep|
        setup_position(s) < setup_position(failed) && #[trigger] undone_by(s) is Some
            implies u.contains(undone_by(s).unwrap()) by {
        match failed {
            SetupStep::EnableRawMode => {},
            SetupStep::EnterAlternateScreen => {
                assert(u[0] == TeardownStep::DisableRawMode);
            },
            SetupStep::EnableMouseCapture => {
                assert(u[0] == TeardownStep::DisableRawMode);
                assert(u[1] == TeardownStep::LeaveAlternateScreen);
            },
            SetupStep::CreateTerminal => {
                assert(u[0] == TeardownStep::DisableRawMode);
                assert(u[1] == TeardownStep::DisableMouseCapture);
                assert(u[2] == TeardownStep::LeaveAlternateScreen);
            },
        }
    }
    assert forall|i: int| #![trigger u[i]] 0 <= i < u.len() implies exists|s: SetupStep|
        setup_position(s) < setup_position(failed) && #[trigger] undone_by(s) == Some(u[i]) by {
        if u[i] == TeardownStep::DisableRawMode {
            assert(undone_by(SetupStep::EnableRawMode) == Some(u[i]));
        } else if u[i] == TeardownStep::LeaveAlternateScreen {
            assert(undone_by(SetupStep::EnterAlternateScreen) == Some(u[i]));
        } else {
            assert(undone_by(SetupStep::EnableMouseCapture) == Some(u[i]));
        }
    }
}

} // verus!
