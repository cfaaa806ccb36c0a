//! The practice session state machine and the top-level menu around it.
//! Each call takes one key-down and says what it meant; the caller waits for
//! key-downs, prints the feedback and keeps the time.
use vstd::prelude::*;
use crate::matcher::{feed_step, FsCtx, MatchOutcome};
use crate::scale::{
    as_ints, mode_for_key, octaves_for_key, offset_for_key, ScaleCreator, ScaleCreatorArgs,
    ScaleMode, CHOICE_A,
};

verus! {

/// Key that starts a free-scale session from the main menu (A0).
pub const START_KEY: u8 = CHOICE_A;

/// The phases of one free-scale session.
pub enum FreeScale {
    /// Waiting for the key that picks the mode.
    ModeSelection,
    /// Waiting for the key that picks the octave count.
    OctaveSelection { scale: ScaleMode },
    /// Waiting for the key that the scale starts on.
    StartKeySelection { scale: ScaleMode, octaves: u8 },
    /// The player is playing the expected sequence.
    Playing { run: FsCtx },
    /// A selection key was out of range; no sequence was built.
    Aborted,
    /// The whole sequence was played.
    Finished,
}

/// What one key-down did to a session.
#[derive(Clone, Copy, Debug, PartialEq, Eq, Structural)]
pub enum Feedback {
    ModeChosen(ScaleMode),
    OctavesChosen(u8),
    /// The start key was chosen and the sequence built: playback starts now,
    /// and with it the clock.
    PlaybackStarted(ScaleCreatorArgs),
    /// A key-down during playback, and what the matcher made of it.
    Played(MatchOutcome),
    /// A selection key was out of range: the session is over.
    Aborted,
    /// The session was already over; nothing changed.
    Ignored,
}

/// `next` and `fb` are the phase and feedback that the key-down `key` gives
/// in phase `cur`.
pub open spec fn session_step(cur: FreeScale, key: u8, next: FreeScale, fb: Feedback) -> bool {
    match cur {
        FreeScale::ModeSelection => match mode_for_key(key) {
            Some(m) => next == FreeScale::OctaveSelection { scale: m } && fb == Feedback::ModeChosen(
                m,
            ),
            None => next == FreeScale::Aborted && fb == Feedback::Aborted,
        },
        FreeScale::OctaveSelection { scale } => match octaves_for_key(key) {
            Some(o) => next == (FreeScale::StartKeySelection { scale, octaves: o }) && fb
                == Feedback::OctavesChosen(o),
            None => next == FreeScale::Aborted && fb == Feedback::Aborted,
        },
        FreeScale::StartKeySelection { scale, octaves } => match offset_for_key(key, octaves) {
            Some(offset) => {
                let args = ScaleCreatorArgs { scale, octaves, offset };
                &&& next matches FreeScale::Playing { run: next_run }
                &&& next_run.cursor == 0
                &&& as_ints(next_run.scale@) == args.expected()
                &&& fb == Feedback::PlaybackStarted(args)
            },
            None => next == FreeScale::Aborted && fb == Feedback::Aborted,
        },
        FreeScale::Playing { run } => {
            let (cursor, outcome) = feed_step(run.scale@, run.cursor as nat, key);
            &&& fb == Feedback::Played(outcome)
            &&& outcome == MatchOutcome::Complete ==> next == FreeScale::Finished
            &&& outcome != MatchOutcome::Complete ==> {
                &&& next matches FreeScale::Playing { run: next_run }
                &&& next_run.scale@ == run.scale@
                &&& next_run.cursor == cursor
            }
        },
        FreeScale::Aborted => next == FreeScale::Aborted && fb == Feedback::Ignored,
        FreeScale::Finished => next == FreeScale::Finished && fb == Feedback::Ignored,
    }
}

impl FreeScale {
    /// The octave count chosen is one the selection offers, and a run in the
    /// playing phase is in progress: its cursor has not reached the end.
    pub open spec fn wf(self) -> bool {
        &&& self matches FreeScale::StartKeySelection { octaves, .. } ==> 1 <= octaves <= 4
        &&& self matches FreeScale::Playing { run } ==> run.wf() && !run.complete()
    }

    pub open spec fn over(self) -> bool {
        self matches FreeScale::Aborted || self matches FreeScale::Finished
    }

    /// A session at its first phase.
    pub fn new() -> (r: FreeScale)
        ensures
            r == FreeScale::ModeSelection,
    {
        FreeScale::ModeSelection
    }

    /// Whether the session has ended, aborted or finished.
    pub fn is_over(&self) -> (r: bool)
        ensures
            r == self.over(),
    {
        match self {
            FreeScale::Aborted | FreeScale::Finished => true,
            _ => false,
        }
    }

    /// Advances the session by one key-down. In a selection phase a valid
    /// choice moves to the next phase and any other key aborts; the start key
    /// builds the expected sequence and starts playback; during playback the
    /// key goes to the matcher, and the last key of the sequence finishes the
    /// session.
    pub fn run(&mut self, key: u8) -> (fb: Feedback)
        requires
            old(self).wf(),
        ensures
            final(self).wf(),
            session_step(*old(self), key, *final(self), fb),
    {
        let mut cur = FreeScale::Aborted;
        core::mem::swap(self, &mut cur);
        match cur {
            FreeScale::ModeSelection => match ScaleCreator::scale_selection(key) {
                Ok(m) => {
                    *self = FreeScale::OctaveSelection { scale: m };
                    Feedback::ModeChosen(m)
                },
                Err(_) => Feedback::Aborted,
            },
            FreeScale::OctaveSelection { scale } => match ScaleCreator::octaves_selection(key) {
                Ok(o) => {
                    *self = FreeScale::StartKeySelection { scale, octaves: o };
                    Feedback::OctavesChosen(o)
                },
                Err(_) => Feedback::Aborted,
            },
            FreeScale::StartKeySelection { scale, octaves } => match ScaleCreator::startkey_selection(
                key,
                octaves,
            ) {
                Ok(offset) => {
                    let args = ScaleCreatorArgs { scale, octaves, offset };
                    let notes = ScaleCreator::build_notes(&args);
                    *self = FreeScale::Playing { run: FsCtx::new(notes) };
                    Feedback::PlaybackStarted(args)
                },
                Err(_) => Feedback::Aborted,
            },
            FreeScale::Playing { mut run } => {
                let outcome = run.feed(key);
                if outcome == MatchOutcome::Complete {
                    *self = FreeScale::Finished;
                } else {
                    *self = FreeScale::Playing { run };
                }
                Feedback::Played(outcome)
            },
            FreeScale::Aborted => Feedback::Ignored,
            FreeScale::Finished => {
                *self = FreeScale::Finished;
                Feedback::Ignored
            },
        }
    }
}

/// What one key-down did at the top level.
#[derive(Clone, Copy, Debug, PartialEq, Eq, Structural)]
pub enum TrainerFeedback {
    /// At the main menu, a key other than the start key: nothing happens.
    Menu,
    /// At the main menu, the start key: a new session begins.
    SessionStarted,
    /// A key-down handed to the running session.
    Session(Feedback),
}

/// The trainer: the main menu, and the session started from it, if one is
/// running. A session that ends returns control to the menu.
pub struct ScaleTrainer {
    pub session: Option<FreeScale>,
}

impl ScaleTrainer {
    pub open spec fn wf(&self) -> bool {
        self.session matches Some(s) ==> s.wf() && !s.over()
    }

    /// A trainer at the main menu.
    pub fn new() -> (r: ScaleTrainer)
        ensures
            r.wf(),
            r.session is None,
    {
        ScaleTrainer { session: None }
    }

    pub fn in_menu(&self) -> (r: bool)
        ensures
            r == self.session is None,
    {
        self.session.is_none()
    }

    /// Handles one key-down: at the menu the start key begins a session and
    /// any other key is ignored; during a session the key goes to it, and
    /// when the session ends, aborted or finished, the trainer is back at
    /// the menu.
    pub fn on_key_down(&mut self, key: u8) -> (r: TrainerFeedback)
        requires
            old(self).wf(),
        ensures
            final(self).wf(),
            old(self).session is None ==> {
                if key == START_KEY {
                    &&& final(self).session == Some(FreeScale::ModeSelection)
                    &&& r == TrainerFeedback::SessionStarted
                } else {
                    &&& final(self).session is None
                    &&& r == TrainerFeedback::Menu
                }
            },
            old(self).session matches Some(s) ==> {
                &&& r matches TrainerFeedback::Session(fb)
                &&& exists|next: FreeScale|
                    #[trigger] session_step(s, key, next, r->Session_0) && final(self).session == (
                    if next.over() {
                        None
                    } else {
                        Some(next)
                    })
            },
    {
        match self.session.take() {
            None => {
                if key == START_KEY {
                    self.session = Some(FreeScale::new());
                    TrainerFeedback::SessionStarted
                } else {
                    TrainerFeedback::Menu
                }
            },
            Some(mut s) => {
                let fb = s.run(key);
                if !s.is_over() {
                    self.session = Some(s);
                }
                TrainerFeedback::Session(fb)
            },
        }
    }
}

} // verus!
