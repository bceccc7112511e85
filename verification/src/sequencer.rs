//! The scheduler at the heart of the controller.
//!
//! The sequencer replays the selected sequence step by step: on entry to
//! a step it emits that step's output once, then waits the step's
//! duration out in fixed ticks. The surrounding loop sleeps one tick,
//! polls the command channel once, and hands the poll's outcome to
//! [`Sequencer::on_tick`], which decides everything: whether to keep
//! waiting, move to the next step, subscribe after the connection
//! signal, or abandon the step for a newly commanded sequence.

use crate::mode::Mode;
use crate::sequences::{lemma_catalog_wf, sequence_for, spec_sequence_for, Color};
use vstd::prelude::*;

verus! {

/// The polling granularity in milliseconds: the longest a pending
/// command can wait before the sequencer acts on it.
pub const TICK_MS: i32 = 10;

/// A tri-boolean output state, one flag per channel.
#[derive(Clone, Copy, PartialEq, Eq, Structural, Debug)]
pub struct Rgb {
    pub red: bool,
    pub green: bool,
    pub blue: bool,
}

/// What one tick asks of the surrounding loop: at most one output to
/// apply, and whether to subscribe to the command source.
#[derive(Clone, Copy, PartialEq, Eq, Structural, Debug)]
pub struct Response {
    pub set: Option<Rgb>,
    pub subscribe: bool,
}

/// The sequencer's state as the contracts see it: the selected mode,
/// the step being played, and the time waited within that step.
pub struct SequencerModel {
    pub mode: Mode,
    pub step: int,
    pub waited: int,
}

/// A well-formed model: a sequence-selecting mode, a step inside its
/// sequence, and a waited time still short of the step's duration.
pub open spec fn model_wf(m: SequencerModel) -> bool {
    &&& m.mode != Mode::Connected
    &&& 0 <= m.step < spec_sequence_for(m.mode).len()
    &&& 0 <= m.waited < spec_sequence_for(m.mode)[m.step].duration
    &&& m.waited % (TICK_MS as int) == 0
}

/// The step a model is playing.
pub open spec fn model_step(m: SequencerModel) -> Color {
    spec_sequence_for(m.mode)[m.step]
}

/// The output state of the step a model is playing.
pub open spec fn model_color(m: SequencerModel) -> Rgb {
    Rgb { red: model_step(m).red, green: model_step(m).green, blue: model_step(m).blue }
}

/// The state on entry to the first step of a mode's sequence.
pub open spec fn fresh_model(mode: Mode) -> SequencerModel {
    SequencerModel { mode, step: 0, waited: 0 }
}

/// Whether a poll outcome preempts playback: any received mode but the
/// connection signal selects a new sequence.
pub open spec fn is_switch(received: Option<Mode>) -> bool {
    received matches Some(md) && md != Mode::Connected
}

/// The index after `m.step`, wrapping past the last step.
pub open spec fn next_step_index(m: SequencerModel) -> int {
    if m.step + 1 == spec_sequence_for(m.mode).len() {
        0
    } else {
        m.step + 1
    }
}

/// The state after one tick with no preemption: the tick counts toward
/// the wait, and a completed wait enters the next step, wrapping.
pub open spec fn tick_model(m: SequencerModel) -> SequencerModel {
    if m.waited + TICK_MS >= model_step(m).duration {
        SequencerModel { mode: m.mode, step: next_step_index(m), waited: 0 }
    } else {
        SequencerModel { mode: m.mode, step: m.step, waited: m.waited + TICK_MS }
    }
}

/// The state after one tick whose poll returned `received`: a selecting
/// mode replaces the state wholesale; the connection signal and an
/// empty poll leave the wait to run its course.
pub open spec fn next_model(m: SequencerModel, received: Option<Mode>) -> SequencerModel {
    if is_switch(received) {
        fresh_model(received->0)
    } else {
        tick_model(m)
    }
}

/// What the tick emits: exactly one output on a switch or on entry to
/// the next step, none while the wait runs; a subscribe exactly on the
/// connection signal.
pub open spec fn spec_response(m: SequencerModel, received: Option<Mode>) -> Response {
    if is_switch(received) {
        Response { set: Some(model_color(fresh_model(received->0))), subscribe: false }
    } else {
        Response {
            set: if m.waited + TICK_MS >= model_step(m).duration {
                Some(model_color(tick_model(m)))
            } else {
                None
            },
            subscribe: received == Some(Mode::Connected),
        }
    }
}

/// The sequencer: the currently selected sequence, the step being
/// played, and the time waited within it. The sequence field always
/// holds exactly the catalog's sequence for the selected mode.
pub struct Sequencer {
    mode: Mode,
    seq: Vec<Color>,
    step: usize,
    waited: i32,
}

impl View for Sequencer {
    type V = SequencerModel;

    closed spec fn view(&self) -> SequencerModel {
        SequencerModel { mode: self.mode, step: self.step as int, waited: self.waited as int }
    }
}

impl Sequencer {
    /// The selected sequence is the catalog's, the step lies inside it,
    /// and the wait is a whole number of ticks short of the duration.
    pub closed spec fn wf(&self) -> bool {
        &&& self.seq@ == spec_sequence_for(self.mode)
        &&& model_wf(self@)
    }

    /// Starts playback at the first step of the cycle sequence.
    pub fn new() -> (s: Self)
        ensures
            s.wf(),
            s@ == fresh_model(Mode::Cycle),
    {
        Sequencer { mode: Mode::Cycle, seq: sequence_for(Mode::Cycle), step: 0, waited: 0 }
    }

    /// The output state of the step being played. The surrounding loop
    /// applies it once on start-up, before the first wait tick.
    pub fn current_color(&self) -> (c: Rgb)
        requires
            self.wf(),
        ensures
            c == model_color(self@),
    {
        let step = self.seq[self.step];
        Rgb { red: step.red, green: step.green, blue: step.blue }
    }

    /// Replaces the state wholesale with the start of `mode`'s
    /// sequence and returns its first output state.
    fn switch_to(&mut self, mode: Mode) -> (c: Rgb)
        requires
            mode != Mode::Connected,
        ensures
            final(self).wf(),
            final(self)@ == fresh_model(mode),
            c == model_color(fresh_model(mode)),
    {
        self.mode = mode;
        self.seq = sequence_for(mode);
        self.step = 0;
        self.waited = 0;
        proof {
            lemma_catalog_wf(mode, 0);
        }
        self.current_color()
    }

    /// Accounts one elapsed tick of the wait: `None` while the wait
    /// runs, the next step's output once the duration is reached.
    fn advance(&mut self) -> (set: Option<Rgb>)
        requires
            old(self).wf(),
        ensures
            final(self).wf(),
            final(self)@ == tick_model(old(self)@),
            set == spec_response(old(self)@, None).set,
    {
        proof {
            lemma_catalog_wf(self.mode, self.step as int);
        }
        let duration = self.seq[self.step].duration;
        if self.waited + TICK_MS >= duration {
            self.waited = 0;
            self.step = if self.step + 1 == self.seq.len() {
                0
            } else {
                self.step + 1
            };
            proof {
                lemma_catalog_wf(self.mode, self.step as int);
            }
            Some(self.current_color())
        } else {
            self.waited = self.waited + TICK_MS;
            None
        }
    }

    /// One tick of the scheduler. The surrounding loop calls this after
    /// each tick's sleep with what its single channel poll returned;
    /// the response carries at most one output to apply and whether to
    /// subscribe. A selecting mode preempts the step at once, the
    /// connection signal leaves the step's timing untouched, and an
    /// empty poll lets the wait run toward the next step.
    pub fn on_tick(&mut self, received: Option<Mode>) -> (r: Response)
        requires
            old(self).wf(),
        ensures
            final(self).wf(),
            final(self)@ == next_model(old(self)@, received),
            r == spec_response(old(self)@, received),
    {
        match received {
            Some(md) => {
                if md == Mode::Connected {
                    let set = self.advance();
                    Response { set, subscribe: true }
                } else {
                    let c = self.switch_to(md);
                    Response { set: Some(c), subscribe: false }
                }
            },
            None => {
                let set = self.advance();
                Response { set, subscribe: false }
            },
        }
    }
}

} // verus!
