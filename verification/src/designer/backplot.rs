//! Back plotting: stepping forward and backward through the moves of a
//! program, with the position that the tool has reached.

use vstd::prelude::*;
use std::collections::VecDeque;
use crate::communication::Position;
use crate::jobs::Progress;
use crate::text::{chars_of, string_of, extend, extend_str, decimal, decimal_of};

verus! {

/// Kind of a move in a back plot.
#[derive(Clone, Debug, Copy, PartialEq, Eq, Structural)]
pub enum MoveType {
    /// Rapid move (G0).
    Rapid,
    /// Linear move (G1).
    Linear,
    /// Clockwise arc (G2).
    ArcCW,
    /// Counter-clockwise arc (G3).
    ArcCCW,
    /// Dwell (G4).
    Dwell,
    /// Any other move.
    Other,
}

/// State of a back plot.
#[derive(Clone, Debug, Copy, PartialEq, Eq, Structural)]
pub enum BackPlotState {
    Idle,
    Running,
    Paused,
    Completed,
}

/// One step of a back plot: a move from one position to another.
#[derive(Debug)]
pub struct BackPlotStep {
    /// Line of the program, counted from 1.
    pub line_number: usize,
    pub start_pos: Position,
    pub end_pos: Position,
    pub gcode_command: String,
    /// Feed rate in millimetres per minute.
    pub feed_rate: u32,
    /// Spindle speed in RPM.
    pub spindle_speed: u32,
    pub move_type: MoveType,
}

impl Clone for BackPlotStep {
    fn clone(&self) -> (r: BackPlotStep)
        ensures
            r == *self,
    {
        BackPlotStep {
            line_number: self.line_number,
            start_pos: self.start_pos,
            end_pos: self.end_pos,
            gcode_command: self.gcode_command.clone(),
            feed_rate: self.feed_rate,
            spindle_speed: self.spindle_speed,
            move_type: self.move_type,
        }
    }
}

/// Why a back plot refused to work.
#[derive(Clone, Debug, Copy, PartialEq, Eq, Structural)]
pub enum BackPlotError {
    /// A back plot needs at least one step.
    EmptySteps,
    /// There is no step of this number; `max` is the last.
    StepOutOfRange { step: usize, max: usize },
}

impl BackPlotError {
    /// A description of the error.
    pub fn message(&self) -> (r: String)
        ensures
            r@ == match *self {
                BackPlotError::EmptySteps => "Cannot create BackPlotter with empty steps"@,
                BackPlotError::StepOutOfRange { step, max } => "Step "@ + decimal(step as nat)
                    + " out of range (max "@ + decimal(max as nat) + ")"@,
            },
    {
        match self {
            BackPlotError::EmptySteps => "Cannot create BackPlotter with empty steps".to_owned(),
            BackPlotError::StepOutOfRange { step, max } => {
                let mut v = chars_of("Step ");
                let s = decimal_of(*step as u128);
                extend(&mut v, &s);
                extend_str(&mut v, " out of range (max ");
                let m = decimal_of(*max as u128);
                extend(&mut v, &m);
                extend_str(&mut v, ")");
                string_of(&v)
            },
        }
    }
}

/// Greatest number of steps kept in the history.
pub const MAX_HISTORY: usize = 1000;

/// Everything a back plot holds.
pub ghost struct PlotModel {
    pub steps: Seq<BackPlotStep>,
    /// The number of steps taken.
    pub current_step: usize,
    pub state: BackPlotState,
    /// The steps taken forward, oldest first.
    pub history: Seq<usize>,
    pub position: Position,
}

/// What always holds of a back plot: it has steps, no more of them are
/// taken than there are, and its history is within its bound.
pub open spec fn plot_wf(m: PlotModel) -> bool {
    &&& m.steps.len() > 0
    &&& m.current_step <= m.steps.len()
    &&& m.history.len() <= MAX_HISTORY
}

/// The history after one more step; a history that grows beyond its bound
/// drops its oldest entry.
pub open spec fn remembered(history: Seq<usize>, step: usize) -> Seq<usize> {
    if history.len() + 1 > MAX_HISTORY {
        history.push(step).subrange(1, history.len() as int + 1)
    } else {
        history.push(step)
    }
}

/// The back plot at its start.
pub open spec fn at_start(m: PlotModel) -> PlotModel {
    PlotModel {
        current_step: 0,
        position: m.steps[0].start_pos,
        state: BackPlotState::Idle,
        history: Seq::empty(),
        ..m
    }
}

/// The back plot after a step forward: at the end of the steps it is
/// completed and nothing else changes; else the tool stands at the end of
/// the step taken.
pub open spec fn after_forward(m: PlotModel) -> PlotModel {
    if m.current_step >= m.steps.len() {
        PlotModel { state: BackPlotState::Completed, ..m }
    } else {
        PlotModel {
            position: m.steps[m.current_step as int].end_pos,
            history: remembered(m.history, m.current_step),
            current_step: (m.current_step + 1) as usize,
            state: if m.current_step + 1 >= m.steps.len() {
                BackPlotState::Completed
            } else {
                BackPlotState::Running
            },
            ..m
        }
    }
}

/// The back plot after a step backward: at the start it is idle and nothing
/// else changes; else the tool stands at the start of the step taken back.
pub open spec fn after_backward(m: PlotModel) -> PlotModel {
    if m.current_step == 0 {
        PlotModel { state: BackPlotState::Idle, ..m }
    } else {
        PlotModel {
            current_step: (m.current_step - 1) as usize,
            position: m.steps[m.current_step - 1].start_pos,
            ..m
        }
    }
}

/// The back plot after a jump to a step: the tool stands where the step
/// before it ended, and at the start of the first step.
pub open spec fn after_jump(m: PlotModel, step: usize) -> PlotModel {
    PlotModel {
        current_step: step,
        position: if step == 0 {
            m.steps[0].start_pos
        } else {
            m.steps[step - 1].end_pos
        },
        state: BackPlotState::Running,
        ..m
    }
}

/// Steps through a program.
#[derive(Debug)]
pub struct BackPlotter {
    steps: Vec<BackPlotStep>,
    current_step: usize,
    state: BackPlotState,
    history: VecDeque<usize>,
    current_pos: Position,
}

impl View for BackPlotter {
    type V = PlotModel;

    closed spec fn view(&self) -> PlotModel {
        PlotModel {
            steps: self.steps@,
            current_step: self.current_step,
            state: self.state,
            history: self.history@,
            position: self.current_pos,
        }
    }
}

impl BackPlotter {
    /// A back plot of the given steps, at its start. Without steps there is
    /// no back plot.
    pub fn new(steps: Vec<BackPlotStep>) -> (r: Result<BackPlotter, BackPlotError>)
        ensures
            steps@.len() == 0 ==> r == Err::<BackPlotter, BackPlotError>(BackPlotError::EmptySteps),
            steps@.len() > 0 ==> r is Ok && r->Ok_0@ == (PlotModel {
                steps: steps@,
                current_step: 0,
                state: BackPlotState::Idle,
                history: Seq::empty(),
                position: steps@[0].start_pos,
            }) && plot_wf(r->Ok_0@),
    {
        if steps.len() == 0 {
            return Err(BackPlotError::EmptySteps);
        }
        let initial_pos = steps[0].start_pos;
        Ok(
            BackPlotter {
                steps,
                current_step: 0,
                state: BackPlotState::Idle,
                history: VecDeque::new(),
                current_pos: initial_pos,
            },
        )
    }

    /// Whether the back plot is as it always is: it has steps, no more of
    /// them are taken than there are, and its history is within its bound.
    pub fn is_well_formed(&self) -> (r: bool)
        ensures
            r == plot_wf(self@),
    {
        self.steps.len() > 0 && self.current_step <= self.steps.len() && self.history.len()
            <= MAX_HISTORY
    }

    /// Takes the next step, if there is one, and hands it back.
    pub fn step_forward(&mut self) -> (r: Option<&BackPlotStep>)
        requires
            plot_wf(old(self)@),
        ensures
            final(self)@ == after_forward(old(self)@),
            plot_wf(final(self)@),
            match r {
                Some(s) => old(self)@.current_step < old(self)@.steps.len() && *s
                    == old(self)@.steps[old(self)@.current_step as int],
                None => old(self)@.current_step >= old(self)@.steps.len(),
            },
    {
        if self.current_step >= self.steps.len() {
            self.state = BackPlotState::Completed;
            return None;
        }
        self.current_pos = self.steps[self.current_step].end_pos;
        self.history.push_back(self.current_step);
        if self.history.len() > MAX_HISTORY {
            self.history.pop_front();
            assert(self.history@ =~= remembered(old(self)@.history, old(self)@.current_step));
        }
        self.current_step = self.current_step + 1;
        if self.current_step >= self.steps.len() {
            self.state = BackPlotState::Completed;
        } else {
            self.state = BackPlotState::Running;
        }
        Some(&self.steps[self.current_step - 1])
    }

    /// Takes the last step back, if one was taken, and hands it back.
    pub fn step_backward(&mut self) -> (r: Option<&BackPlotStep>)
        requires
            plot_wf(old(self)@),
        ensures
            final(self)@ == after_backward(old(self)@),
            plot_wf(final(self)@),
            match r {
                Some(s) => old(self)@.current_step > 0 && *s == old(self)@.steps[old(self)@.current_step - 1],
                None => old(self)@.current_step == 0,
            },
    {
        if self.current_step == 0 {
            self.state = BackPlotState::Idle;
            return None;
        }
        self.current_step = self.current_step - 1;
        self.current_pos = self.steps[self.current_step].start_pos;
        Some(&self.steps[self.current_step])
    }

    /// Jumps to the step of the given number, counted from 0, and hands it
    /// back. A number beyond the last step is refused and changes nothing.
    pub fn jump_to_step(&mut self, step_number: usize) -> (r: Result<&BackPlotStep, BackPlotError>)
        requires
            plot_wf(old(self)@),
        ensures
            plot_wf(final(self)@),
            step_number >= old(self)@.steps.len() ==> r == Err::<&BackPlotStep, BackPlotError>(
                BackPlotError::StepOutOfRange {
                    step: step_number,
                    max: (old(self)@.steps.len() - 1) as usize,
                },
            ) && final(self)@ == old(self)@,
            step_number < old(self)@.steps.len() ==> r is Ok && *r->Ok_0 == old(self)@.steps[step_number as int] && final(self)@ == after_jump(old(self)@, step_number),
    {
        if step_number >= self.steps.len() {
            return Err(
                BackPlotError::StepOutOfRange { step: step_number, max: self.steps.len() - 1 },
            );
        }
        self.current_pos = if step_number == 0 {
            self.steps[0].start_pos
        } else {
            self.steps[step_number - 1].end_pos
        };
        self.current_step = step_number;
        self.state = BackPlotState::Running;
        Ok(&self.steps[step_number])
    }

    /// Pauses a running back plot; any other stays as it is.
    pub fn pause(&mut self)
        ensures
            final(self)@ == (PlotModel {
                state: if old(self)@.state == BackPlotState::Running {
                    BackPlotState::Paused
                } else {
                    old(self)@.state
                },
                ..old(self)@
            }),
    {
        if self.state == BackPlotState::Running {
            self.state = BackPlotState::Paused;
        }
    }

    /// Resumes a paused back plot; any other stays as it is.
    pub fn resume(&mut self)
        ensures
            final(self)@ == (PlotModel {
                state: if old(self)@.state == BackPlotState::Paused {
                    BackPlotState::Running
                } else {
                    old(self)@.state
                },
                ..old(self)@
            }),
    {
        if self.state == BackPlotState::Paused {
            self.state = BackPlotState::Running;
        }
    }

    /// Stops the back plot and puts it back at its start.
    pub fn stop(&mut self)
        requires
            plot_wf(old(self)@),
        ensures
            final(self)@ == at_start(old(self)@),
            plot_wf(final(self)@),
    {
        self.current_step = 0;
        self.current_pos = self.steps[0].start_pos;
        self.state = BackPlotState::Idle;
        self.history.clear();
    }

    /// The state of the back plot.
    pub fn get_state(&self) -> (r: BackPlotState)
        ensures
            r == self@.state,
    {
        self.state
    }

    /// The position that the tool has reached.
    pub fn get_position(&self) -> (r: Position)
        ensures
            r == self@.position,
    {
        self.current_pos
    }

    /// The number of steps taken.
    pub fn get_current_step(&self) -> (r: usize)
        ensures
            r == self@.current_step,
    {
        self.current_step
    }

    /// The number of steps.
    pub fn get_total_steps(&self) -> (r: usize)
        ensures
            r == self@.steps.len(),
    {
        self.steps.len()
    }

    /// The progress: the steps taken of all steps, and the whole for a plot
    /// without steps.
    pub fn get_progress(&self) -> (r: Progress)
        ensures
            r == if self@.steps.len() == 0 {
                Progress { completed: 1, total: 1 }
            } else {
                Progress { completed: self@.current_step, total: self@.steps.len() as usize }
            },
    {
        if self.steps.len() == 0 {
            Progress { completed: 1, total: 1 }
        } else {
            Progress { completed: self.current_step, total: self.steps.len() }
        }
    }

    /// The step taken last, if one was taken.
    pub fn get_current_step_ref(&self) -> (r: Option<&BackPlotStep>)
        ensures
            match r {
                Some(s) => 0 < self@.current_step <= self@.steps.len() && *s
                    == self@.steps[self@.current_step - 1],
                None => self@.current_step == 0 || self@.current_step > self@.steps.len(),
            },
    {
        if self.current_step == 0 || self.current_step > self.steps.len() {
            return None;
        }
        Some(&self.steps[self.current_step - 1])
    }

    /// All steps.
    pub fn get_steps(&self) -> (r: &[BackPlotStep])
        ensures
            r@ == self@.steps,
    {
        self.steps.as_slice()
    }

    /// The step of the given number, counted from 0.
    pub fn get_step(&self, index: usize) -> (r: Option<&BackPlotStep>)
        ensures
            match r {
                Some(s) => index < self@.steps.len() && *s == self@.steps[index as int],
                None => index >= self@.steps.len(),
            },
    {
        if index < self.steps.len() {
            Some(&self.steps[index])
        } else {
            None
        }
    }

    /// Puts the back plot back at its start.
    pub fn reset(&mut self)
        requires
            plot_wf(old(self)@),
        ensures
            final(self)@ == at_start(old(self)@),
            plot_wf(final(self)@),
    {
        self.stop();
    }
}

} // verus!
