//! The stream-to-keystroke pipeline.
//!
//! One pipeline serves one triggered task. It is a state machine: the caller
//! tells it what happened (a chunk arrived, the stream failed or ended,
//! cancellation was requested, or simply that the last action is done) and it
//! answers with the next thing to do: pull the next chunk, type one character
//! and pause, or report the end of the task to the supervisor. It types one
//! character per step, so a cancellation is honoured before the next
//! character. It reports the end of the task once and is silent after that.

use crate::keystroke::{char_keystrokes, char_strokes, Keystroke};
use crate::supervisor::TaskId;
use std::collections::VecDeque;
use vstd::prelude::*;

verus! {

/// What the caller tells the pipeline.
#[derive(Clone, Debug, PartialEq, Eq)]
pub enum PipelineEvent {
    /// The last action has been carried out. Also the first event of a run.
    Resume,
    /// The stream delivered a chunk of text.
    Chunk(String),
    /// The stream failed.
    StreamFailed,
    /// The stream is exhausted.
    StreamEnded,
    /// Cancellation of the task was requested.
    Cancelled,
}

/// What the pipeline asks of the caller.
#[derive(Clone, Debug, PartialEq, Eq)]
pub enum PipelineAction {
    /// Wait for the next item of the stream and hand it in.
    Pull,
    /// Emit the keystrokes of one character, then pause.
    Type {
        /// The keystrokes to emit, in order.
        strokes: Vec<Keystroke>,
        /// The pause after them, in milliseconds.
        pause_ms: u64,
    },
    /// Tell the supervisor that the task has ended. Asked once per pipeline.
    Finish(TaskId),
    /// Nothing: the pipeline has ended.
    Halt,
}

/// An event as a mathematical value.
pub enum EventModel {
    /// See [`PipelineEvent::Resume`].
    Resume,
    /// See [`PipelineEvent::Chunk`].
    Chunk(Seq<char>),
    /// See [`PipelineEvent::StreamFailed`].
    StreamFailed,
    /// See [`PipelineEvent::StreamEnded`].
    StreamEnded,
    /// See [`PipelineEvent::Cancelled`].
    Cancelled,
}

/// An action as a mathematical value.
pub enum ActionModel {
    /// See [`PipelineAction::Pull`].
    Pull,
    /// See [`PipelineAction::Type`].
    Type { strokes: Seq<Keystroke>, pause_ms: u64 },
    /// See [`PipelineAction::Finish`].
    Finish(TaskId),
    /// See [`PipelineAction::Halt`].
    Halt,
}

impl View for PipelineEvent {
    type V = EventModel;

    open spec fn view(&self) -> EventModel {
        match self {
            PipelineEvent::Resume => EventModel::Resume,
            PipelineEvent::Chunk(text) => EventModel::Chunk(text@),
            PipelineEvent::StreamFailed => EventModel::StreamFailed,
            PipelineEvent::StreamEnded => EventModel::StreamEnded,
            PipelineEvent::Cancelled => EventModel::Cancelled,
        }
    }
}

impl View for PipelineAction {
    type V = ActionModel;

    open spec fn view(&self) -> ActionModel {
        match self {
            PipelineAction::Pull => ActionModel::Pull,
            PipelineAction::Type { strokes, pause_ms } => ActionModel::Type {
                strokes: strokes@,
                pause_ms: *pause_ms,
            },
            PipelineAction::Finish(task) => ActionModel::Finish(*task),
            PipelineAction::Halt => ActionModel::Halt,
        }
    }
}

impl EventModel {
    /// Whether the event ends the pipeline: the stream failed or ended, or
    /// cancellation was requested.
    pub open spec fn is_terminal(self) -> bool {
        self is StreamFailed || self is StreamEnded || self is Cancelled
    }
}

/// The pipeline as a mathematical value.
pub struct PipelineModel {
    /// The task that the pipeline serves.
    pub task: TaskId,
    /// The pause after each character, in milliseconds.
    pub delay_ms: u64,
    /// The characters received and not yet typed, in order.
    pub pending: Seq<char>,
    /// Whether the pipeline has ended.
    pub finished: bool,
}

impl PipelineModel {
    /// A pipeline that has received nothing yet.
    pub open spec fn start(task: TaskId, delay_ms: u64) -> PipelineModel {
        PipelineModel { task, delay_ms, pending: Seq::empty(), finished: false }
    }

    /// Ends the pipeline: what is pending is dropped, and the end of the task
    /// is to be reported.
    pub open spec fn finish(self) -> (PipelineModel, ActionModel) {
        (
            PipelineModel { pending: Seq::empty(), finished: true, ..self },
            ActionModel::Finish(self.task),
        )
    }

    /// Types the next pending character, or asks for more if none is pending.
    pub open spec fn advance(self) -> (PipelineModel, ActionModel) {
        if self.pending.len() == 0 {
            (self, ActionModel::Pull)
        } else {
            (
                PipelineModel { pending: self.pending.drop_first(), ..self },
                ActionModel::Type {
                    strokes: char_strokes(self.pending[0]),
                    pause_ms: self.delay_ms,
                },
            )
        }
    }

    /// The state after `event`, and the action that answers it.
    pub open spec fn step(self, event: EventModel) -> (PipelineModel, ActionModel) {
        if self.finished {
            (self, ActionModel::Halt)
        } else {
            match event {
                EventModel::Resume => self.advance(),
                EventModel::Chunk(text) => PipelineModel {
                    pending: self.pending + text,
                    ..self
                }.advance(),
                EventModel::StreamFailed | EventModel::StreamEnded | EventModel::Cancelled => {
                    self.finish()
                },
            }
        }
    }
}

/// The pipeline of one task.
#[derive(Debug)]
pub struct Pipeline {
    task: TaskId,
    delay_ms: u64,
    pending: VecDeque<char>,
    finished: bool,
}

impl View for Pipeline {
    type V = PipelineModel;

    closed spec fn view(&self) -> PipelineModel {
        PipelineModel {
            task: self.task,
            delay_ms: self.delay_ms,
            pending: self.pending@,
            finished: self.finished,
        }
    }
}

impl Pipeline {
    /// A pipeline for `task` that pauses `delay_ms` milliseconds after each
    /// character.
    pub fn new(task: TaskId, delay_ms: u64) -> (pipeline: Self)
        ensures
            pipeline@ == PipelineModel::start(task, delay_ms),
    {
        Pipeline { task, delay_ms, pending: VecDeque::new(), finished: false }
    }

    /// The task that the pipeline serves.
    pub fn task(&self) -> (task: TaskId)
        ensures
            task == self@.task,
    {
        self.task
    }

    /// Whether the pipeline has ended.
    pub fn is_finished(&self) -> (finished: bool)
        ensures
            finished == self@.finished,
    {
        self.finished
    }

    /// Takes one event and answers with the next action.
    ///
    /// While the pipeline runs, a chunk is queued behind what is pending, and
    /// the answer to a chunk or to `Resume` is to type the first pending
    /// character or, if none is pending, to pull. A failed or ended stream or
    /// a cancellation ends the pipeline at once: what is still pending is
    /// dropped and the answer is to report the end of the task. The pipeline
    /// pulls only when nothing is pending, so a caller that hands in an item
    /// of the stream only in answer to a pull loses no text. Once it has
    /// ended, the pipeline answers every event with `Halt` and never types
    /// again.
    pub fn step(&mut self, event: PipelineEvent) -> (action: PipelineAction)
        ensures
            (final(self)@, action@) == old(self)@.step(event@),
            old(self)@.finished ==> action@ is Halt && final(self)@ == old(self)@,
            action@ is Finish <==> !old(self)@.finished && event@.is_terminal(),
            action@ is Finish ==> action@ == ActionModel::Finish(old(self)@.task),
            action@ is Type ==> !old(self)@.finished && !event@.is_terminal(),
            final(self)@.finished <==> old(self)@.finished || event@.is_terminal(),
    {
        if self.finished {
            return PipelineAction::Halt;
        }
        match event {
            PipelineEvent::Resume => {},
            PipelineEvent::Chunk(text) => {
                self.enqueue(text.as_str());
            },
            _ => {
                self.pending.clear();
                self.finished = true;
                return PipelineAction::Finish(self.task);
            },
        }
        match self.pending.pop_front() {
            Some(c) => {
                let strokes = char_keystrokes(c);
                assert(self.pending@ =~= old(self)@.step(event@).0.pending);
                PipelineAction::Type { strokes, pause_ms: self.delay_ms }
            },
            None => {
                assert(self.pending@ =~= old(self)@.step(event@).0.pending);
                PipelineAction::Pull
            },
        }
    }

    /// Queues the characters of `text` behind what is pending.
    fn enqueue(&mut self, text: &str)
        ensures
            final(self)@ == (PipelineModel { pending: old(self)@.pending + text@, ..old(self)@ }),
    {
        for c in it: text.chars()
            invariant
                it.seq() == text@,
                self.task == old(self).task,
                self.delay_ms == old(self).delay_ms,
                self.finished == old(self).finished,
                self.pending@ == old(self).pending@ + text@.take(it.index()),
        {
            assert(text@.take(it.index() + 1) =~= text@.take(it.index()).push(c));
            self.pending.push_back(c);
        }
        assert(text@.take(text@.len() as int) =~= text@);
    }
}

} // verus!
