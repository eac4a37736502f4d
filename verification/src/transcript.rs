//! Whole runs of the pipeline.
//!
//! The pipeline machine answers one event at a time. This module describes
//! what comes of it over time: the answers to an arbitrary sequence of events,
//! and the transcript of a pipeline that is driven over a stream in the
//! intended way. The laws proved here say what is typed, with which pauses,
//! and when the end of the task is reported.

use crate::keystroke::{
    char_strokes, lemma_text_strokes_concat, lemma_text_strokes_single, text_strokes, Keystroke,
};
use crate::pipeline::{ActionModel, EventModel, PipelineModel};
use crate::supervisor::TaskId;
use vstd::prelude::*;

verus! {

/// What a pull on the completion stream yields.
pub enum StreamItem {
    /// A chunk of text.
    Chunk(Seq<char>),
    /// The stream failed.
    Failed,
    /// The stream is exhausted.
    Ended,
}

impl StreamItem {
    /// The event by which the item is handed to the pipeline.
    pub open spec fn event(self) -> EventModel {
        match self {
            StreamItem::Chunk(text) => EventModel::Chunk(text),
            StreamItem::Failed => EventModel::StreamFailed,
            StreamItem::Ended => EventModel::StreamEnded,
        }
    }
}

/// The text that `stream` delivers: its chunks, joined in order, up to the
/// first item that is not a chunk.
pub open spec fn stream_text(stream: Seq<StreamItem>) -> Seq<char>
    decreases stream.len(),
{
    if stream.len() == 0 {
        Seq::empty()
    } else {
        match stream[0] {
            StreamItem::Chunk(text) => text + stream_text(stream.drop_first()),
            _ => Seq::empty(),
        }
    }
}

/// Whether `stream` holds an item that fails or ends it.
pub open spec fn stream_terminates(stream: Seq<StreamItem>) -> bool {
    exists|i: int| 0 <= i < stream.len() && !((#[trigger] stream[i]) is Chunk)
}

/// The keystrokes that `action` asks for.
pub open spec fn strokes_of(action: ActionModel) -> Seq<Keystroke> {
    match action {
        ActionModel::Type { strokes, .. } => strokes,
        _ => Seq::empty(),
    }
}

/// All keystrokes that `actions` ask for, in order.
pub open spec fn typed(actions: Seq<ActionModel>) -> Seq<Keystroke>
    decreases actions.len(),
{
    if actions.len() == 0 {
        Seq::empty()
    } else {
        strokes_of(actions[0]) + typed(actions.drop_first())
    }
}

/// Whether every pause that `actions` ask for lasts `delay_ms` milliseconds.
pub open spec fn paced(actions: Seq<ActionModel>, delay_ms: u64) -> bool {
    forall|i: int|
        0 <= i < actions.len() ==> ((#[trigger] actions[i]) matches ActionModel::Type {
            pause_ms,
            ..
        } ==> pause_ms == delay_ms)
}

impl PipelineModel {
    /// The state after all of `events`, in order.
    pub open spec fn after(self, events: Seq<EventModel>) -> PipelineModel
        decreases events.len(),
    {
        if events.len() == 0 {
            self
        } else {
            self.after(events.drop_last()).step(events.last()).0
        }
    }

    /// The action that answers `events[i]`, when `events` are handed in in
    /// order.
    pub open spec fn answer(self, events: Seq<EventModel>, i: int) -> ActionModel {
        self.after(events.take(i)).step(events[i]).1
    }

    /// The actions of a pipeline that is driven over `stream` and never
    /// cancelled, from the moment at which it is in state `self` and has just
    /// asked for `action`.
    ///
    /// The driver answers `Pull` with the next item of the stream and `Type`
    /// with `Resume`. The run ends when the pipeline reports the end of the
    /// task, or when it pulls and the stream has nothing more to give.
    pub open spec fn run(self, action: ActionModel, stream: Seq<StreamItem>) -> Seq<ActionModel>
        decreases stream.len(), self.pending.len(), (if action is Type { 1nat } else { 0nat }),
    {
        match action {
            ActionModel::Pull => {
                if stream.len() == 0 {
                    seq![action]
                } else {
                    let (next, answer) = self.step(stream[0].event());
                    seq![action] + next.run(answer, stream.drop_first())
                }
            },
            ActionModel::Type { .. } => {
                let (next, answer) = self.step(EventModel::Resume);
                seq![action] + next.run(answer, stream)
            },
            ActionModel::Finish(_) => seq![action],
            ActionModel::Halt => Seq::empty(),
        }
    }
}

/// The actions of a new pipeline for `task` that is driven over `stream` and
/// never cancelled.
pub open spec fn transcript(task: TaskId, delay_ms: u64, stream: Seq<StreamItem>) -> Seq<
    ActionModel,
> {
    let (first, action) = PipelineModel::start(task, delay_ms).step(EventModel::Resume);
    first.run(action, stream)
}

/// Whether a run can be at the point where the pipeline is in state `s` and
/// has just asked for `action`: the pipeline has not ended, it asks to pull
/// only when nothing is pending, and it pauses for its own delay.
pub open spec fn in_step(s: PipelineModel, action: ActionModel) -> bool {
    &&& !s.finished
    &&& action is Pull || action is Type
    &&& action is Pull ==> s.pending.len() == 0
    &&& action matches ActionModel::Type { pause_ms, .. } ==> pause_ms == s.delay_ms
}

proof fn lemma_typed_cons(action: ActionModel, rest: Seq<ActionModel>)
    ensures
        typed(seq![action] + rest) == strokes_of(action) + typed(rest),
{
    let all = seq![action] + rest;
    assert(all.drop_first() =~= rest);
    assert(all[0] == action);
}

proof fn lemma_typed_single(action: ActionModel)
    ensures
        typed(seq![action]) == strokes_of(action),
{
    lemma_typed_cons(action, Seq::empty());
    assert(seq![action] + Seq::<ActionModel>::empty() =~= seq![action]);
    assert(strokes_of(action) + typed(Seq::<ActionModel>::empty()) =~= strokes_of(action));
}

proof fn lemma_text_strokes_cons(c: char, rest: Seq<char>)
    ensures
        text_strokes(seq![c] + rest) == char_strokes(c) + text_strokes(rest),
{
    lemma_text_strokes_concat(seq![c], rest);
    lemma_text_strokes_single(c);
}

proof fn lemma_paced_cons(action: ActionModel, rest: Seq<ActionModel>, delay_ms: u64)
    requires
        action matches ActionModel::Type { pause_ms, .. } ==> pause_ms == delay_ms,
        paced(rest, delay_ms),
    ensures
        paced(seq![action] + rest, delay_ms),
{
    let all = seq![action] + rest;
    assert forall|i: int| 0 <= i < all.len() implies ((#[trigger] all[i]) matches ActionModel::Type {
        pause_ms,
        ..
    } ==> pause_ms == delay_ms) by {
        if i > 0 {
            assert(all[i] == rest[i - 1]);
        }
    }
}

proof fn lemma_terminates_unfold(stream: Seq<StreamItem>)
    requires
        stream.len() > 0,
    ensures
        stream_terminates(stream) <==> !(stream[0] is Chunk) || stream_terminates(
            stream.drop_first(),
        ),
{
    let rest = stream.drop_first();
    if stream_terminates(stream) {
        let i = choose|i: int| 0 <= i < stream.len() && !((#[trigger] stream[i]) is Chunk);
        if i > 0 {
            assert(rest[i - 1] == stream[i]);
        }
    }
    if stream_terminates(rest) {
        let i = choose|i: int| 0 <= i < rest.len() && !((#[trigger] rest[i]) is Chunk);
        assert(stream[i + 1] == rest[i]);
    }
}

/// A run types what is pending and then the text of the stream, and nothing
/// else, with the pipeline's own delay after each character.
///
/// The keystrokes of the run are those of the action it begins with, followed
/// by the keystrokes of every pending character and of every character that
/// the stream delivers before it fails or ends.
pub proof fn lemma_run_types_the_text(s: PipelineModel, action: ActionModel, stream: Seq<StreamItem>)
    requires
        in_step(s, action),
    ensures
        typed(s.run(action, stream)) == strokes_of(action) + text_strokes(
            s.pending + stream_text(stream),
        ),
        paced(s.run(action, stream), s.delay_ms),
    decreases stream.len(), s.pending.len(), (if action is Type { 1nat } else { 0nat }),
{
    let text = s.pending + stream_text(stream);
    match action {
        ActionModel::Pull => {
            assert(s.pending =~= Seq::<char>::empty());
            if stream.len() == 0 {
                lemma_typed_single(action);
                assert(text =~= Seq::<char>::empty());
                assert(strokes_of(action) + text_strokes(text) =~= Seq::<Keystroke>::empty());
            } else {
                let rest = stream.drop_first();
                let (next, answer) = s.step(stream[0].event());
                lemma_typed_cons(action, next.run(answer, rest));
                match stream[0] {
                    StreamItem::Chunk(chunk) => {
                        assert(s.pending + chunk =~= chunk);
                        assert(text =~= chunk + stream_text(rest));
                        if chunk.len() == 0 {
                            assert(text =~= next.pending + stream_text(rest));
                        } else {
                            assert(text =~= seq![chunk[0]] + (next.pending + stream_text(rest)));
                            lemma_text_strokes_cons(chunk[0], next.pending + stream_text(rest));
                        }
                        lemma_run_types_the_text(next, answer, rest);
                        lemma_paced_cons(action, next.run(answer, rest), s.delay_ms);
                        assert(typed(s.run(action, stream)) =~= strokes_of(action) + text_strokes(
                            text,
                        ));
                    },
                    _ => {
                        lemma_typed_single(answer);
                        assert(text =~= Seq::<char>::empty());
                        assert(paced(seq![answer], s.delay_ms));
                        lemma_paced_cons(action, seq![answer], s.delay_ms);
                        assert(typed(s.run(action, stream)) =~= strokes_of(action) + text_strokes(
                            text,
                        ));
                    },
                }
            }
        },
        ActionModel::Type { .. } => {
            let (next, answer) = s.step(EventModel::Resume);
            lemma_typed_cons(action, next.run(answer, stream));
            if s.pending.len() > 0 {
                assert(text =~= seq![s.pending[0]] + (next.pending + stream_text(stream)));
                lemma_text_strokes_cons(s.pending[0], next.pending + stream_text(stream));
            }
            lemma_run_types_the_text(next, answer, stream);
            lemma_paced_cons(action, next.run(answer, stream), s.delay_ms);
            assert(typed(s.run(action, stream)) =~= strokes_of(action) + text_strokes(text));
        },
        _ => {},
    }
}

/// A run reports the end of the task once, as its last action, if the stream
/// fails or ends; it reports nothing if the stream does neither.
///
/// Every action before the last is a pull or a character to type. The last
/// action reports the end of the pipeline's own task if the stream holds an
/// item that fails or ends it. Otherwise the run ends on a pull that the
/// stream does not answer.
pub proof fn lemma_run_reports_end_once(
    s: PipelineModel,
    action: ActionModel,
    stream: Seq<StreamItem>,
)
    requires
        in_step(s, action),
    ensures
        s.run(action, stream).len() > 0,
        forall|i: int|
            0 <= i < s.run(action, stream).len() - 1 ==> (#[trigger] s.run(action, stream)[i])
                is Pull || s.run(action, stream)[i] is Type,
        stream_terminates(stream) ==> s.run(action, stream).last() == ActionModel::Finish(s.task),
        !stream_terminates(stream) ==> s.run(action, stream).last() is Pull,
    decreases stream.len(), s.pending.len(), (if action is Type { 1nat } else { 0nat }),
{
    let run = s.run(action, stream);
    match action {
        ActionModel::Pull => {
            if stream.len() > 0 {
                let rest = stream.drop_first();
                let (next, answer) = s.step(stream[0].event());
                let tail = next.run(answer, rest);
                lemma_terminates_unfold(stream);
                if stream[0] is Chunk {
                    lemma_run_reports_end_once(next, answer, rest);
                }
                assert(run =~= seq![action] + tail);
                assert(run.last() == tail.last());
                assert forall|i: int| 0 <= i < run.len() - 1 implies (#[trigger] run[i]) is Pull
                    || run[i] is Type by {
                    if i > 0 {
                        assert(run[i] == tail[i - 1]);
                    }
                }
            }
        },
        ActionModel::Type { .. } => {
            let (next, answer) = s.step(EventModel::Resume);
            let tail = next.run(answer, stream);
            lemma_run_reports_end_once(next, answer, stream);
            assert(run =~= seq![action] + tail);
            assert(run.last() == tail.last());
            assert forall|i: int| 0 <= i < run.len() - 1 implies (#[trigger] run[i]) is Pull
                || run[i] is Type by {
                if i > 0 {
                    assert(run[i] == tail[i - 1]);
                }
            }
        },
        _ => {},
    }
}

/// What a new pipeline does with a stream.
///
/// Driven over `stream` and never cancelled, a new pipeline types exactly the
/// text that the stream delivers before it fails or ends, in order, pausing
/// for its delay after each character. If the stream fails or ends, the last
/// action of the pipeline reports the end of its task, and no other action
/// does.
pub proof fn lemma_transcript(task: TaskId, delay_ms: u64, stream: Seq<StreamItem>)
    ensures
        typed(transcript(task, delay_ms, stream)) == text_strokes(stream_text(stream)),
        paced(transcript(task, delay_ms, stream), delay_ms),
        transcript(task, delay_ms, stream).len() > 0,
        forall|i: int|
            0 <= i < transcript(task, delay_ms, stream).len() - 1 ==> !((#[trigger] transcript(
                task,
                delay_ms,
                stream,
            )[i]) is Finish),
        stream_terminates(stream) ==> transcript(task, delay_ms, stream).last()
            == ActionModel::Finish(task),
{
    let start = PipelineModel::start(task, delay_ms);
    let (first, action) = start.step(EventModel::Resume);
    lemma_run_types_the_text(first, action, stream);
    lemma_run_reports_end_once(first, action, stream);
    assert(first.pending + stream_text(stream) =~= stream_text(stream));
    assert(strokes_of(action) + text_strokes(stream_text(stream)) =~= text_strokes(
        stream_text(stream),
    ));
}

/// The state after the first `k + 1` events is the state after the first `k`,
/// with event `k` handed in.
pub proof fn lemma_after_step(s: PipelineModel, events: Seq<EventModel>, k: int)
    requires
        0 <= k < events.len(),
    ensures
        s.after(events.take(k + 1)) == s.after(events.take(k)).step(events[k]).0,
{
    assert(events.take(k + 1).drop_last() =~= events.take(k));
    assert(events.take(k + 1).last() == events[k]);
}

/// A pipeline that has ended stays as it is.
pub proof fn lemma_finished_is_final(s: PipelineModel, events: Seq<EventModel>, i: int, j: int)
    requires
        0 <= i <= j <= events.len(),
        s.after(events.take(i)).finished,
    ensures
        s.after(events.take(j)) == s.after(events.take(i)),
    decreases j - i,
{
    if i < j {
        lemma_finished_is_final(s, events, i, j - 1);
        lemma_after_step(s, events, j - 1);
    }
}

/// After a cancellation, or after the stream has failed or ended, the
/// pipeline never types again.
///
/// Whatever events follow, each is answered with `Halt`: no keystroke, no
/// pull, no second report.
pub proof fn lemma_silent_after_terminal_event(
    s: PipelineModel,
    events: Seq<EventModel>,
    k: int,
    j: int,
)
    requires
        0 <= k < j < events.len(),
        events[k].is_terminal(),
    ensures
        s.answer(events, j) is Halt,
{
    lemma_after_step(s, events, k);
    lemma_finished_is_final(s, events, k + 1, j);
}

/// A pipeline runs, under its own task and delay, until the first event that
/// ends it.
pub proof fn lemma_running_until_terminal_event(s: PipelineModel, events: Seq<EventModel>, k: int)
    requires
        !s.finished,
        0 <= k <= events.len(),
        forall|i: int| 0 <= i < k ==> !(#[trigger] events[i]).is_terminal(),
    ensures
        !s.after(events.take(k)).finished,
        s.after(events.take(k)).task == s.task,
        s.after(events.take(k)).delay_ms == s.delay_ms,
    decreases k,
{
    if k > 0 {
        lemma_running_until_terminal_event(s, events, k - 1);
        lemma_after_step(s, events, k - 1);
        assert(!events[k - 1].is_terminal());
    } else {
        assert(events.take(0) =~= Seq::<EventModel>::empty());
    }
}

/// The end of the task is reported exactly once.
///
/// The first event that ends a running pipeline (a cancellation, a failed or
/// an ended stream) is answered with the report for the pipeline's own task.
/// No other event, before or after, is answered with a report.
pub proof fn lemma_end_reported_exactly_once(s: PipelineModel, events: Seq<EventModel>, k: int)
    requires
        !s.finished,
        0 <= k < events.len(),
        events[k].is_terminal(),
        forall|i: int| 0 <= i < k ==> !(#[trigger] events[i]).is_terminal(),
    ensures
        s.answer(events, k) == ActionModel::Finish(s.task),
        forall|j: int| 0 <= j < events.len() && j != k ==> !(#[trigger] s.answer(events, j) is Finish),
{
    lemma_running_until_terminal_event(s, events, k);
    assert forall|j: int| 0 <= j < events.len() && j != k implies !(#[trigger] s.answer(events, j)
        is Finish) by {
        if j < k {
            lemma_running_until_terminal_event(s, events, j);
            assert(!events[j].is_terminal());
        } else {
            lemma_silent_after_terminal_event(s, events, k, j);
        }
    }
}

} // verus!
