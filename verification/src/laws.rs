//! Laws of the library: what holds of every sequence of operations, stated
//! over the models that the contracts use and proved from them alone.

use crate::event::{blank_marker, CaptionModel};
use crate::gate::EngineKind;
use crate::pipeline::{
    RunModel, TranscriberModel, TranscriberWorkModel, TranslatorModel, TranslatorWorkModel,
};
use crate::ring::keep_recent;
use crate::speech::{
    batch_threshold, SpeechModel, CAPACITY, FLOOR_SAMPLES, LEAD_SAMPLES, READY_SAMPLES,
};
use crate::state::AppModel;
use vstd::prelude::*;

verus! {

/// The samples of a sequence of batches, in order of arrival.
pub open spec fn joined(batches: Seq<Seq<u32>>) -> Seq<u32>
    decreases batches.len(),
{
    if batches.len() == 0 {
        Seq::empty()
    } else {
        joined(batches.drop_last()) + batches.last()
    }
}

/// The buffer after a sequence of batches has been pushed, first to last.
pub open spec fn pushed_all(start: SpeechModel, batches: Seq<Seq<u32>>) -> SpeechModel
    decreases batches.len(),
{
    if batches.len() == 0 {
        start
    } else {
        pushed_all(start, batches.drop_last()).pushed(batches.last())
    }
}

/// Keeping the newest items commutes with appending: trimming before a
/// further append changes nothing of what is kept in the end.
pub proof fn lemma_keep_recent_append(held: Seq<u32>, batch: Seq<u32>, limit: nat)
    ensures
        keep_recent(keep_recent(held, limit) + batch, limit) == keep_recent(held + batch, limit),
        keep_recent(held, limit).len() <= limit,
{
    assert(keep_recent(keep_recent(held, limit) + batch, limit) =~= keep_recent(
        held + batch,
        limit,
    ));
}

/// The threshold is the least number of batches that together hold 0.6 s
/// of audio: the threshold's batches hold that much, and no smaller number
/// `n` of batches does.
pub proof fn lemma_threshold_is_least(batch_frames: nat, n: nat)
    requires
        batch_frames > 0,
    ensures
        batch_threshold(batch_frames) * batch_frames >= LEAD_SAMPLES,
        n * batch_frames >= LEAD_SAMPLES ==> n >= batch_threshold(batch_frames),
{
    let lead = LEAD_SAMPLES as int;
    let b = batch_frames as int;
    let q = lead / b;
    let r = lead % b;
    let t = batch_threshold(batch_frames) as int;
    assert(lead == q * b + r && 0 <= r < b) by (nonlinear_arith)
        requires
            q == lead / b,
            r == lead % b,
            b > 0,
    ;
    assert(t * b >= lead && (t - 1) * b < lead) by (nonlinear_arith)
        requires
            lead == q * b + r,
            0 <= r < b,
            t == if r == 0 {
                q
            } else {
                q + 1
            },
    ;
    if (n as int) < t {
        assert(n * b <= (t - 1) * b) by (nonlinear_arith)
            requires
                n <= t - 1,
                b > 0,
        ;
    }
}

/// Whatever batches are pushed, in whatever sizes, the buffer never holds
/// more than its capacity, and it holds exactly the newest samples of its
/// former content followed by all that was pushed: the oldest leave first.
pub proof fn lemma_buffer_is_fifo(start: SpeechModel, batches: Seq<Seq<u32>>)
    requires
        start.wf(),
    ensures
        pushed_all(start, batches).wf(),
        pushed_all(start, batches).samples.len() <= CAPACITY,
        pushed_all(start, batches).samples == keep_recent(
            start.samples + joined(batches),
            CAPACITY as nat,
        ),
        pushed_all(start, batches).batch_frames == start.batch_frames,
    decreases batches.len(),
{
    if batches.len() == 0 {
        assert(start.samples + joined(batches) =~= start.samples);
    } else {
        let before = batches.drop_last();
        lemma_buffer_is_fifo(start, before);
        lemma_keep_recent_append(
            start.samples + joined(before),
            batches.last(),
            CAPACITY as nat,
        );
        assert((start.samples + joined(before)) + batches.last() =~= start.samples + joined(
            batches,
        ));
    }
}

/// From a cleared counter, the counter equals the number of batches pushed
/// (as long as that number fits the counter).
pub proof fn lemma_counter_counts_batches(start: SpeechModel, batches: Seq<Seq<u32>>)
    requires
        start.counter == 0,
    ensures
        pushed_all(start, batches).counter <= batches.len(),
        batches.len() <= usize::MAX ==> pushed_all(start, batches).counter == batches.len(),
    decreases batches.len(),
{
    if batches.len() > 0 {
        lemma_counter_counts_batches(start, batches.drop_last());
    }
}

/// Readiness is off right after the counter was cleared, and comes back only
/// once more batches than the threshold have been pushed since.
pub proof fn lemma_ready_needs_batches(buffer: SpeechModel, batches: Seq<Seq<u32>>)
    requires
        buffer.wf(),
    ensures
        !buffer.rearmed().ready(),
        !SpeechModel::fresh(buffer.batch_frames).ready(),
        pushed_all(buffer.rearmed(), batches).ready() ==> batches.len() > batch_threshold(
            buffer.batch_frames,
        ),
        batches.len() <= usize::MAX ==> (pushed_all(buffer.rearmed(), batches).ready() <==> {
            &&& batches.len() > batch_threshold(buffer.batch_frames)
            &&& keep_recent(buffer.samples + joined(batches), CAPACITY as nat).len()
                > READY_SAMPLES
        }),
{
    lemma_counter_counts_batches(buffer.rearmed(), batches);
    lemma_buffer_is_fifo(buffer.rearmed(), batches);
}

/// The floor under an utterance does not look at the counter: with less
/// than a second of audio no utterance is handed out, however many batches
/// were counted, and with a second or more the whole content is.
pub proof fn lemma_floor_ignores_counter(buffer: SpeechModel, counter: nat)
    ensures
        (SpeechModel { counter, ..buffer }).utterance() == buffer.utterance(),
        buffer.samples.len() < FLOOR_SAMPLES ==> buffer.utterance() is None,
        buffer.samples.len() >= FLOOR_SAMPLES ==> buffer.utterance() == Some(buffer.samples),
        buffer.ready() ==> buffer.utterance() == Some(buffer.samples),
{
}

/// Everything that can happen to the application: the commands of the host,
/// the signals of the capture source, the steps of the stages, and the
/// results of the engine calls.
pub enum Op {
    SetModel(EngineKind),
    Start,
    Stop,
    Audio(Seq<u32>),
    CaptureEnded,
    TranscriberStep,
    Recognized(Option<Seq<char>>),
    TranslatorStep,
    Translated(Option<Seq<char>>),
}

/// What an operation asks of the world outside: an engine call, a caption
/// to show, or nothing.
pub enum Effect {
    Quiet,
    Recognize(Seq<u32>),
    Translate(Seq<char>),
    Emit(CaptionModel),
}

/// The state after one operation, and what the operation asks for.
pub open spec fn step(app: AppModel, op: Op) -> (AppModel, Effect) {
    match op {
        Op::SetModel(kind) => (app.set_model(kind), Effect::Quiet),
        Op::Start => (
            app.start_recording(),
            if app.start_outcome().accepted() {
                Effect::Emit(CaptionModel::Waiting)
            } else {
                Effect::Quiet
            },
        ),
        Op::Stop => (
            app.stop_recording(),
            if app.stop_takes_effect() {
                Effect::Emit(CaptionModel::Paused)
            } else {
                Effect::Quiet
            },
        ),
        Op::Audio(batch) => (app.on_audio(batch).0, Effect::Quiet),
        Op::CaptureEnded => (app.capture_ended(), Effect::Quiet),
        Op::TranscriberStep => (
            app.transcriber_step().0,
            match app.transcriber_step().1 {
                TranscriberWorkModel::Recognize(utterance) => Effect::Recognize(utterance),
                _ => Effect::Quiet,
            },
        ),
        Op::Recognized(text) => (app.recognized(text), Effect::Quiet),
        Op::TranslatorStep => (
            app.translator_step().0,
            match app.translator_step().1 {
                TranslatorWorkModel::Translate(text) => Effect::Translate(text),
                TranslatorWorkModel::Emit(caption) => Effect::Emit(caption),
                _ => Effect::Quiet,
            },
        ),
        Op::Translated(translation) => (
            app.translated(translation).0,
            match app.translated(translation).1 {
                Some(caption) => Effect::Emit(caption),
                None => Effect::Quiet,
            },
        ),
    }
}

/// The state after a sequence of operations, first to last.
pub open spec fn after(app: AppModel, ops: Seq<Op>) -> AppModel
    decreases ops.len(),
{
    if ops.len() == 0 {
        app
    } else {
        step(after(app, ops.drop_last()), ops.last()).0
    }
}

/// What the operation at position `i` of a sequence asks for.
pub open spec fn effect_at(app: AppModel, ops: Seq<Op>, i: int) -> Effect
    recommends
        0 <= i < ops.len(),
{
    step(after(app, ops.take(i)), ops[i]).1
}

/// Whatever happens, in whatever order, the application stays in a valid
/// state: the buffer within its capacity, no stage exited out of turn, no
/// session without both engines.
pub proof fn lemma_always_valid(app: AppModel, ops: Seq<Op>)
    requires
        app.wf(),
    ensures
        after(app, ops).wf(),
        after(app, ops).speech.samples.len() <= CAPACITY,
    decreases ops.len(),
{
    if ops.len() > 0 {
        lemma_always_valid(app, ops.drop_last());
    }
}

/// While a session is active a request to start is refused and changes
/// nothing: there is never more than one session.
pub proof fn lemma_one_session(app: AppModel)
    requires
        !app.run.idle(),
    ensures
        !app.start_outcome().accepted(),
        step(app, Op::Start) == (app, Effect::Quiet),
{
}

/// While an engine is missing nothing happens at all: a request to start is
/// refused without changing the state, no stage runs, and no operation asks
/// for an engine call or a caption, however many are tried, until the
/// missing engine is installed.
pub proof fn lemma_no_session_without_engines(app: AppModel, ops: Seq<Op>, i: int)
    requires
        app.wf(),
        !app.gate.ready(),
        forall|k: int| 0 <= k < ops.len() ==> !(#[trigger] ops[k] is SetModel),
        0 <= i < ops.len(),
    ensures
        app.start_outcome() is NotReady,
        app.start_recording() == app,
        effect_at(app, ops, i) is Quiet,
        after(app, ops).run.idle(),
        !after(app, ops).gate.ready(),
{
    lemma_stays_idle_without_engines(app, ops.take(i));
    lemma_stays_idle_without_engines(app, ops);
}

/// Without both engines, and with none being installed, the application
/// stays idle.
pub proof fn lemma_stays_idle_without_engines(app: AppModel, ops: Seq<Op>)
    requires
        app.wf(),
        !app.gate.ready(),
        forall|k: int| 0 <= k < ops.len() ==> !(#[trigger] ops[k] is SetModel),
    ensures
        after(app, ops).wf(),
        after(app, ops).run.idle(),
        after(app, ops).gate == app.gate,
    decreases ops.len(),
{
    if ops.len() > 0 {
        lemma_stays_idle_without_engines(app, ops.drop_last());
        assert(!(ops[ops.len() - 1] is SetModel));
    }
}

/// Once the translator has exited, and until a new session is started, every
/// operation is quiet: no caption, no engine call.
pub proof fn lemma_quiet_after_exit(app: AppModel, ops: Seq<Op>)
    requires
        app.wf(),
        app.run.translator is Exited,
        forall|k: int| 0 <= k < ops.len() ==> !(#[trigger] ops[k] is Start),
    ensures
        after(app, ops).wf(),
        after(app, ops).run.translator is Exited,
        forall|k: int| 0 <= k < ops.len() ==> #[trigger] effect_at(app, ops, k) is Quiet,
    decreases ops.len(),
{
    if ops.len() > 0 {
        let before = ops.drop_last();
        lemma_quiet_after_exit(app, before);
        assert(!(ops[ops.len() - 1] is Start));
        assert forall|k: int| 0 <= k < ops.len() implies #[trigger] effect_at(app, ops, k)
            is Quiet by {
            if k < before.len() {
                assert(ops.take(k) =~= before.take(k));
                assert(effect_at(app, before, k) is Quiet);
            } else {
                assert(ops.take(k) =~= before);
            }
        }
    }
}

/// The state after a prefix of a sequence, continued by the rest, is the
/// state after the whole sequence.
pub proof fn lemma_after_split(app: AppModel, ops: Seq<Op>, i: int)
    requires
        0 <= i <= ops.len(),
    ensures
        after(after(app, ops.take(i)), ops.skip(i)) == after(app, ops),
    decreases ops.len() - i,
{
    if i == ops.len() {
        assert(ops.take(i) =~= ops);
    } else {
        let rest = ops.skip(i);
        lemma_after_split(app, ops.drop_last(), i);
        assert(ops.drop_last().take(i) =~= ops.take(i));
        assert(ops.drop_last().skip(i) =~= rest.drop_last());
        assert(rest.last() == ops.last());
    }
}

/// Within one session the end of the session is emitted at most once, and
/// nothing follows it: after the operation that emits it, every operation
/// is quiet until a new session is started.
pub proof fn lemma_session_end_is_final(app: AppModel, ops: Seq<Op>, i: int, j: int)
    requires
        app.wf(),
        forall|k: int| 0 <= k < ops.len() ==> !(#[trigger] ops[k] is Start),
        0 <= i < j < ops.len(),
        effect_at(app, ops, i) == Effect::Emit(CaptionModel::SessionEnd),
    ensures
        effect_at(app, ops, j) is Quiet,
{
    let head = ops.take(i + 1);
    let tail = ops.skip(i + 1);
    lemma_always_valid(app, ops.take(i));
    lemma_always_valid(app, head);
    assert(head.drop_last() =~= ops.take(i));
    assert(head.last() == ops[i]);
    let ended = after(app, head);
    // Only the translator's last step emits the end, and it leaves the
    // translator exited.
    assert(ended.run.translator is Exited);
    assert forall|k: int| 0 <= k < tail.len() implies !(#[trigger] tail[k] is Start) by {
        assert(tail[k] == ops[i + 1 + k]);
    }
    lemma_quiet_after_exit(ended, tail);
    let k = j - (i + 1);
    assert(effect_at(ended, tail, k) is Quiet);
    lemma_after_split(app, ops.take(j), i + 1);
    assert(ops.take(j).take(i + 1) =~= head);
    assert(ops.take(j).skip(i + 1) =~= tail.take(k));
    assert(tail[k] == ops[j]);
}

/// How many more effective steps a session under a stop can take: one for
/// each stage to exit, and one more for each call in flight to return.
pub open spec fn remaining(run: RunModel) -> nat {
    let collector: nat = if run.collector is Exited {
        0
    } else {
        1
    };
    let transcriber: nat = match run.transcriber {
        TranscriberModel::Exited => 0,
        TranscriberModel::Recognizing => 2,
        _ => 1,
    };
    let translator: nat = match run.translator {
        TranslatorModel::Exited => 0,
        TranslatorModel::Translating(_) => 2,
        _ => 1,
    };
    collector + transcriber + translator
}

/// An operation that helps a session under a stop towards its end: the end
/// of capture while the collector runs, then the return of a call in flight
/// or else a step, for the transcriber and then for the translator.
pub open spec fn next_towards_end(run: RunModel) -> Op {
    if run.collector is Collecting {
        Op::CaptureEnded
    } else if run.transcriber is Recognizing {
        Op::Recognized(None)
    } else if !(run.transcriber is Exited) {
        Op::TranscriberStep
    } else if run.translator is Translating {
        Op::Translated(None)
    } else {
        Op::TranslatorStep
    }
}

/// Termination after a stop is bounded. Once the stop flag is set, no
/// operation asks for an engine call any more, and every operation either
/// leaves the session as it is or brings it strictly closer to its end,
/// which is at most five steps away; the end of the session is emitted by
/// the step that makes the translator exit, and by no other.
pub proof fn lemma_stop_is_bounded(app: AppModel, op: Op)
    requires
        app.wf(),
        app.run.stop,
        !app.run.idle(),
    ensures
        remaining(app.run) <= 5,
        step(app, op).0.run.stop,
        !(step(app, op).1 is Recognize),
        !(step(app, op).1 is Translate),
        step(app, op).0.run == app.run || remaining(step(app, op).0.run) < remaining(app.run),
        step(app, op).0.run.idle() <==> remaining(step(app, op).0.run) == 0,
        step(app, op).1 == Effect::Emit(CaptionModel::SessionEnd) <==> {
            &&& !(app.run.translator is Exited)
            &&& step(app, op).0.run.translator is Exited
        },
{
}

/// No stage can block for ever once a stop is requested: as long as a
/// stage is left, there is an operation that brings the session closer to
/// its end, and it needs nothing but the capture source's closing signal,
/// the return of a call in flight, or a step of a stage.
pub proof fn lemma_stop_always_progresses(app: AppModel)
    requires
        app.wf(),
        app.run.stop,
        !app.run.idle(),
    ensures
        remaining(step(app, next_towards_end(app.run)).0.run) < remaining(app.run),
{
}

/// Stopping ends the session. After a stop during an active session, which
/// the caller announces as paused, the closing signal of the capture
/// source, the return of the calls in flight (`recognition`, `translation`;
/// ignored where none was in flight) and one more step of the transcriber
/// and of the translator leave every stage exited. No engine call is asked
/// for on the way. The translation in flight, if it succeeds, still yields
/// its caption; the end of the session is emitted last, and once.
pub proof fn lemma_stop_ends_session(
    app: AppModel,
    recognition: Option<Seq<char>>,
    translation: Option<Seq<char>>,
)
    requires
        app.wf(),
        app.run.phase() is Recording,
    ensures
        ({
            let (s1, e1) = step(app, Op::Stop);
            let (s2, e2) = step(s1, Op::CaptureEnded);
            let (s3, e3) = step(s2, Op::Recognized(recognition));
            let (s4, e4) = step(s3, Op::TranscriberStep);
            let (s5, e5) = step(s4, Op::Translated(translation));
            let (s6, e6) = step(s5, Op::TranslatorStep);
            &&& e1 == Effect::Emit(CaptionModel::Paused)
            &&& s1.run.phase() is Stopping
            &&& e2 is Quiet
            &&& e3 is Quiet
            &&& e4 is Quiet
            &&& e5 is Quiet || (e5 matches Effect::Emit(caption) && caption is Utterance)
            &&& e6 == Effect::Emit(CaptionModel::SessionEnd)
            &&& s6.run.idle()
            &&& s6.wf()
        }),
{
}

/// Calls to one engine never overlap: a step asks for a call only from a
/// stage that has none in flight, and while one is in flight the stage's
/// steps change nothing and ask for nothing.
pub proof fn lemma_engine_calls_never_overlap(app: AppModel)
    ensures
        app.transcriber_step().1 is Recognize ==> {
            &&& app.run.transcriber is Waiting
            &&& app.transcriber_step().0.run.transcriber is Recognizing
        },
        app.run.transcriber is Recognizing ==> app.transcriber_step() == (
            app,
            TranscriberWorkModel::Busy,
        ),
        app.translator_step().1 is Translate ==> {
            &&& app.run.translator is Waiting
            &&& app.translator_step().0.run.translator is Translating
        },
        app.run.translator is Translating ==> app.translator_step() == (
            app,
            TranslatorWorkModel::Busy,
        ),
{
}

/// No stage reorders work: a recognised text, once reported, is the text
/// that is passed on, the text whose translation is asked for, and the
/// original of the caption that the translation yields.
pub proof fn lemma_text_is_carried_through(
    app: AppModel,
    text: Seq<char>,
    translation: Seq<char>,
)
    requires
        app.run.transcriber is Recognizing,
        app.run.translator is Waiting,
        app.run.text_pending is None,
        !app.run.stop,
        text != blank_marker(),
    ensures
        ({
            let s1 = app.recognized(Some(text));
            let s2 = s1.transcriber_step().0;
            let s3 = s2.translator_step().0;
            &&& s1.transcriber_step().1 is Forwarded
            &&& s2.translator_step().1 == TranslatorWorkModel::Translate(text)
            &&& s3.translated(Some(translation)).1 == Some(
                CaptionModel::Utterance { original: text, translated: translation },
            )
        }),
{
}

/// The recogniser's "no speech" marker is answered with the blank caption,
/// and no translation is asked for.
pub proof fn lemma_blank_needs_no_translation(app: AppModel)
    requires
        app.run.translator is Waiting,
        !app.run.stop,
        app.run.text_pending == Some(blank_marker()),
    ensures
        app.translator_step().1 == TranslatorWorkModel::Emit(CaptionModel::Blank),
        app.translator_step().0.run.translator is Waiting,
{
}

} // verus!
