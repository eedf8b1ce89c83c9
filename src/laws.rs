use vstd::prelude::*;

use crate::error::Failure;
use crate::pipeline::{advance, awaits, fresh_run, reply, run_wf, Event, Reply, RunView, Stage};

verus! {

/// The run after taking the events `es` in order.
pub open spec fn run(v: RunView, es: Seq<Event>) -> RunView
    decreases es.len(),
{
    if es.len() == 0 {
        v
    } else {
        advance(run(v, es.drop_last()), es.last())
    }
}

/// Whether each event of `es` is awaited when it comes.
pub open spec fn accepted(v: RunView, es: Seq<Event>) -> bool {
    forall|i: int| #![trigger es[i]] 0 <= i < es.len() ==> awaits(run(v, es.take(i)).stage, es[i])
}

/// What the run asks for in answer to the `i`-th event of `es`.
pub open spec fn reply_at(v: RunView, es: Seq<Event>, i: int) -> Reply {
    reply(run(v, es.take(i)), es[i])
}

/// The texts of `ts`, one after the other, with nothing between them.
pub open spec fn concat_texts(ts: Seq<String>) -> Seq<char>
    decreases ts.len(),
{
    if ts.len() == 0 {
        Seq::empty()
    } else {
        concat_texts(ts.drop_last()) + ts.last()@
    }
}

/// The events that hand over the texts `ts` as segment texts, in order.
pub open spec fn segment_events(ts: Seq<String>) -> Seq<Event> {
    ts.map_values(|t: String| Event::SegmentText(Some(t)))
}

/// The order of the stages.
pub open spec fn rank(s: Stage) -> int {
    match s {
        Stage::ResolvingModel => 0,
        Stage::LoadingModel => 1,
        Stage::OpeningAudio => 2,
        Stage::ReadingAudio => 3,
        Stage::CreatingSession => 4,
        Stage::RunningInference => 5,
        Stage::Extracting { .. } => 6,
        Stage::Finished => 7,
    }
}

proof fn lemma_run_step(v: RunView, es: Seq<Event>, i: int)
    requires
        0 <= i < es.len(),
    ensures
        run(v, es.take(i + 1)) == advance(run(v, es.take(i)), es[i]),
{
    assert(es.take(i + 1).drop_last() =~= es.take(i));
}

proof fn lemma_stage_never_goes_back(v: RunView, es: Seq<Event>, i: int, j: int)
    requires
        accepted(v, es),
        0 <= i <= j <= es.len(),
    ensures
        rank(run(v, es.take(i)).stage) <= rank(run(v, es.take(j)).stage),
    decreases j - i,
{
    if i < j {
        lemma_stage_never_goes_back(v, es, i, j - 1);
        lemma_run_step(v, es, j - 1);
        assert(awaits(run(v, es.take(j - 1)).stage, es[j - 1]));
    }
}

/// A finished run takes no further event.
pub proof fn law_finished_run_takes_nothing(e: Event)
    ensures
        !awaits(Stage::Finished, e),
{
}

/// A run whose model file is missing answers with `ModelNotFound` and ends
/// there: it takes no further event, so no other error can follow.
pub proof fn law_missing_model(es: Seq<Event>)
    requires
        accepted(fresh_run(), es),
        es.len() >= 1,
        es[0] == (Event::ModelChecked { exists: false }),
    ensures
        reply_at(fresh_run(), es, 0) == (Reply::Fail { failure: Failure::ModelNotFound }),
        es.len() == 1,
{
    assert(es.take(0) =~= Seq::<Event>::empty());
    if es.len() > 1 {
        lemma_run_step(fresh_run(), es, 0);
        assert(awaits(run(fresh_run(), es.take(1)).stage, es[1]));
    }
}

/// A run whose audio file cannot be opened as a WAV reader (missing,
/// unreadable or malformed) answers with `AudioOpenError` carrying the
/// diagnostic and ends there; no step of the run asks for an inference
/// session or for inference.
pub proof fn law_unopenable_audio_fails_before_inference(es: Seq<Event>, k: int, detail: String)
    requires
        accepted(fresh_run(), es),
        0 <= k < es.len(),
        es[k] == Event::AudioOpened(Err(detail)),
    ensures
        reply_at(fresh_run(), es, k) == (Reply::Fail { failure: Failure::AudioOpen(detail@) }),
        k == es.len() - 1,
        forall|i: int|
            0 <= i < es.len() ==> !(#[trigger] reply_at(fresh_run(), es, i) is CreateSession)
                && !(reply_at(fresh_run(), es, i) is RunInference),
{
    let v = fresh_run();
    assert(awaits(run(v, es.take(k)).stage, es[k]));
    if k + 1 < es.len() {
        lemma_run_step(v, es, k);
        assert(awaits(run(v, es.take(k + 1)).stage, es[k + 1]));
    }
    assert forall|i: int| 0 <= i < es.len() implies !(#[trigger] reply_at(v, es, i) is CreateSession)
        && !(reply_at(v, es, i) is RunInference) by {
        lemma_stage_never_goes_back(v, es, i, k);
        assert(awaits(run(v, es.take(i)).stage, es[i]));
    }
}

/// The events that report `texts.len()` segments from inference and then
/// hand over `texts` as segment texts, in order.
pub open spec fn inference_events(texts: Seq<String>) -> Seq<Event> {
    seq![Event::InferenceFinished(Ok(texts.len() as i32))] + segment_events(texts)
}

proof fn lemma_inference_events(texts: Seq<String>)
    ensures
        inference_events(texts).len() == texts.len() + 1,
        inference_events(texts)[0] == Event::InferenceFinished(Ok(texts.len() as i32)),
        forall|j: int|
            1 <= j <= texts.len() ==> #[trigger] inference_events(texts)[j] == Event::SegmentText(
                Some(texts[j - 1]),
            ),
{
}

proof fn lemma_extraction_state(v: RunView, texts: Seq<String>, i: int)
    requires
        v.stage == Stage::RunningInference,
        run_wf(v),
        1 <= texts.len() <= i32::MAX,
        1 <= i <= texts.len(),
    ensures
        run(v, inference_events(texts).take(i)) == (RunView {
            stage: Stage::Extracting { count: texts.len() as i32, next: (i - 1) as i32 },
            samples: v.samples,
            text: concat_texts(texts.take(i - 1)),
        }),
    decreases i,
{
    let es = inference_events(texts);
    lemma_inference_events(texts);
    if i == 1 {
        lemma_run_step(v, es, 0);
        assert(es.take(0) =~= Seq::<Event>::empty());
        assert(texts.take(0) =~= Seq::<String>::empty());
    } else {
        lemma_extraction_state(v, texts, i - 1);
        lemma_run_step(v, es, i - 1);
        assert(es[i - 1] == Event::SegmentText(Some(texts[i - 2])));
        assert(texts.take(i - 1).drop_last() =~= texts.take(i - 2));
    }
}

/// Once inference has produced `texts.len()` segments, a run that obtains
/// the text of each answers the last with the texts concatenated in order,
/// with nothing added between them, and ends; with no segments it answers
/// at once with the empty text.
pub proof fn law_transcript_is_concatenation(v: RunView, texts: Seq<String>)
    requires
        v.stage == Stage::RunningInference,
        run_wf(v),
        texts.len() <= i32::MAX,
    ensures
        accepted(v, inference_events(texts)),
        reply_at(v, inference_events(texts), texts.len() as int) == (Reply::Complete {
            text: concat_texts(texts),
        }),
        run(v, inference_events(texts)).stage == Stage::Finished,
{
    let es = inference_events(texts);
    let n = texts.len() as int;
    lemma_inference_events(texts);
    assert(es.take(0) =~= Seq::<Event>::empty());
    assert(es.take(n + 1) =~= es);
    assert forall|j: int| #![trigger es[j]] 0 <= j < es.len() implies awaits(
        run(v, es.take(j)).stage,
        es[j],
    ) by {
        if j >= 1 {
            lemma_extraction_state(v, texts, j);
        }
    }
    if n == 0 {
        lemma_run_step(v, es, 0);
    } else {
        lemma_extraction_state(v, texts, n);
        lemma_run_step(v, es, n);
        assert(texts.take(n - 1) =~= texts.drop_last());
    }
}

} // verus!
