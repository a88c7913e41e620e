//! Whole runs of a burn job, and what holds of every one of them.

use vstd::prelude::*;
use crate::error::BurnErrorView;
use crate::invocation::{normalizer_call, writer_call, InvocationView, CD_WRITER_DEVICE};
use crate::job::{
    lemma_step_keeps_wf, normalize_notice, step_of, track_call, transcode_notice, write_notice,
    JobActionView, JobEventView, JobPhase, JobView,
};
use crate::message::{success_summary, LogMessageView};
use crate::plan::{
    file_name, file_names, has_id, lemma_unique_ids_differ, lemma_unique_len,
    lemma_unique_same_ids, unique_tracks,
};
use crate::song::SongView;

verus! {

/// What a job has published and run so far, and the job itself.
pub struct Trace {
    pub job: JobView,
    /// Every message of every step, in order.
    pub messages: Seq<LogMessageView>,
    /// Every program the job asked to run or to start, in order.
    pub calls: Seq<InvocationView>,
}

/// The program that `action` asks for, if it asks for one.
pub open spec fn call_of(action: JobActionView) -> Seq<InvocationView> {
    match action {
        JobActionView::Run(call) => seq![call],
        JobActionView::Spawn(call) => seq![call],
        _ => Seq::empty(),
    }
}

/// The job `job` after the reports `events`, with all it published and ran
/// on the way.
pub open spec fn run(job: JobView, events: Seq<JobEventView>) -> Trace
    decreases events.len(),
{
    if events.len() == 0 {
        Trace { job, messages: Seq::empty(), calls: Seq::empty() }
    } else {
        let before = run(job, events.drop_last());
        let step = step_of(before.job, events.last());
        Trace {
            job: step.job,
            messages: before.messages + step.messages,
            calls: before.calls + call_of(step.action),
        }
    }
}

/// Every program of a burn that goes through, in order: the transcoder once
/// for each distinct track, the normalizer, the disc writer.
pub open spec fn all_calls(playlist: Seq<SongView>, scratch: Seq<char>) -> Seq<InvocationView> {
    let unique = unique_tracks(playlist);
    Seq::new(unique.len(), |i: int| track_call(scratch, unique[i])).push(
        normalizer_call(scratch, file_names(unique)),
    ).push(writer_call(scratch, CD_WRITER_DEVICE@, file_names(playlist)))
}

/// How many of `messages` are completions.
pub open spec fn completions(messages: Seq<LogMessageView>) -> nat
    decreases messages.len(),
{
    if messages.len() == 0 {
        0
    } else {
        completions(messages.drop_last()) + if messages.last() is Complete {
            1nat
        } else {
            0nat
        }
    }
}

proof fn lemma_completions_concat(a: Seq<LogMessageView>, b: Seq<LogMessageView>)
    ensures
        completions(a + b) == completions(a) + completions(b),
    decreases b.len(),
{
    if b.len() == 0 {
        assert(a + b == a);
    } else {
        lemma_completions_concat(a, b.drop_last());
        assert((a + b).drop_last() == a + b.drop_last());
    }
}

/// What holds of a job and its trace at every moment of a run.
spec fn reached(playlist: Seq<SongView>, t: Trace) -> bool {
    let unique = unique_tracks(playlist);
    let total = all_calls(playlist, t.job.scratch);
    &&& t.job.playlist == playlist
    &&& t.job.wf()
    &&& t.calls.len() <= total.len()
    &&& t.calls == total.take(t.calls.len() as int)
    &&& completions(t.messages) <= 1
    &&& completions(t.messages) == 1 ==> t.messages.len() > 0 && t.messages.last() is Complete
    &&& match t.job.phase {
        JobPhase::Setup => t.calls.len() == 0 && t.messages.len() == 0 && !t.job.broken,
        JobPhase::Transcoding => t.calls.len() == t.job.cursor + 1 && completions(t.messages) == 0
            && !t.job.broken,
        JobPhase::Normalizing => t.calls.len() == unique.len() + 1 && completions(t.messages)
            == 0 && !t.job.broken,
        JobPhase::Spawning => t.calls.len() == unique.len() + 2 && completions(t.messages) == 0
            && !t.job.broken,
        JobPhase::Writing => t.calls.len() == unique.len() + 2 && completions(t.messages) == 0
            && !t.job.broken,
        JobPhase::Finished => !t.job.broken ==> completions(t.messages) == 1,
    }
}

/// The trace `t` after one more report.
spec fn extend(t: Trace, event: JobEventView) -> Trace {
    let step = step_of(t.job, event);
    Trace {
        job: step.job,
        messages: t.messages + step.messages,
        calls: t.calls + call_of(step.action),
    }
}

proof fn lemma_extend_reached(playlist: Seq<SongView>, t: Trace, event: JobEventView)
    requires
        reached(playlist, t),
    ensures
        reached(playlist, extend(t, event)),
{
    let step = step_of(t.job, event);
    let next = extend(t, event);
    let unique = unique_tracks(playlist);
    lemma_step_keeps_wf(t.job, event);
    lemma_unique_len(playlist);
    lemma_completions_concat(t.messages, step.messages);
    let total = all_calls(playlist, next.job.scratch);
    let n = t.calls.len() as int;
    // What one step publishes: nothing, one or two lines, or one completion.
    assert(completions(step.messages) <= 1 && (completions(step.messages) == 1 ==> step.messages
        == seq![step.messages[0]] && step.messages[0] is Complete)) by {
        reveal_with_fuel(completions, 3);
        if step.messages.len() == 1 {
            assert(step.messages.drop_last() == Seq::<LogMessageView>::empty());
        } else if step.messages.len() == 2 {
            assert(step.messages.drop_last().drop_last() == Seq::<LogMessageView>::empty());
        }
    }
    if completions(step.messages) == 1 {
        assert(next.messages.last() == step.messages[0]);
    } else if completions(t.messages) == 1 {
        // The job was over before this report, and a finished job is silent.
        assert(step.messages.len() == 0);
        assert(next.messages == t.messages);
    }
    if call_of(step.action).len() == 0 {
        assert(next.calls == t.calls);
        if t.job.phase is Setup {
            assert(next.calls == total.take(0));
        }
    } else {
        assert(call_of(step.action).len() == 1);
        assert(n < total.len());
        assert(call_of(step.action)[0] == total[n]);
        assert(next.calls == total.take(n + 1));
    }
}

/// Every run that begins with a fresh job keeps to the pipeline.
proof fn lemma_run_reached(playlist: Seq<SongView>, events: Seq<JobEventView>)
    ensures
        reached(playlist, run(JobView::fresh(playlist), events)),
    decreases events.len(),
{
    let job = JobView::fresh(playlist);
    if events.len() == 0 {
        let t = run(job, events);
        assert(t.calls == all_calls(playlist, t.job.scratch).take(0));
    } else {
        lemma_run_reached(playlist, events.drop_last());
        lemma_extend_reached(playlist, run(job, events.drop_last()), events.last());
    }
}

/// A run in two parts is the first part followed by a run of the second
/// part from where the first one ended.
pub proof fn lemma_run_split(job: JobView, first: Seq<JobEventView>, second: Seq<JobEventView>)
    ensures
        run(job, first + second).job == run(run(job, first).job, second).job,
        run(job, first + second).messages == run(job, first).messages + run(
            run(job, first).job,
            second,
        ).messages,
        run(job, first + second).calls == run(job, first).calls + run(
            run(job, first).job,
            second,
        ).calls,
    decreases second.len(),
{
    if second.len() == 0 {
        assert(first + second == first);
    } else {
        lemma_run_split(job, first, second.drop_last());
        assert((first + second).drop_last() == first + second.drop_last());
    }
}

/// A run of one report is one step.
pub proof fn lemma_run_one(job: JobView, event: JobEventView)
    ensures
        run(job, seq![event]).job == step_of(job, event).job,
        run(job, seq![event]).messages == step_of(job, event).messages,
        run(job, seq![event]).calls == call_of(step_of(job, event).action),
{
    let one = seq![event];
    assert(one.drop_last() == Seq::<JobEventView>::empty());
    assert(one.last() == event);
    reveal_with_fuel(run, 2);
    let step = step_of(job, event);
    assert(Seq::<LogMessageView>::empty() + step.messages == step.messages);
    assert(Seq::<InvocationView>::empty() + call_of(step.action) == call_of(step.action));
}

/// A job that is over publishes nothing more and runs nothing more,
/// whatever is reported to it.
pub proof fn lemma_finished_is_silent(job: JobView, events: Seq<JobEventView>)
    requires
        job.phase is Finished,
    ensures
        run(job, events).job.phase is Finished,
        run(job, events).messages == Seq::<LogMessageView>::empty(),
        run(job, events).calls == Seq::<InvocationView>::empty(),
    decreases events.len(),
{
    if events.len() > 0 {
        lemma_finished_is_silent(job, events.drop_last());
    }
}

/// Stage order. The programs of any run are a beginning of the full
/// pipeline: first the transcoder, once for each distinct track in playlist
/// order, then the normalizer, then the disc writer. No program is run
/// twice, and none before all those ahead of it.
pub proof fn law_stage_order(playlist: Seq<SongView>, events: Seq<JobEventView>)
    ensures
        ({
            let t = run(JobView::fresh(playlist), events);
            let total = all_calls(playlist, t.job.scratch);
            t.calls.len() <= total.len() && t.calls == total.take(t.calls.len() as int)
        }),
{
    lemma_run_reached(playlist, events);
}

/// How far the pipeline has come says which programs have been asked for:
/// while the track at the cursor is at the transcoder, the transcoder runs up
/// to that track and nothing else; while the normalizer runs, all transcoder
/// runs and the normalizer; from the start of the disc writer on, everything.
pub proof fn law_calls_by_phase(playlist: Seq<SongView>, events: Seq<JobEventView>)
    ensures
        ({
            let t = run(JobView::fresh(playlist), events);
            let distinct = unique_tracks(playlist).len();
            match t.job.phase {
                JobPhase::Setup => t.calls.len() == 0,
                JobPhase::Transcoding => t.job.cursor < distinct && t.calls.len() == t.job.cursor
                    + 1,
                JobPhase::Normalizing => t.calls.len() == distinct + 1,
                JobPhase::Spawning => t.calls.len() == distinct + 2,
                JobPhase::Writing => t.calls.len() == distinct + 2,
                JobPhase::Finished => t.calls.len() <= distinct + 2,
            }
        }),
{
    lemma_run_reached(playlist, events);
}

/// One completion, and it comes last. No run holds more than one
/// completion message; a run holds none while the job is going, and exactly
/// one once the job is over, unless a message was lost. Where there is a
/// completion it is the last message of the run.
pub proof fn law_one_completion(playlist: Seq<SongView>, events: Seq<JobEventView>)
    ensures
        ({
            let t = run(JobView::fresh(playlist), events);
            &&& completions(t.messages) <= 1
            &&& !(t.job.phase is Finished) ==> completions(t.messages) == 0 && !t.job.broken
            &&& t.job.phase is Finished && !t.job.broken ==> completions(t.messages) == 1
            &&& completions(t.messages) == 1 ==> t.messages.len() > 0 && t.messages.last()
                is Complete
        }),
{
    lemma_run_reached(playlist, events);
}

/// An empty playlist. Once the scratch area exists, the burn of an empty
/// playlist says one thing only, that the playlist is empty, and runs no
/// program, whatever is reported afterwards.
pub proof fn law_empty_playlist(scratch: Seq<char>, later: Seq<JobEventView>)
    ensures
        ({
            let events = seq![JobEventView::ScratchCreated { path: scratch }] + later;
            let t = run(JobView::fresh(Seq::empty()), events);
            &&& t.messages == seq![
                LogMessageView::Complete(Err(BurnErrorView::EmptyPlaylist)),
            ]
            &&& t.calls == Seq::<InvocationView>::empty()
        }),
{
    let job = JobView::fresh(Seq::empty());
    let created = JobEventView::ScratchCreated { path: scratch };
    let begun = run(job, seq![created]);
    lemma_run_one(job, created);
    lemma_run_split(job, seq![created], later);
    lemma_finished_is_silent(begun.job, later);
}

/// A failing transcoder. If the transcoder fails on a track, the run
/// holds exactly one completion, its last message, which names the path of
/// that track; and the only programs of the whole run are the transcoder runs
/// up to that track: neither the normalizer nor the disc writer is ever asked
/// for, whatever is reported afterwards.
pub proof fn law_transcode_failure(
    playlist: Seq<SongView>,
    earlier: Seq<JobEventView>,
    later: Seq<JobEventView>,
)
    requires
        run(JobView::fresh(playlist), earlier).job.phase is Transcoding,
    ensures
        ({
            let at = run(JobView::fresh(playlist), earlier).job;
            let unique = unique_tracks(playlist);
            let events = earlier + seq![JobEventView::Exited { success: false }] + later;
            let t = run(JobView::fresh(playlist), events);
            &&& at.cursor < unique.len()
            &&& completions(t.messages) == 1
            &&& t.messages.last() == LogMessageView::Complete(
                Err(BurnErrorView::TranscodeFailed { path: unique[at.cursor as int].path }),
            )
            &&& t.calls.len() == at.cursor + 1
            &&& forall|i: int|
                0 <= i < t.calls.len() ==> t.calls[i] == track_call(at.scratch, unique[i])
        }),
{
    let job = JobView::fresh(playlist);
    let failure = JobEventView::Exited { success: false };
    let before = run(job, earlier);
    let unique = unique_tracks(playlist);
    let total = all_calls(playlist, before.job.scratch);
    let failed = run(before.job, seq![failure]);
    let t = run(job, earlier + seq![failure] + later);
    assert(before.job.playlist == playlist && before.job.cursor < unique.len()
        && before.calls.len() == before.job.cursor + 1 && before.calls == total.take(
        before.calls.len() as int,
    ) && completions(before.messages) == 0) by {
        lemma_run_reached(playlist, earlier);
    }
    lemma_run_one(before.job, failure);
    let verdict = LogMessageView::Complete(
        Err(BurnErrorView::TranscodeFailed { path: unique[before.job.cursor as int].path }),
    );
    assert(failed.messages == seq![verdict]);
    assert(failed.calls == Seq::<InvocationView>::empty());
    assert(failed.job.phase is Finished);
    assert(t.messages == before.messages + failed.messages && t.calls == before.calls) by {
        lemma_run_split(job, earlier, seq![failure]);
        lemma_run_split(job, earlier + seq![failure], later);
        lemma_finished_is_silent(failed.job, later);
    }
    assert(completions(t.messages) == 1) by {
        lemma_completions_concat(before.messages, failed.messages);
        assert(failed.messages.drop_last() == Seq::<LogMessageView>::empty());
        reveal_with_fuel(completions, 2);
        assert(completions(failed.messages) == 1);
    }
    assert forall|i: int| 0 <= i < t.calls.len() implies t.calls[i] == track_call(
        before.job.scratch,
        unique[i],
    ) by {
        assert(t.calls[i] == total[i]);
    }
}

/// Repeated tracks. However often a track stands on the playlist, no
/// run sends it to the transcoder more than once: the transcoder runs of a
/// run are for the distinct tracks in order, and no two of those share an
/// identifier, while every identifier of the playlist is among them. The
/// disc writer, once the run comes to it, is given one file for every entry
/// of the playlist, repeats included, in playlist order.
pub proof fn law_repeats_transcoded_once(playlist: Seq<SongView>, events: Seq<JobEventView>)
    ensures
        ({
            let t = run(JobView::fresh(playlist), events);
            let unique = unique_tracks(playlist);
            let files = file_names(playlist);
            &&& forall|k: int|
                0 <= k < t.calls.len() && k < unique.len() ==> t.calls[k] == track_call(
                    t.job.scratch,
                    unique[k],
                )
            &&& forall|j: int, k: int|
                0 <= j < k < unique.len() ==> unique[j].id != unique[k].id
            &&& forall|p: int|
                0 <= p < playlist.len() ==> has_id(unique, (#[trigger] playlist[p]).id)
            &&& t.calls.len() == unique.len() + 2 ==> t.calls[unique.len() as int + 1] == writer_call(
                t.job.scratch,
                CD_WRITER_DEVICE@,
                files,
            )
            &&& files.len() == playlist.len()
            &&& forall|p: int| 0 <= p < playlist.len() ==> files[p] == file_name(playlist[p].id)
        }),
{
    let t = run(JobView::fresh(playlist), events);
    let unique = unique_tracks(playlist);
    let total = all_calls(playlist, t.job.scratch);
    lemma_run_reached(playlist, events);
    lemma_unique_ids_differ(playlist);
    assert forall|k: int| 0 <= k < t.calls.len() && k < unique.len() implies t.calls[k]
        == track_call(t.job.scratch, unique[k]) by {
        assert(t.calls[k] == total[k]);
    }
    assert forall|p: int| 0 <= p < playlist.len() implies has_id(
        unique,
        (#[trigger] playlist[p]).id,
    ) by {
        lemma_unique_same_ids(playlist, playlist[p].id);
    }
    if t.calls.len() == unique.len() + 2 {
        assert(t.calls[unique.len() as int + 1] == total[unique.len() as int + 1]);
    }
}


/// The reports of a burn up to the point where the transcoder has
/// finished `done` tracks: the scratch area at `scratch`, then one success
/// for each of those tracks.
pub open spec fn transcode_reports(scratch: Seq<char>, done: nat) -> Seq<JobEventView> {
    seq![JobEventView::ScratchCreated { path: scratch }] + Seq::new(
        done,
        |i: int| JobEventView::Exited { success: true },
    )
}

/// The reports of a burn of `distinct` distinct tracks in which nothing
/// fails: the scratch area, a success for every track, a success of the
/// normalizer, the start of the disc writer and its success.
pub open spec fn smooth_reports(scratch: Seq<char>, distinct: nat) -> Seq<JobEventView> {
    transcode_reports(scratch, distinct).push(JobEventView::Exited { success: true }).push(
        JobEventView::Spawned,
    ).push(JobEventView::Exited { success: true })
}

/// The notices of the first `count` distinct tracks of `playlist`.
pub open spec fn transcode_notices(playlist: Seq<SongView>, count: nat) -> Seq<LogMessageView> {
    Seq::new(count, |i: int| transcode_notice(unique_tracks(playlist)[i]))
}

proof fn lemma_transcoding_run(playlist: Seq<SongView>, scratch: Seq<char>, done: nat)
    requires
        done < unique_tracks(playlist).len(),
    ensures
        ({
            let t = run(JobView::fresh(playlist), transcode_reports(scratch, done));
            &&& t.job == JobView {
                scratch,
                cursor: done,
                phase: JobPhase::Transcoding,
                ..JobView::fresh(playlist)
            }
            &&& t.messages == transcode_notices(playlist, done + 1)
            &&& t.calls == all_calls(playlist, scratch).take(done as int + 1)
        }),
    decreases done,
{
    let job = JobView::fresh(playlist);
    let reports = transcode_reports(scratch, done);
    let total = all_calls(playlist, scratch);
    lemma_unique_len(playlist);
    if done == 0 {
        let created = JobEventView::ScratchCreated { path: scratch };
        assert(reports == seq![created]);
        lemma_run_one(job, created);
        let t = run(job, reports);
        assert(t.messages == transcode_notices(playlist, 1));
        assert(t.calls == total.take(1));
    } else {
        let earlier = transcode_reports(scratch, (done - 1) as nat);
        lemma_transcoding_run(playlist, scratch, (done - 1) as nat);
        assert(reports.drop_last() == earlier);
        assert(reports.last() == JobEventView::Exited { success: true });
        let before = run(job, earlier);
        let t = run(job, reports);
        assert(t.messages == transcode_notices(playlist, done + 1));
        assert(t.calls == total.take(done as int + 1));
    }
}

/// A burn in which nothing fails. For a playlist that is not empty
/// the run publishes one notice for each distinct track, in order, then the
/// notices of the normalizer and of the disc writer, and last the success;
/// and it runs every program of the pipeline, in order.
pub proof fn law_smooth_burn(playlist: Seq<SongView>, scratch: Seq<char>)
    requires
        playlist.len() > 0,
    ensures
        ({
            let distinct = unique_tracks(playlist).len();
            let t = run(JobView::fresh(playlist), smooth_reports(scratch, distinct));
            &&& t.job.phase is Finished
            &&& !t.job.broken
            &&& t.messages == transcode_notices(playlist, distinct) + seq![
                normalize_notice(),
                write_notice(),
                LogMessageView::Complete(Ok(success_summary())),
            ]
            &&& t.calls == all_calls(playlist, scratch)
        }),
{
    let job = JobView::fresh(playlist);
    let distinct = unique_tracks(playlist).len();
    let total = all_calls(playlist, scratch);
    let notices = transcode_notices(playlist, distinct);
    let success = JobEventView::Exited { success: true };
    lemma_unique_len(playlist);
    lemma_transcoding_run(playlist, scratch, (distinct - 1) as nat);
    let r0 = transcode_reports(scratch, (distinct - 1) as nat);
    let r1 = transcode_reports(scratch, distinct);
    let r2 = r1.push(success);
    let r3 = r2.push(JobEventView::Spawned);
    let r4 = r3.push(success);
    assert(r1.drop_last() == r0 && r1.last() == success);
    assert(r2.drop_last() == r1);
    assert(r3.drop_last() == r2);
    assert(r4.drop_last() == r3);
    let t1 = run(job, r1);
    assert(t1.job.phase is Normalizing && t1.messages == notices && t1.calls == total.take(
        distinct as int + 1,
    ));
    let t2 = run(job, r2);
    assert(t2.job.phase is Spawning && t2.messages == notices + seq![
        normalize_notice(),
        write_notice(),
    ] && t2.calls == total);
    let t3 = run(job, r3);
    assert(t3.job.phase is Writing && t3.messages == t2.messages && t3.calls == total);
    let t4 = run(job, r4);
    assert(t4.messages == notices + seq![
        normalize_notice(),
        write_notice(),
        LogMessageView::Complete(Ok(success_summary())),
    ]);
    assert(t4.calls == total);
}


} // verus!
