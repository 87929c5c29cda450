//! What holds of every run and of every invocation.

use vstd::prelude::*;
use crate::error::{DownloadError, ExtractionError, PipelineError, Tool};
use crate::extract::{filter_chain_text, TranscodePlan};
use crate::pipeline::{Action, Driver, Outcome};
use crate::tools::prepended;

verus! {

/// Once the report is due, no further outcome changes anything.
pub proof fn report_is_final(d: Driver, outcomes: Seq<Outcome>)
    requires
        d.pending == Action::Report,
    ensures
        d.run(outcomes) == d,
    decreases outcomes.len(),
{
    if outcomes.len() > 0 {
        report_is_final(d, outcomes.drop_first());
    }
}

/// Every state that a run passes through is well formed.
pub proof fn run_stays_well_formed(d: Driver, outcomes: Seq<Outcome>)
    requires
        d.wf(),
    ensures
        d.run(outcomes).wf(),
    decreases outcomes.len(),
{
    if outcomes.len() > 0 {
        run_stays_well_formed(d.next(outcomes[0]), outcomes.drop_first());
    }
}

/// The settings of a run never change.
pub proof fn run_keeps_settings(d: Driver, outcomes: Seq<Outcome>)
    ensures
        d.run(outcomes).keep_video == d.keep_video,
        d.run(outcomes).fetch_allowed == d.fetch_allowed,
    decreases outcomes.len(),
{
    if outcomes.len() > 0 {
        run_keeps_settings(d.next(outcomes[0]), outcomes.drop_first());
    }
}

/// Every step brings the report nearer, however it goes.
pub proof fn every_step_brings_the_report_nearer(d: Driver, outcome: Outcome)
    requires
        d.pending != Action::Report,
    ensures
        d.next(outcome).pending.steps_left() < d.pending.steps_left(),
{
}

/// No step comes due twice in a run: once a step was taken, every step that
/// is due later is nearer to the report than it, and so another one. So the
/// download tool and the transcoder are each run at most once.
pub proof fn no_step_comes_due_twice(d: Driver, outcomes: Seq<Outcome>)
    requires
        d.pending != Action::Report,
        outcomes.len() > 0,
    ensures
        d.run(outcomes).pending.steps_left() < d.pending.steps_left(),
        d.run(outcomes).pending != d.pending,
    decreases outcomes.len(),
{
    let e = d.next(outcomes[0]);
    let rest = outcomes.drop_first();
    every_step_brings_the_report_nearer(d, outcomes[0]);
    if rest.len() == 0 {
        assert(e.run(rest) == e);
    } else if e.pending == Action::Report {
        report_is_final(e, rest);
    } else {
        no_step_comes_due_twice(e, rest);
    }
}

/// A run ends: after as many outcomes as [`Action::steps_left`] says,
/// whatever they are, the report is due.
pub proof fn every_run_ends(d: Driver, outcomes: Seq<Outcome>)
    requires
        outcomes.len() >= d.pending.steps_left(),
    ensures
        d.run(outcomes).pending == Action::Report,
    decreases outcomes.len(),
{
    if d.pending == Action::Report {
        report_is_final(d, outcomes);
    } else {
        every_run_ends(d.next(outcomes[0]), outcomes.drop_first());
    }
}

/// A run that failed keeps its failure, and does nothing more but delete the
/// temporary directory and report.
pub proof fn failure_is_kept(d: Driver, error: PipelineError, outcomes: Seq<Outcome>)
    requires
        d.wf(),
        d.failure == Some(error),
    ensures
        d.run(outcomes).failure == Some(error),
        d.run(outcomes).pending == Action::ReleaseScope || d.run(outcomes).pending
            == Action::Report,
    decreases outcomes.len(),
{
    if outcomes.len() > 0 {
        failure_is_kept(d.next(outcomes[0]), error, outcomes.drop_first());
    }
}

/// Whatever the settings: if the transcoder is not found, the run is over at
/// once with a configuration error. No later outcome changes that, so nothing
/// is ever fetched or downloaded.
pub proof fn missing_transcoder_ends_the_run(
    keep_video: bool,
    fetch_allowed: bool,
    later: Seq<Outcome>,
)
    ensures
        Driver::initial(keep_video, fetch_allowed).pending == Action::LocateTranscoder,
        Driver::initial(keep_video, fetch_allowed).next(Outcome::Failed).run(later).outcome()
            == Some(
            Err::<(), PipelineError>(PipelineError::Configuration(Tool::Transcoder)),
        ),
        !Driver::initial(keep_video, fetch_allowed).next(Outcome::Failed).run(
            later,
        ).pending.uses_network(),
{
    report_is_final(Driver::initial(keep_video, fetch_allowed).next(Outcome::Failed), later);
}

/// A temporary directory comes into being only by a successful
/// [`Action::CreateScope`], and is given up only by [`Action::ReleaseScope`].
pub proof fn scope_changes_only_by_its_steps(d: Driver, outcome: Outcome)
    ensures
        !d.scope_held && d.next(outcome).scope_held ==> d.pending == Action::CreateScope
            && outcome == Outcome::Succeeded,
        d.scope_held && !d.next(outcome).scope_held ==> d.pending == Action::ReleaseScope,
        d.pending == Action::ReleaseScope ==> !d.next(outcome).scope_held && d.next(
            outcome,
        ).pending == Action::Report,
{
}

/// However a run goes, a temporary directory that it made is deleted before
/// the report: while one is held the report is not due, and after enough
/// outcomes the report is due and none is held. A run that keeps the video
/// never makes or deletes a temporary directory.
pub proof fn scope_is_released_on_every_path(
    keep_video: bool,
    fetch_allowed: bool,
    outcomes: Seq<Outcome>,
)
    ensures
        Driver::initial(keep_video, fetch_allowed).run(outcomes).scope_held ==> Driver::initial(
            keep_video,
            fetch_allowed,
        ).run(outcomes).pending != Action::Report,
        outcomes.len() >= Action::LocateTranscoder.steps_left() ==> Driver::initial(
            keep_video,
            fetch_allowed,
        ).run(outcomes).pending == Action::Report,
        outcomes.len() >= Action::LocateTranscoder.steps_left() ==> !Driver::initial(
            keep_video,
            fetch_allowed,
        ).run(outcomes).scope_held,
        keep_video ==> !Driver::initial(keep_video, fetch_allowed).run(outcomes).scope_held,
        keep_video ==> Driver::initial(keep_video, fetch_allowed).run(outcomes).pending
            != Action::CreateScope,
        keep_video ==> Driver::initial(keep_video, fetch_allowed).run(outcomes).pending
            != Action::ReleaseScope,
{
    let d = Driver::initial(keep_video, fetch_allowed);
    run_keeps_settings(d, outcomes);
    run_stays_well_formed(d, outcomes);
    if outcomes.len() >= Action::LocateTranscoder.steps_left() {
        every_run_ends(d, outcomes);
    }
}

/// If the download tool reports success but the video is not on disk, the
/// run fails with [`DownloadError::MissingOutput`], whatever follows, and no
/// frame is extracted.
pub proof fn missing_artifact_fails_the_run(d: Driver, later: Seq<Outcome>)
    requires
        d.wf(),
        d.pending == Action::RunDownloader,
    ensures
        d.next(Outcome::Succeeded).pending == Action::CheckArtifact,
        d.next(Outcome::Succeeded).next(Outcome::Failed).run(later).failure == Some(
            PipelineError::Download(DownloadError::MissingOutput),
        ),
        !d.next(Outcome::Succeeded).next(Outcome::Failed).run(later).pending.handles_video(),
        d.next(Outcome::Succeeded).next(Outcome::Failed).run(later).outcome() != Some(
            Ok::<(), PipelineError>(()),
        ),
{
    let e = d.next(Outcome::Succeeded).next(Outcome::Failed);
    failure_is_kept(e, PipelineError::Download(DownloadError::MissingOutput), later);
}

/// Extraction begins by creating the output directory. If that succeeds the
/// transcoder is run next. If it fails the run fails with
/// [`ExtractionError::OutputDirUnavailable`], whatever follows, and the
/// transcoder is never run.
pub proof fn output_dir_comes_before_the_transcoder(d: Driver, later: Seq<Outcome>)
    requires
        d.wf(),
        d.pending == Action::CreateOutputDir,
    ensures
        d.next(Outcome::Succeeded).pending == Action::RunTranscoder,
        d.next(Outcome::Succeeded).failure == d.failure,
        d.next(Outcome::Failed).run(later).failure == Some(
            PipelineError::Extraction(ExtractionError::OutputDirUnavailable),
        ),
        d.next(Outcome::Failed).run(later).pending != Action::RunTranscoder,
{
    failure_is_kept(
        d.next(Outcome::Failed),
        PipelineError::Extraction(ExtractionError::OutputDirUnavailable),
        later,
    );
}

/// The transcoder is run only after the video was seen on disk: the check is
/// the only way to the extraction steps.
pub proof fn extraction_follows_the_check(d: Driver, outcome: Outcome)
    requires
        d.pending != Action::CreateOutputDir,
        d.pending != Action::RunTranscoder,
    ensures
        d.next(outcome).pending != Action::RunTranscoder,
        d.next(outcome).pending == Action::CreateOutputDir ==> d.pending
            == Action::CheckArtifact && outcome == Outcome::Succeeded,
{
}

/// In the filter chain, sampling stands before scaling: the chain with a
/// scale is the chain without one, followed by the scale.
pub proof fn sampling_precedes_scaling(fps: nat, scale: Seq<char>)
    ensures
        filter_chain_text(fps, Some(scale)) == filter_chain_text(fps, None) + ",scale="@ + scale,
{
}

/// In the argument list, a seek option stands before the input and a duration
/// option after it.
pub proof fn seek_precedes_input_precedes_duration(plan: TranscodePlan)
    ensures
        plan.arguments()[plan.input_position()] == "-i"@,
        plan.arguments()[plan.input_position() + 1] == plan.input,
        plan.seek is Some ==> plan.arguments()[2] == "-ss"@ && plan.arguments()[3]
            == plan.seek->0 && 3 < plan.input_position(),
        plan.duration is Some ==> plan.arguments()[plan.input_position() + 2] == "-t"@
            && plan.arguments()[plan.input_position() + 3] == plan.duration->0,
        plan.arguments().last() == plan.output,
{
}

/// Putting a directory in front of the search path adds that one entry and
/// takes nothing out: the new path begins with the directory; an empty path
/// becomes the directory alone; a path with entries follows the directory
/// after one separator.
pub proof fn search_path_is_only_extended(dir: Seq<char>, current: Seq<char>)
    ensures
        prepended(dir, current).subrange(0, dir.len() as int) == dir,
        current.len() == 0 ==> prepended(dir, current) == dir,
        current.len() > 0 ==> prepended(dir, current).len() == dir.len() + 1 + current.len(),
        current.len() > 0 ==> prepended(dir, current)[dir.len() as int] == ':',
        current.len() > 0 ==> prepended(dir, current).subrange(
            dir.len() as int + 1,
            prepended(dir, current).len() as int,
        ) == current,
{
    assert(prepended(dir, current).subrange(0, dir.len() as int) =~= dir);
    if current.len() > 0 {
        assert(prepended(dir, current).subrange(
            dir.len() as int + 1,
            prepended(dir, current).len() as int,
        ) =~= current);
    }
}

/// A download tool that was fetched is put on the search path and then used:
/// it is not looked up a second time.
pub proof fn fetched_downloader_is_used(d: Driver, outcome: Outcome)
    requires
        d.pending == Action::FetchDownloader,
    ensures
        d.next(Outcome::Succeeded).pending == Action::ExtendSearchPath,
        d.next(Outcome::Succeeded).next(outcome) == d.tools_ready(),
        d.next(Outcome::Succeeded).next(outcome).failure == d.failure,
{
}

} // verus!
