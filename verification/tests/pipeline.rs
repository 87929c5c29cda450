use video_frames::config::RunConfig;
use video_frames::error::{DownloadError, ExtractionError, PipelineError, Tool};
use video_frames::pipeline::{Action, Driver, Outcome};

use Action::{
    CheckArtifact, CreateOutputDir, CreateScope, ExtendSearchPath, FetchDownloader,
    LocateDownloader, LocateTranscoder, PrepareTargetDir, ReleaseScope, Report, RunDownloader,
    RunTranscoder,
};
use Outcome::{Failed, Succeeded};

/// Feeds the outcomes to a fresh run and returns every step that came due,
/// the first included, with the driver as it then stands.
fn drive(keep_video: bool, fetch_allowed: bool, outcomes: &[Outcome]) -> (Vec<Action>, Driver) {
    let mut driver = Driver::new(keep_video, fetch_allowed);
    let mut due = vec![driver.pending()];
    for outcome in outcomes {
        due.push(driver.step(*outcome));
    }
    (due, driver)
}

fn count(due: &[Action], what: Action) -> usize {
    due.iter().filter(|a| **a == what).count()
}

#[test]
fn a_run_begins_by_looking_for_the_transcoder() {
    let driver = Driver::new(false, false);
    assert_eq!(driver.pending(), LocateTranscoder);
    assert_eq!(driver.result(), None);
    assert!(!driver.scope_held);
    assert_eq!(driver.failure, None);
}

#[test]
fn missing_transcoder_is_a_configuration_error_before_any_download() {
    for keep in [false, true] {
        for fetch in [false, true] {
            let (due, driver) = drive(keep, fetch, &[Failed, Succeeded, Succeeded, Failed]);
            assert_eq!(due, vec![LocateTranscoder, Report, Report, Report, Report]);
            assert_eq!(
                driver.result(),
                Some(Err(PipelineError::Configuration(Tool::Transcoder)))
            );
            assert_eq!(count(&due, RunDownloader), 0);
            assert_eq!(count(&due, FetchDownloader), 0);
        }
    }
}

#[test]
fn missing_downloader_without_permission_to_fetch_is_fatal() {
    let (due, driver) = drive(false, false, &[Succeeded, Failed]);
    assert_eq!(due, vec![LocateTranscoder, LocateDownloader, Report]);
    assert_eq!(driver.result(), Some(Err(PipelineError::Configuration(Tool::Downloader))));
}

#[test]
fn missing_downloader_is_fetched_and_then_used() {
    let (due, driver) = drive(false, true, &[Succeeded, Failed, Succeeded, Succeeded]);
    assert_eq!(
        due,
        vec![LocateTranscoder, LocateDownloader, FetchDownloader, ExtendSearchPath, CreateScope]
    );
    assert_eq!(driver.result(), None);
    assert_eq!(driver.failure, None);
}

#[test]
fn failed_fetch_is_fatal() {
    let (due, driver) = drive(false, true, &[Succeeded, Failed, Failed]);
    assert_eq!(due, vec![LocateTranscoder, LocateDownloader, FetchDownloader, Report]);
    assert_eq!(driver.result(), Some(Err(PipelineError::Fetch)));
}

#[test]
fn no_temporary_directory_is_a_resource_error() {
    let (due, driver) = drive(false, false, &[Succeeded, Succeeded, Failed]);
    assert_eq!(due, vec![LocateTranscoder, LocateDownloader, CreateScope, Report]);
    assert_eq!(driver.result(), Some(Err(PipelineError::Resource)));
    assert!(!driver.scope_held);
}

#[test]
fn whole_run_with_an_ephemeral_video() {
    let config = RunConfig::new("https://example.com/v");
    let mut driver = config.driver();
    let mut due = vec![driver.pending()];
    while driver.pending() != Report {
        due.push(driver.step(Succeeded));
    }
    assert_eq!(
        due,
        vec![
            LocateTranscoder,
            LocateDownloader,
            CreateScope,
            PrepareTargetDir,
            RunDownloader,
            CheckArtifact,
            CreateOutputDir,
            RunTranscoder,
            ReleaseScope,
            Report,
        ]
    );
    assert_eq!(count(&due, RunDownloader), 1);
    assert_eq!(count(&due, RunTranscoder), 1);
    assert_eq!(driver.result(), Some(Ok(())));
    assert!(!driver.scope_held);

    let target = config.video_target("/tmp/.tmpQ7");
    assert_eq!(target, "/tmp/.tmpQ7/video.mp4");
    let plan = config.extraction(&target);
    assert_eq!(plan.filter_chain, "fps=10");
    assert_eq!(plan.input, "/tmp/.tmpQ7/video.mp4");
    assert_eq!(plan.output, "frames/frame_%06d.png");
    assert_eq!(plan.seek, None);
    assert_eq!(plan.duration, None);
}

#[test]
fn kept_video_needs_no_temporary_directory() {
    let outcomes = [Succeeded; 8];
    let (due, driver) = drive(true, false, &outcomes);
    assert_eq!(
        due,
        vec![
            LocateTranscoder,
            LocateDownloader,
            PrepareTargetDir,
            RunDownloader,
            CheckArtifact,
            CreateOutputDir,
            RunTranscoder,
            Report,
            Report,
        ]
    );
    assert_eq!(count(&due, CreateScope), 0);
    assert_eq!(count(&due, ReleaseScope), 0);
    assert_eq!(driver.result(), Some(Ok(())));
}

#[test]
fn target_directory_is_prepared_at_best_effort() {
    let (due, driver) = drive(true, false, &[Succeeded, Succeeded, Failed]);
    assert_eq!(due, vec![LocateTranscoder, LocateDownloader, PrepareTargetDir, RunDownloader]);
    assert_eq!(driver.failure, None);
}

#[test]
fn failed_download_releases_the_scope_and_fails() {
    let (due, driver) = drive(false, false, &[Succeeded, Succeeded, Succeeded, Succeeded, Failed]);
    assert_eq!(
        due,
        vec![
            LocateTranscoder,
            LocateDownloader,
            CreateScope,
            PrepareTargetDir,
            RunDownloader,
            ReleaseScope
        ]
    );
    assert!(driver.scope_held);
    assert_eq!(driver.result(), None);
    let mut driver = driver;
    assert_eq!(driver.step(Succeeded), Report);
    assert!(!driver.scope_held);
    assert_eq!(driver.result(), Some(Err(PipelineError::Download(DownloadError::ToolFailed))));
}

#[test]
fn download_that_leaves_no_file_is_a_missing_output() {
    let (due, mut driver) =
        drive(false, false, &[Succeeded, Succeeded, Succeeded, Succeeded, Succeeded, Failed]);
    assert_eq!(due[due.len() - 2], CheckArtifact);
    assert_eq!(due[due.len() - 1], ReleaseScope);
    assert_eq!(driver.step(Failed), Report);
    assert_eq!(driver.result(), Some(Err(PipelineError::Download(DownloadError::MissingOutput))));
    assert_eq!(count(&due, RunTranscoder), 0);
    assert_eq!(count(&due, CreateOutputDir), 0);

    let (due, driver) = drive(true, false, &[Succeeded, Succeeded, Succeeded, Succeeded, Failed]);
    assert_eq!(due[due.len() - 1], Report);
    assert_eq!(driver.result(), Some(Err(PipelineError::Download(DownloadError::MissingOutput))));
}

#[test]
fn unavailable_output_directory_fails_without_the_transcoder() {
    let (due, mut driver) = drive(
        false,
        false,
        &[Succeeded, Succeeded, Succeeded, Succeeded, Succeeded, Succeeded, Failed],
    );
    assert_eq!(due[due.len() - 2], CreateOutputDir);
    assert_eq!(due[due.len() - 1], ReleaseScope);
    assert_eq!(driver.step(Succeeded), Report);
    assert_eq!(
        driver.result(),
        Some(Err(PipelineError::Extraction(ExtractionError::OutputDirUnavailable)))
    );
    assert_eq!(count(&due, RunTranscoder), 0);
}

#[test]
fn created_output_directory_lets_extraction_proceed() {
    let (due, _) = drive(
        true,
        false,
        &[Succeeded, Succeeded, Succeeded, Succeeded, Succeeded, Succeeded],
    );
    assert_eq!(due[due.len() - 2], CreateOutputDir);
    assert_eq!(due[due.len() - 1], RunTranscoder);
}

#[test]
fn failed_transcoder_fails_the_run_and_releases_the_scope() {
    let mut outcomes = vec![Succeeded; 7];
    outcomes.push(Failed);
    let (due, mut driver) = drive(false, false, &outcomes);
    assert_eq!(due[due.len() - 2], RunTranscoder);
    assert_eq!(due[due.len() - 1], ReleaseScope);
    assert_eq!(driver.step(Failed), Report);
    assert_eq!(
        driver.result(),
        Some(Err(PipelineError::Extraction(ExtractionError::ToolFailed)))
    );
    assert!(!driver.scope_held);
}

#[test]
fn nothing_changes_after_the_report() {
    let (_, mut driver) = drive(false, false, &[Failed]);
    let before = driver;
    assert_eq!(driver.step(Succeeded), Report);
    assert_eq!(driver.step(Failed), Report);
    assert_eq!(driver, before);
}

#[test]
fn every_run_ends_with_no_scope_held() {
    for bits in 0u32..(1 << 11) {
        for keep in [false, true] {
            for fetch in [false, true] {
                let outcomes: Vec<Outcome> = (0..11)
                    .map(|i| if bits & (1 << i) != 0 { Succeeded } else { Failed })
                    .collect();
                let (due, driver) = drive(keep, fetch, &outcomes);
                assert_eq!(driver.pending(), Report);
                assert!(!driver.scope_held);
                assert!(count(&due, ReleaseScope) <= 1);
                assert_eq!(count(&due, ReleaseScope), count(&due, PrepareTargetDir) * usize::from(!keep));
                assert!(count(&due, RunDownloader) <= 1);
                assert!(count(&due, RunTranscoder) <= 1);
            }
        }
    }
}
