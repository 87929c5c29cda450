use video_frames::config::RunConfig;
use video_frames::download::{download_arguments, video_target};
use video_frames::error::{DownloadError, ExtractionError, PipelineError, Tool};
use video_frames::tools::{fetch_destination, prepend_search_path};

#[test]
fn download_arguments_name_target_format_and_remux() {
    assert_eq!(
        download_arguments("/tmp/abc/video.mp4"),
        vec![
            "-o".to_string(),
            "/tmp/abc/video.mp4".to_string(),
            "-f".to_string(),
            "bv*[ext=mp4]+ba[ext=m4a]/b[ext=mp4]/best".to_string(),
            "--remux-video".to_string(),
            "mp4".to_string(),
        ]
    );
}

#[test]
fn kept_video_goes_to_the_given_path() {
    assert_eq!(video_target(true, "clips/a.mp4", "/tmp/ignored"), "clips/a.mp4");
    assert_eq!(video_target(true, "video.mp4", ""), "video.mp4");
}

#[test]
fn unkept_video_goes_into_the_temporary_directory() {
    assert_eq!(video_target(false, "clips/a.mp4", "/tmp/.tmpX1"), "/tmp/.tmpX1/video.mp4");
    assert_eq!(video_target(false, "clips/a.mp4", "/tmp/.tmpX1/"), "/tmp/.tmpX1/video.mp4");
}

#[test]
fn settings_decide_the_video_target() {
    let mut config = RunConfig::new("https://example.com/v");
    assert_eq!(config.video_target("/tmp/t"), "/tmp/t/video.mp4");
    config.keep_video = true;
    assert_eq!(config.video_target("/tmp/t"), "video.mp4");
    config.video_path = "/srv/v.mp4".to_string();
    assert_eq!(config.video_target("/tmp/t"), "/srv/v.mp4");
}

#[test]
fn fetched_tool_directory_leads_the_search_path() {
    assert_eq!(prepend_search_path("/opt/app", "/usr/bin:/bin"), "/opt/app:/usr/bin:/bin");
    assert_eq!(prepend_search_path("/opt/app", "/usr/bin"), "/opt/app:/usr/bin");
}

#[test]
fn empty_search_path_becomes_the_one_directory() {
    assert_eq!(prepend_search_path("/opt/app", ""), "/opt/app");
    assert_eq!(prepend_search_path(".", ""), ".");
}

#[test]
fn tool_names() {
    assert_eq!(Tool::Transcoder.name(), "ffmpeg");
    assert_eq!(Tool::Downloader.name(), "yt-dlp");
}

#[test]
fn every_failure_names_its_stage() {
    assert_eq!(
        PipelineError::Configuration(Tool::Transcoder).label(),
        "ffmpeg not found on PATH"
    );
    let missing = PipelineError::Configuration(Tool::Downloader).label();
    assert!(missing.starts_with("yt-dlp not found on PATH"));
    assert!(missing.contains("pip install yt-dlp"));
    assert!(missing.contains("--fetch-yt-dlp"));
    assert_eq!(PipelineError::Fetch.label(), "downloading yt-dlp failed");
    assert_eq!(PipelineError::Resource.label(), "creating a temporary directory failed");
    assert_eq!(
        PipelineError::Download(DownloadError::ToolFailed).label(),
        "downloading video with yt-dlp failed"
    );
    assert_eq!(
        PipelineError::Download(DownloadError::MissingOutput).label(),
        "downloading video with yt-dlp failed: yt-dlp did not produce the expected file"
    );
    assert_eq!(
        PipelineError::Extraction(ExtractionError::OutputDirUnavailable).label(),
        "ffmpeg frame extraction failed: creating output directory"
    );
    assert_eq!(
        PipelineError::Extraction(ExtractionError::ToolFailed).label(),
        "ffmpeg frame extraction failed"
    );
}

#[test]
fn fetched_tool_goes_beside_the_program_or_into_the_working_directory() {
    assert_eq!(fetch_destination(Some("/opt/app/bin"), true, "/home/u"), "/opt/app/bin");
    assert_eq!(fetch_destination(Some("/opt/app/bin"), false, "/home/u"), "/home/u");
    assert_eq!(fetch_destination(None, true, "/home/u"), "/home/u");
    assert_eq!(fetch_destination(None, false, "/home/u"), "/home/u");
}
