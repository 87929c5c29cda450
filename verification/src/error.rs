//! Why a run fails.

use vstd::prelude::*;

verus! {

/// The two external programs a run needs.
#[derive(Clone, Copy, Debug, PartialEq, Eq, Structural)]
pub enum Tool {
    /// Decodes the video and writes the frames.
    Transcoder,
    /// Fetches the remote video.
    Downloader,
}

/// How the download stage fails.
#[derive(Clone, Copy, Debug, PartialEq, Eq, Structural)]
pub enum DownloadError {
    /// The download tool could not be started or exited with a failure.
    ToolFailed,
    /// The download tool reported success but left no file at the target.
    MissingOutput,
}

/// How the extraction stage fails.
#[derive(Clone, Copy, Debug, PartialEq, Eq, Structural)]
pub enum ExtractionError {
    /// The output directory does not exist and could not be created.
    OutputDirUnavailable,
    /// The transcoder could not be started or exited with a failure.
    ToolFailed,
}

/// Why a run ended without frames.
#[derive(Clone, Copy, Debug, PartialEq, Eq, Structural)]
pub enum PipelineError {
    /// A required tool is missing and nothing may be done about it.
    Configuration(Tool),
    /// The download tool was missing and could not be fetched.
    Fetch,
    /// No temporary directory could be had for the video.
    Resource,
    /// The video could not be downloaded.
    Download(DownloadError),
    /// The frames could not be extracted.
    Extraction(ExtractionError),
}

impl Tool {
    /// The name under which the program is looked up.
    pub open spec fn name_text(self) -> Seq<char> {
        match self {
            Tool::Transcoder => "ffmpeg"@,
            Tool::Downloader => "yt-dlp"@,
        }
    }

    /// The name under which the program is looked up on the search path.
    pub fn name(self) -> (r: &'static str)
        ensures
            r@ == self.name_text(),
    {
        match self {
            Tool::Transcoder => "ffmpeg",
            Tool::Downloader => "yt-dlp",
        }
    }
}

impl PipelineError {
    /// The message that names the stage that failed.
    pub open spec fn label_text(self) -> Seq<char> {
        match self {
            PipelineError::Configuration(Tool::Transcoder) => "ffmpeg not found on PATH"@,
            PipelineError::Configuration(Tool::Downloader) =>
                "yt-dlp not found on PATH. Install it (`pip install yt-dlp`, package manager) or run with --fetch-yt-dlp."@,
            PipelineError::Fetch => "downloading yt-dlp failed"@,
            PipelineError::Resource => "creating a temporary directory failed"@,
            PipelineError::Download(DownloadError::ToolFailed) =>
                "downloading video with yt-dlp failed"@,
            PipelineError::Download(DownloadError::MissingOutput) =>
                "downloading video with yt-dlp failed: yt-dlp did not produce the expected file"@,
            PipelineError::Extraction(ExtractionError::OutputDirUnavailable) =>
                "ffmpeg frame extraction failed: creating output directory"@,
            PipelineError::Extraction(ExtractionError::ToolFailed) =>
                "ffmpeg frame extraction failed"@,
        }
    }

    /// The message that names the stage that failed. A caller that knows the
    /// underlying cause appends it.
    pub fn label(self) -> (r: &'static str)
        ensures
            r@ == self.label_text(),
    {
        match self {
            PipelineError::Configuration(Tool::Transcoder) => "ffmpeg not found on PATH",
            PipelineError::Configuration(Tool::Downloader) =>
                "yt-dlp not found on PATH. Install it (`pip install yt-dlp`, package manager) or run with --fetch-yt-dlp.",
            PipelineError::Fetch => "downloading yt-dlp failed",
            PipelineError::Resource => "creating a temporary directory failed",
            PipelineError::Download(DownloadError::ToolFailed) =>
                "downloading video with yt-dlp failed",
            PipelineError::Download(DownloadError::MissingOutput) =>
                "downloading video with yt-dlp failed: yt-dlp did not produce the expected file",
            PipelineError::Extraction(ExtractionError::OutputDirUnavailable) =>
                "ffmpeg frame extraction failed: creating output directory",
            PipelineError::Extraction(ExtractionError::ToolFailed) =>
                "ffmpeg frame extraction failed",
        }
    }
}

} // verus!
