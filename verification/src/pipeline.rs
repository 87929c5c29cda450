//! The order of a run: which outside step comes next, and how a failure ends
//! it.
//!
//! The [`Driver`] never acts. It names the step that is due; the caller
//! performs it and reports the [`Outcome`]; the driver then names the next.

use vstd::prelude::*;
use crate::error::{DownloadError, ExtractionError, PipelineError, Tool};

verus! {

/// A step that the caller performs for the driver.
#[derive(Clone, Copy, Debug, PartialEq, Eq, Structural)]
pub enum Action {
    /// Look the transcoder up on the search path. Succeeds if it is found.
    LocateTranscoder,
    /// Look the download tool up on the search path. Succeeds if it is found.
    LocateDownloader,
    /// Fetch the download tool from its distributor.
    FetchDownloader,
    /// Put the fetched tool's directory in front of the search path.
    ExtendSearchPath,
    /// Create a temporary directory for the video.
    CreateScope,
    /// Create the directory that the video is written into, if need be.
    PrepareTargetDir,
    /// Run the download tool. Succeeds if it ran and exited with success.
    RunDownloader,
    /// See whether the video is on disk. Succeeds if it is.
    CheckArtifact,
    /// Create the output directory and those above it.
    CreateOutputDir,
    /// Run the transcoder. Succeeds if it ran and exited with success.
    RunTranscoder,
    /// Delete the temporary directory and what is in it.
    ReleaseScope,
    /// Nothing is left to do but to report [`Driver::result`].
    Report,
}

/// How a step went.
#[derive(Clone, Copy, Debug, PartialEq, Eq, Structural)]
pub enum Outcome {
    Succeeded,
    Failed,
}

/// The state of one run.
#[derive(Clone, Copy, Debug, PartialEq, Eq)]
pub struct Driver {
    /// Whether the video goes to a path of the caller's and stays there.
    pub keep_video: bool,
    /// Whether a missing download tool may be fetched.
    pub fetch_allowed: bool,
    /// The step that is due.
    pub pending: Action,
    /// Whether a temporary directory exists that this run has to delete.
    pub scope_held: bool,
    /// Why the run failed, once it has.
    pub failure: Option<PipelineError>,
}

impl Action {
    /// Whether the step reaches out to the network.
    pub open spec fn uses_network(self) -> bool {
        self == Action::FetchDownloader || self == Action::RunDownloader
    }

    /// Whether the step is part of downloading the video or of extracting its
    /// frames.
    pub open spec fn handles_video(self) -> bool {
        self == Action::PrepareTargetDir || self == Action::RunDownloader || self
            == Action::CheckArtifact || self == Action::CreateOutputDir || self
            == Action::RunTranscoder
    }

    /// An upper bound on the number of steps still to come, this one included.
    pub open spec fn steps_left(self) -> nat {
        match self {
            Action::LocateTranscoder => 11,
            Action::LocateDownloader => 10,
            Action::FetchDownloader => 9,
            Action::ExtendSearchPath => 8,
            Action::CreateScope => 7,
            Action::PrepareTargetDir => 6,
            Action::RunDownloader => 5,
            Action::CheckArtifact => 4,
            Action::CreateOutputDir => 3,
            Action::RunTranscoder => 2,
            Action::ReleaseScope => 1,
            Action::Report => 0,
        }
    }
}

impl Driver {
    /// The state before anything was done.
    pub open spec fn initial(keep_video: bool, fetch_allowed: bool) -> Driver {
        Driver {
            keep_video,
            fetch_allowed,
            pending: Action::LocateTranscoder,
            scope_held: false,
            failure: None,
        }
    }

    /// What holds of every state that a run passes through: a temporary
    /// directory is held exactly while the video of a run that does not keep
    /// it is worked on or the directory waits to be deleted, and a failed run
    /// does nothing more but that deletion.
    pub open spec fn wf(self) -> bool {
        &&& self.scope_held ==> !self.keep_video
        &&& self.scope_held ==> self.pending.handles_video() || self.pending
            == Action::ReleaseScope
        &&& self.pending.handles_video() && !self.keep_video ==> self.scope_held
        &&& self.keep_video ==> self.pending != Action::CreateScope
        &&& self.pending == Action::ReleaseScope ==> self.scope_held
        &&& self.failure is Some ==> self.pending == Action::ReleaseScope || self.pending
            == Action::Report
    }

    /// The same run with `action` due.
    pub open spec fn with_pending(self, action: Action) -> Driver {
        Driver { pending: action, ..self }
    }

    /// The end of the run: delete the temporary directory if there is one,
    /// then report.
    pub open spec fn wound_down(self) -> Driver {
        if self.scope_held {
            self.with_pending(Action::ReleaseScope)
        } else {
            self.with_pending(Action::Report)
        }
    }

    /// The run failed with `error`: nothing follows but the end of the run.
    pub open spec fn aborted(self, error: PipelineError) -> Driver {
        Driver { failure: Some(error), ..self }.wound_down()
    }

    /// Both tools are there: settle where the video goes.
    pub open spec fn tools_ready(self) -> Driver {
        if self.keep_video {
            self.with_pending(Action::PrepareTargetDir)
        } else {
            self.with_pending(Action::CreateScope)
        }
    }

    /// The state after the step that was due went as `outcome` says.
    pub open spec fn next(self, outcome: Outcome) -> Driver {
        let ok = outcome == Outcome::Succeeded;
        match self.pending {
            Action::LocateTranscoder => if ok {
                self.with_pending(Action::LocateDownloader)
            } else {
                self.aborted(PipelineError::Configuration(Tool::Transcoder))
            },
            Action::LocateDownloader => if ok {
                self.tools_ready()
            } else if self.fetch_allowed {
                self.with_pending(Action::FetchDownloader)
            } else {
                self.aborted(PipelineError::Configuration(Tool::Downloader))
            },
            Action::FetchDownloader => if ok {
                self.with_pending(Action::ExtendSearchPath)
            } else {
                self.aborted(PipelineError::Fetch)
            },
            Action::ExtendSearchPath => self.tools_ready(),
            Action::CreateScope => if ok {
                Driver { scope_held: true, pending: Action::PrepareTargetDir, ..self }
            } else {
                self.aborted(PipelineError::Resource)
            },
            Action::PrepareTargetDir => self.with_pending(Action::RunDownloader),
            Action::RunDownloader => if ok {
                self.with_pending(Action::CheckArtifact)
            } else {
                self.aborted(PipelineError::Download(DownloadError::ToolFailed))
            },
            Action::CheckArtifact => if ok {
                self.with_pending(Action::CreateOutputDir)
            } else {
                self.aborted(PipelineError::Download(DownloadError::MissingOutput))
            },
            Action::CreateOutputDir => if ok {
                self.with_pending(Action::RunTranscoder)
            } else {
                self.aborted(PipelineError::Extraction(ExtractionError::OutputDirUnavailable))
            },
            Action::RunTranscoder => if ok {
                self.wound_down()
            } else {
                self.aborted(PipelineError::Extraction(ExtractionError::ToolFailed))
            },
            Action::ReleaseScope => Driver { scope_held: false, pending: Action::Report, ..self },
            Action::Report => self,
        }
    }

    /// The state after the steps that were due, one after another, went as
    /// `outcomes` says.
    pub open spec fn run(self, outcomes: Seq<Outcome>) -> Driver
        decreases outcomes.len(),
    {
        if outcomes.len() == 0 {
            self
        } else {
            self.next(outcomes[0]).run(outcomes.drop_first())
        }
    }

    /// What the run came to: nothing while steps are due, then success or the
    /// failure.
    pub open spec fn outcome(self) -> Option<Result<(), PipelineError>> {
        if self.pending != Action::Report {
            None
        } else {
            match self.failure {
                Some(e) => Some(Err(e)),
                None => Some(Ok(())),
            }
        }
    }

    /// Begins a run. The first step due is to look for the transcoder.
    pub fn new(keep_video: bool, fetch_allowed: bool) -> (r: Driver)
        ensures
            r == Driver::initial(keep_video, fetch_allowed),
            r.wf(),
    {
        Driver {
            keep_video,
            fetch_allowed,
            pending: Action::LocateTranscoder,
            scope_held: false,
            failure: None,
        }
    }

    /// The step that is due.
    pub fn pending(&self) -> (r: Action)
        ensures
            r == self.pending,
    {
        self.pending
    }

    /// What the run came to, once nothing is due but the report.
    pub fn result(&self) -> (r: Option<Result<(), PipelineError>>)
        ensures
            r == self.outcome(),
    {
        match self.pending {
            Action::Report => match self.failure {
                Some(e) => Some(Err(e)),
                None => Some(Ok(())),
            },
            _ => None,
        }
    }

    fn wind_down(&mut self)
        ensures
            *final(self) == old(self).wound_down(),
    {
        if self.scope_held {
            self.pending = Action::ReleaseScope;
        } else {
            self.pending = Action::Report;
        }
    }

    fn abort(&mut self, error: PipelineError)
        ensures
            *final(self) == old(self).aborted(error),
    {
        self.failure = Some(error);
        self.wind_down();
    }

    fn settle_target(&mut self)
        ensures
            *final(self) == old(self).tools_ready(),
    {
        if self.keep_video {
            self.pending = Action::PrepareTargetDir;
        } else {
            self.pending = Action::CreateScope;
        }
    }

    /// Takes in how the step that was due went, and returns the step that is
    /// due now. After the report nothing changes any more.
    pub fn step(&mut self, outcome: Outcome) -> (r: Action)
        ensures
            *final(self) == old(self).next(outcome),
            r == final(self).pending,
            old(self).wf() ==> final(self).wf(),
    {
        let ok = match outcome {
            Outcome::Succeeded => true,
            Outcome::Failed => false,
        };
        match self.pending {
            Action::LocateTranscoder => {
                if ok {
                    self.pending = Action::LocateDownloader;
                } else {
                    self.abort(PipelineError::Configuration(Tool::Transcoder));
                }
            },
            Action::LocateDownloader => {
                if ok {
                    self.settle_target();
                } else if self.fetch_allowed {
                    self.pending = Action::FetchDownloader;
                } else {
                    self.abort(PipelineError::Configuration(Tool::Downloader));
                }
            },
            Action::FetchDownloader => {
                if ok {
                    self.pending = Action::ExtendSearchPath;
                } else {
                    self.abort(PipelineError::Fetch);
                }
            },
            Action::ExtendSearchPath => {
                self.settle_target();
            },
            Action::CreateScope => {
                if ok {
                    self.scope_held = true;
                    self.pending = Action::PrepareTargetDir;
                } else {
                    self.abort(PipelineError::Resource);
                }
            },
            Action::PrepareTargetDir => {
                self.pending = Action::RunDownloader;
            },
            Action::RunDownloader => {
                if ok {
                    self.pending = Action::CheckArtifact;
                } else {
                    self.abort(PipelineError::Download(DownloadError::ToolFailed));
                }
            },
            Action::CheckArtifact => {
                if ok {
                    self.pending = Action::CreateOutputDir;
                } else {
                    self.abort(PipelineError::Download(DownloadError::MissingOutput));
                }
            },
            Action::CreateOutputDir => {
                if ok {
                    self.pending = Action::RunTranscoder;
                } else {
                    self.abort(PipelineError::Extraction(ExtractionError::OutputDirUnavailable));
                }
            },
            Action::RunTranscoder => {
                if ok {
                    self.wind_down();
                } else {
                    self.abort(PipelineError::Extraction(ExtractionError::ToolFailed));
                }
            },
            Action::ReleaseScope => {
                self.scope_held = false;
                self.pending = Action::Report;
            },
            Action::Report => {},
        }
        self.pending
    }
}

} // verus!
