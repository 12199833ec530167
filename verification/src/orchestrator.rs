//! The decisions of a test session: which phase runs next, what a failure in
//! each phase becomes, and how each event of a transfer phase is handled.
//! The driver performs the transfers and hands the outcomes back.

use crate::backend::{BackendError, UploadResult};
use crate::config::Config;
use crate::error::TestError;
use crate::metrics::{record_view, AccumulatorState};
use crate::result::Phase;
use vstd::prelude::*;

verus! {

pub const DEFAULT_LATENCY_SAMPLES: usize = 10;

pub const DEFAULT_DOWNLOAD_BYTES_PER_REQUEST: u64 = 1_000_000_000;

pub const DEFAULT_UPLOAD_BYTES_PER_REQUEST: u64 = 10 * 1024 * 1024;

/// Where a session stands.
#[derive(Debug, Clone, Copy, PartialEq, Eq, Structural)]
pub enum SessionStage {
    Latency,
    Download,
    Upload,
    Done,
}

/// What the driver is to do next.
#[derive(Debug, Clone, Copy, PartialEq, Eq, Structural)]
pub enum SessionAction {
    ProbeLatency,
    RunDownload,
    RunUpload,
    Finish,
}

pub open spec fn action_of(stage: SessionStage) -> SessionAction {
    match stage {
        SessionStage::Latency => SessionAction::ProbeLatency,
        SessionStage::Download => SessionAction::RunDownload,
        SessionStage::Upload => SessionAction::RunUpload,
        SessionStage::Done => SessionAction::Finish,
    }
}

/// The stage after `stage` has succeeded: latency first, then download if
/// enabled, then upload if enabled.
pub open spec fn stage_after(stage: SessionStage, do_download: bool, do_upload: bool) -> SessionStage {
    match stage {
        SessionStage::Latency => if do_download {
            SessionStage::Download
        } else if do_upload {
            SessionStage::Upload
        } else {
            SessionStage::Done
        },
        SessionStage::Download => if do_upload {
            SessionStage::Upload
        } else {
            SessionStage::Done
        },
        _ => SessionStage::Done,
    }
}

/// A backend failure in a stage, as the session reports it.
pub open spec fn stage_error(stage: SessionStage, e: BackendError) -> TestError {
    match stage {
        SessionStage::Latency => TestError::Latency(e),
        SessionStage::Download => TestError::Download(e),
        SessionStage::Upload => TestError::Upload(e),
        SessionStage::Done => TestError::Backend(e),
    }
}

pub open spec fn stage_rank(stage: SessionStage) -> nat {
    match stage {
        SessionStage::Latency => 3,
        SessionStage::Download => 2,
        SessionStage::Upload => 1,
        SessionStage::Done => 0,
    }
}

/// The actions of a session whose stages all succeed, from `stage` on.
pub open spec fn actions_from(stage: SessionStage, do_download: bool, do_upload: bool) -> Seq<SessionAction>
    decreases stage_rank(stage),
{
    if stage == SessionStage::Done {
        seq![SessionAction::Finish]
    } else {
        seq![action_of(stage)] + actions_from(stage_after(stage, do_download, do_upload), do_download, do_upload)
    }
}

/// The plan of a session that runs every enabled phase: the latency probe,
/// the download if enabled, the upload if enabled, then the result.
pub open spec fn planned_actions(do_download: bool, do_upload: bool) -> Seq<SessionAction> {
    seq![SessionAction::ProbeLatency] + (if do_download {
        seq![SessionAction::RunDownload]
    } else {
        Seq::empty()
    }) + (if do_upload {
        seq![SessionAction::RunUpload]
    } else {
        Seq::empty()
    }) + seq![SessionAction::Finish]
}

/// A session in which every phase succeeds performs the latency probe, then
/// the download exactly when it is enabled, then the upload exactly when it
/// is enabled, and then finishes; a skipped phase issues no request.
pub proof fn lemma_session_order(do_download: bool, do_upload: bool)
    ensures
        actions_from(SessionStage::Latency, do_download, do_upload) == planned_actions(do_download, do_upload),
        planned_actions(do_download, do_upload).contains(SessionAction::RunDownload) <==> do_download,
        planned_actions(do_download, do_upload).contains(SessionAction::RunUpload) <==> do_upload,
{
    reveal_with_fuel(actions_from, 4);
    let p = planned_actions(do_download, do_upload);
    assert(actions_from(SessionStage::Latency, do_download, do_upload) =~= p);
    if do_download {
        assert(p[1] == SessionAction::RunDownload);
    } else {
        assert forall|i: int| 0 <= i < p.len() implies p[i] != SessionAction::RunDownload by {}
    }
    if do_upload {
        assert(p[p.len() - 2] == SessionAction::RunUpload);
    } else {
        assert forall|i: int| 0 <= i < p.len() implies p[i] != SessionAction::RunUpload by {}
    }
}

/// The progress of one test session.
pub struct SessionPlan {
    pub do_download: bool,
    pub do_upload: bool,
    pub stage: SessionStage,
}

impl SessionPlan {
    /// A fresh plan for `config`: every run of a session starts here.
    pub fn new(config: &Config) -> (p: SessionPlan)
        ensures
            p.do_download == config.do_download,
            p.do_upload == config.do_upload,
            p.stage == SessionStage::Latency,
    {
        SessionPlan { do_download: config.do_download, do_upload: config.do_upload, stage: SessionStage::Latency }
    }

    pub fn next_action(&self) -> (a: SessionAction)
        ensures
            a == action_of(self.stage),
    {
        match self.stage {
            SessionStage::Latency => SessionAction::ProbeLatency,
            SessionStage::Download => SessionAction::RunDownload,
            SessionStage::Upload => SessionAction::RunUpload,
            SessionStage::Done => SessionAction::Finish,
        }
    }

    /// The phase the metrics report for the current stage.
    pub fn phase(&self) -> (p: Phase)
        ensures
            p == match self.stage {
                SessionStage::Download => Phase::Download,
                SessionStage::Upload => Phase::Upload,
                _ => Phase::Latency,
            },
    {
        match self.stage {
            SessionStage::Download => Phase::Download,
            SessionStage::Upload => Phase::Upload,
            _ => Phase::Latency,
        }
    }

    /// The current stage ended: on success the plan moves on, on failure the
    /// session ends with the failure of that phase.
    pub fn complete_stage(&mut self, outcome: Result<(), BackendError>) -> (r: Result<(), TestError>)
        requires
            old(self).stage != SessionStage::Done,
        ensures
            final(self).do_download == old(self).do_download,
            final(self).do_upload == old(self).do_upload,
            outcome is Ok ==> r is Ok && final(self).stage == stage_after(
                old(self).stage,
                old(self).do_download,
                old(self).do_upload,
            ),
            outcome matches Err(e) ==> r == Err::<(), TestError>(stage_error(old(self).stage, e))
                && final(self).stage == old(self).stage,
            old(self).stage == SessionStage::Latency ==> (outcome matches Err(e) ==> r == Err::<
                (),
                TestError,
            >(TestError::Latency(e))),
            old(self).stage == SessionStage::Download ==> (outcome matches Err(e) ==> r == Err::<
                (),
                TestError,
            >(TestError::Download(e))),
            old(self).stage == SessionStage::Upload ==> (outcome matches Err(e) ==> r == Err::<
                (),
                TestError,
            >(TestError::Upload(e))),
    {
        match outcome {
            Ok(()) => {
                self.stage = match self.stage {
                    SessionStage::Latency => if self.do_download {
                        SessionStage::Download
                    } else if self.do_upload {
                        SessionStage::Upload
                    } else {
                        SessionStage::Done
                    },
                    SessionStage::Download => if self.do_upload {
                        SessionStage::Upload
                    } else {
                        SessionStage::Done
                    },
                    _ => SessionStage::Done,
                };
                Ok(())
            },
            Err(e) => Err(
                match self.stage {
                    SessionStage::Latency => TestError::Latency(e),
                    SessionStage::Download => TestError::Download(e),
                    SessionStage::Upload => TestError::Upload(e),
                    SessionStage::Done => TestError::Backend(e),
                },
            ),
        }
    }
}

/// What the download stream produced while the phase was running.
pub enum StreamEvent {
    Chunk(u64),
    Failed(BackendError),
    Closed,
    DeadlineReached,
}

/// One step of the download loop: a chunk is counted and the loop goes on,
/// a stream error ends the phase as a download failure, and a closed stream
/// or the end of the phase's duration stops the loop.
pub fn on_download_event(acc: &mut AccumulatorState, ev: StreamEvent) -> (r: Result<bool, TestError>)
    ensures
        ev matches StreamEvent::Chunk(n) ==> r == Ok::<bool, TestError>(true) && final(acc)@ == record_view(
            old(acc)@,
            n,
        ),
        ev matches StreamEvent::Failed(e) ==> r == Err::<bool, TestError>(TestError::Download(e))
            && final(acc)@ == old(acc)@,
        (ev is Closed || ev is DeadlineReached) ==> r == Ok::<bool, TestError>(false) && final(acc)@
            == old(acc)@,
{
    match ev {
        StreamEvent::Chunk(n) => {
            acc.record_bytes(n);
            Ok(true)
        },
        StreamEvent::Failed(e) => Err(TestError::Download(e)),
        StreamEvent::Closed => Ok(false),
        StreamEvent::DeadlineReached => Ok(false),
    }
}

/// One step of the upload loop: a completed fan-out is counted, a failed one
/// ends the phase as an upload failure.
pub fn on_upload_result(acc: &mut AccumulatorState, outcome: Result<UploadResult, BackendError>) -> (r: Result<
    (),
    TestError,
>)
    ensures
        outcome matches Ok(u) ==> r is Ok && final(acc)@ == record_view(old(acc)@, u.bytes_sent),
        outcome matches Err(e) ==> r == Err::<(), TestError>(TestError::Upload(e)) && final(acc)@
            == old(acc)@,
{
    match outcome {
        Ok(u) => {
            acc.record_bytes(u.bytes_sent);
            Ok(())
        },
        Err(e) => Err(TestError::Upload(e)),
    }
}

/// Time left in a phase of `duration_nanos` after `elapsed_nanos`; `None`
/// once the phase has run its course.
pub fn remaining_nanos(duration_nanos: u128, elapsed_nanos: u128) -> (r: Option<u128>)
    ensures
        elapsed_nanos > duration_nanos ==> r is None,
        elapsed_nanos <= duration_nanos ==> r == Some((duration_nanos - elapsed_nanos) as u128),
{
    duration_nanos.checked_sub(elapsed_nanos)
}

/// Whether a phase of `duration_nanos` is still running `elapsed_nanos`
/// after it started: time is left before its end.
pub fn phase_running(duration_nanos: u128, elapsed_nanos: u128) -> (b: bool)
    ensures
        b == (elapsed_nanos < duration_nanos),
{
    match remaining_nanos(duration_nanos, elapsed_nanos) {
        Some(left) => left > 0,
        None => false,
    }
}

/// The length of a phase's measurement window: its running time minus the
/// warm-up, or zero when the warm-up outlasted the phase.
pub fn measurement_window_nanos(elapsed_nanos: u128, warmup_nanos: u128) -> (w: u128)
    ensures
        w == if elapsed_nanos >= warmup_nanos {
            (elapsed_nanos - warmup_nanos) as u128
        } else {
            0
        },
{
    elapsed_nanos.saturating_sub(warmup_nanos)
}

/// A failed phase ends the run with that phase's error carrying the very
/// backend error, whatever its kind: latency failures are latency errors,
/// download failures download errors, upload failures upload errors.
pub proof fn lemma_failures_tagged_by_stage(e: BackendError)
    ensures
        stage_error(SessionStage::Latency, e) == TestError::Latency(e),
        stage_error(SessionStage::Download, e) == TestError::Download(e),
        stage_error(SessionStage::Upload, e) == TestError::Upload(e),
{
}

} // verus!
