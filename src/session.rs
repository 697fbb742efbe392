use vstd::prelude::*;
use crate::text::{decimal, decimal_spec};

verus! {

/// How long the supervisor waits for the event helper to exit after it was
/// signalled.
pub const HELPER_EXIT_TIMEOUT_MS: u64 = 2000;

/// How long the supervisor waits for the encoder to finish on its own once
/// its input has ended, before it kills it.
pub const ENCODER_EXIT_TIMEOUT_MS: u64 = 10000;

/// A start request.
#[derive(Clone, Copy, Debug, PartialEq, Eq, Structural)]
pub struct RecordingOptions {
    pub fps: u32,
    pub show_cursor: bool,
    pub show_highlight: bool,
    pub capture_keystrokes: bool,
}

/// The answer to a state query.
pub struct RecordingState {
    pub is_recording: bool,
    pub duration: u64,
    pub error: Option<String>,
}

/// Where a session stands: `Idle -> Starting -> Recording -> Stopping ->
/// Idle`, and `Failed` when starting or the output check went wrong.
#[derive(Clone, Copy, Debug, PartialEq, Eq, Structural)]
pub enum Phase {
    Idle,
    Starting,
    Recording,
    Stopping,
    Failed,
}

#[derive(Clone, Debug)]
pub enum StartError {
    AlreadyRecording,
    UnsupportedPlatform,
    PermissionDenied,
    SourceInitFailed(String),
}

#[derive(Clone, Debug)]
pub enum StopError {
    NotRecording,
    OutputValidationFailed(String),
}

/// What the supervisor has to do to shut a session down, in this order:
/// the liveness flag is already down; signal the helper when there is one
/// and wait for it; wait for the encoder; check `output_file`.
pub struct StopPlan {
    pub terminate_helper: bool,
    pub output_file: String,
}

/// What to do while waiting for a child process to exit.
#[derive(Clone, Copy, Debug, PartialEq, Eq, Structural)]
pub enum ExitWait {
    Exited,
    KeepWaiting,
    ForceKill,
}

pub open spec fn output_file_spec(session_dir: Seq<char>) -> Seq<char> {
    session_dir + "/output.mp4"@
}

/// The encoder's command line: raw BGRA frames of `width` by `height` at
/// `fps` frames per second on its standard input, one H.264 file out.
pub open spec fn encoder_args_spec(width: nat, height: nat, fps: nat, output: Seq<char>) -> Seq<
    Seq<char>,
> {
    seq![
        "-y"@,
        "-f"@,
        "rawvideo"@,
        "-pix_fmt"@,
        "bgra"@,
        "-s"@,
        decimal_spec(width) + "x"@ + decimal_spec(height),
        "-r"@,
        decimal_spec(fps),
        "-i"@,
        "-"@,
        "-c:v"@,
        "libx264"@,
        "-preset"@,
        "ultrafast"@,
        "-pix_fmt"@,
        "yuv420p"@,
        output,
    ]
}

pub open spec fn views(v: Seq<String>) -> Seq<Seq<char>> {
    v.map_values(|s: String| s@)
}

/// Whole seconds from `started_ms` to `now_ms` (zero if the clock reads
/// earlier).
pub open spec fn elapsed_secs(started_ms: u64, now_ms: u64) -> nat {
    if now_ms >= started_ms {
        ((now_ms - started_ms) / 1000) as nat
    } else {
        0
    }
}

/// The command-line arguments of the encoder process.
pub fn encoder_args(width: u32, height: u32, fps: u32, output: &String) -> (r: Vec<String>)
    ensures
        views(r@) == encoder_args_spec(width as nat, height as nat, fps as nat, output@),
{
    let mut v: Vec<String> = Vec::new();
    v.push(String::from_str("-y"));
    v.push(String::from_str("-f"));
    v.push(String::from_str("rawvideo"));
    v.push(String::from_str("-pix_fmt"));
    v.push(String::from_str("bgra"));
    v.push(String::from_str("-s"));
    let size = decimal(width as u64).concat("x").concat(decimal(height as u64).as_str());
    v.push(size);
    v.push(String::from_str("-r"));
    v.push(decimal(fps as u64));
    v.push(String::from_str("-i"));
    v.push(String::from_str("-"));
    v.push(String::from_str("-c:v"));
    v.push(String::from_str("libx264"));
    v.push(String::from_str("-preset"));
    v.push(String::from_str("ultrafast"));
    v.push(String::from_str("-pix_fmt"));
    v.push(String::from_str("yuv420p"));
    v.push(output.clone());
    proof {
        assert(views(v@) =~= encoder_args_spec(width as nat, height as nat, fps as nat, output@));
    }
    v
}

/// The decision while waiting for a child to exit: done once it exited;
/// killed once `limit_ms` has passed without that.
pub fn exit_wait(exited: bool, waited_ms: u64, limit_ms: u64) -> (r: ExitWait)
    ensures
        exited ==> r == ExitWait::Exited,
        !exited && waited_ms < limit_ms ==> r == ExitWait::KeepWaiting,
        !exited && waited_ms >= limit_ms ==> r == ExitWait::ForceKill,
{
    if exited {
        ExitWait::Exited
    } else if waited_ms < limit_ms {
        ExitWait::KeepWaiting
    } else {
        ExitWait::ForceKill
    }
}

/// The session's lifecycle as the process supervisor sees it. At most one
/// session is live (starting, recording or stopping) at a time.
pub struct Supervisor {
    phase: Phase,
    capture_keystrokes: bool,
    helper_running: bool,
    fps: u32,
    started_at_ms: Option<u64>,
    session_dir: Option<String>,
}

impl Supervisor {
    pub closed spec fn phase_spec(&self) -> Phase {
        self.phase
    }

    /// Whether the event helper process is running for this session.
    pub closed spec fn has_helper(&self) -> bool {
        self.helper_running
    }

    /// Whether the live session asked for input events.
    pub closed spec fn wants_events(&self) -> bool {
        self.capture_keystrokes
    }

    pub closed spec fn fps_spec(&self) -> nat {
        self.fps as nat
    }

    pub closed spec fn started_at(&self) -> Option<u64> {
        self.started_at_ms
    }

    pub closed spec fn session_dir_spec(&self) -> Option<Seq<char>> {
        match self.session_dir {
            Some(d) => Some(d@),
            None => None,
        }
    }

    pub open spec fn is_live(&self) -> bool {
        self.phase_spec() == Phase::Starting || self.phase_spec() == Phase::Recording
            || self.phase_spec() == Phase::Stopping
    }

    pub closed spec fn wf(&self) -> bool {
        &&& (self.phase == Phase::Recording || self.phase == Phase::Stopping) <==> self.session_dir
            is Some
        &&& (self.phase == Phase::Recording || self.phase == Phase::Stopping)
            <==> self.started_at_ms is Some
        &&& self.helper_running ==> self.phase == Phase::Starting || self.phase
            == Phase::Recording || self.phase == Phase::Stopping
        &&& self.phase == Phase::Recording ==> self.fps >= 1
    }

    pub fn new() -> (r: Self)
        ensures
            r.wf(),
            r.phase_spec() == Phase::Idle,
            !r.has_helper(),
            r.started_at() is None,
            r.session_dir_spec() is None,
    {
        Supervisor {
            phase: Phase::Idle,
            capture_keystrokes: false,
            helper_running: false,
            fps: 0,
            started_at_ms: None,
            session_dir: None,
        }
    }

    pub fn phase(&self) -> (r: Phase)
        ensures
            r == self.phase_spec(),
    {
        self.phase
    }

    pub fn is_recording(&self) -> (r: bool)
        ensures
            r == (self.phase_spec() == Phase::Recording),
    {
        self.phase == Phase::Recording
    }

    /// The first step of a start request: refused while a session is live
    /// (which is left as it was), and failed when the platform cannot
    /// capture or the user denied permission; otherwise the session starts.
    pub fn begin_start(&mut self, opts: &RecordingOptions, supported: bool, permitted: bool) -> (r:
        Result<(), StartError>)
        requires
            old(self).wf(),
        ensures
            final(self).wf(),
            old(self).is_live() ==> r == Err::<(), StartError>(StartError::AlreadyRecording)
                && *final(self) == *old(self),
            !old(self).is_live() && !supported ==> r == Err::<(), StartError>(
                StartError::UnsupportedPlatform,
            ) && final(self).phase_spec() == Phase::Failed,
            !old(self).is_live() && supported && !permitted ==> r == Err::<(), StartError>(
                StartError::PermissionDenied,
            ) && final(self).phase_spec() == Phase::Failed,
            !old(self).is_live() && supported && permitted ==> r is Ok && final(self).phase_spec()
                == Phase::Starting && final(self).wants_events() == opts.capture_keystrokes
                && !final(self).has_helper(),
    {
        if self.phase == Phase::Starting || self.phase == Phase::Recording || self.phase
            == Phase::Stopping {
            return Err(StartError::AlreadyRecording);
        }
        self.helper_running = false;
        self.started_at_ms = None;
        self.session_dir = None;
        if !supported {
            self.phase = Phase::Failed;
            return Err(StartError::UnsupportedPlatform);
        }
        if !permitted {
            self.phase = Phase::Failed;
            return Err(StartError::PermissionDenied);
        }
        self.phase = Phase::Starting;
        self.capture_keystrokes = opts.capture_keystrokes;
        Ok(())
    }

    /// Notes that the event helper was spawned for the starting session.
    pub fn helper_spawned(&mut self)
        requires
            old(self).wf(),
            old(self).phase_spec() == Phase::Starting,
        ensures
            final(self).wf(),
            final(self).phase_spec() == Phase::Starting,
            final(self).has_helper(),
            final(self).wants_events() == old(self).wants_events(),
    {
        self.helper_running = true;
    }

    /// A start that failed after its first step (the source or a process
    /// could not be set up): the session fails. Returns the error, and
    /// whether a helper that was already spawned has to be terminated.
    pub fn abort_start(&mut self, reason: String) -> (r: (StartError, bool))
        requires
            old(self).wf(),
            old(self).phase_spec() == Phase::Starting,
        ensures
            final(self).wf(),
            final(self).phase_spec() == Phase::Failed,
            !final(self).has_helper(),
            r.0 == StartError::SourceInitFailed(reason),
            r.1 == old(self).has_helper(),
    {
        let had_helper = self.helper_running;
        self.helper_running = false;
        self.phase = Phase::Failed;
        (StartError::SourceInitFailed(reason), had_helper)
    }

    /// The pipeline runs: the session records at `fps` into `session_dir`
    /// from `now_ms` on.
    pub fn finish_start(&mut self, session_dir: String, fps: u32, now_ms: u64)
        requires
            old(self).wf(),
            old(self).phase_spec() == Phase::Starting,
            fps >= 1,
        ensures
            final(self).wf(),
            final(self).phase_spec() == Phase::Recording,
            final(self).started_at() == Some(now_ms),
            final(self).session_dir_spec() == Some(session_dir@),
            final(self).fps_spec() == fps,
            final(self).has_helper() == old(self).has_helper(),
    {
        self.phase = Phase::Recording;
        self.session_dir = Some(session_dir);
        self.fps = fps;
        self.started_at_ms = Some(now_ms);
    }

    /// A stop request. Refused, with nothing changed, unless a session is
    /// recording; otherwise the session moves to stopping and the shutdown
    /// plan comes back.
    pub fn begin_stop(&mut self) -> (r: Result<StopPlan, StopError>)
        requires
            old(self).wf(),
        ensures
            final(self).wf(),
            old(self).phase_spec() != Phase::Recording ==> r is Err && r->Err_0
                == StopError::NotRecording && *final(self) == *old(self),
            old(self).phase_spec() == Phase::Recording ==> r is Ok && final(self).phase_spec()
                == Phase::Stopping && r->Ok_0.terminate_helper == old(self).has_helper()
                && r->Ok_0.output_file@ == output_file_spec(
                old(self).session_dir_spec().unwrap(),
            ) && final(self).session_dir_spec() == old(self).session_dir_spec()
                && final(self).has_helper() == old(self).has_helper(),
    {
        if self.phase != Phase::Recording {
            return Err(StopError::NotRecording);
        }
        let dir = match &self.session_dir {
            Some(d) => d.clone(),
            None => String::new(),
        };
        self.phase = Phase::Stopping;
        Ok(StopPlan { terminate_helper: self.helper_running, output_file: dir.concat("/output.mp4") })
    }

    /// Ends a stop once every process is gone, from the size of the output
    /// file (`None`: it does not exist). A missing or empty file fails the
    /// session; otherwise it is over and the file's path comes back.
    pub fn finish_stop(&mut self, artifact_len: Option<u64>) -> (r: Result<String, StopError>)
        requires
            old(self).wf(),
            old(self).phase_spec() == Phase::Stopping,
        ensures
            final(self).wf(),
            !final(self).has_helper(),
            final(self).started_at() is None,
            match artifact_len {
                Some(n) => n > 0,
                None => false,
            } ==> r is Ok && r->Ok_0@ == output_file_spec(old(self).session_dir_spec().unwrap())
                && final(self).phase_spec() == Phase::Idle,
            !match artifact_len {
                Some(n) => n > 0,
                None => false,
            } ==> r is Err && r->Err_0 is OutputValidationFailed && final(self).phase_spec()
                == Phase::Failed,
            artifact_len == Some(0u64) ==> r is Err && r->Err_0 is OutputValidationFailed
                && r->Err_0->OutputValidationFailed_0@ == "Recording failed: output file is empty"@,
            artifact_len is None ==> r is Err && r->Err_0 is OutputValidationFailed
                && r->Err_0->OutputValidationFailed_0@ == "Recording failed: output file is missing"@,
    {
        let dir = match &self.session_dir {
            Some(d) => d.clone(),
            None => String::new(),
        };
        let out = dir.concat("/output.mp4");
        self.helper_running = false;
        self.started_at_ms = None;
        self.session_dir = None;
        match artifact_len {
            Some(n) => {
                if n > 0 {
                    self.phase = Phase::Idle;
                    Ok(out)
                } else {
                    self.phase = Phase::Failed;
                    Err(
                        StopError::OutputValidationFailed(
                            String::from_str("Recording failed: output file is empty"),
                        ),
                    )
                }
            },
            None => {
                self.phase = Phase::Failed;
                Err(
                    StopError::OutputValidationFailed(
                        String::from_str("Recording failed: output file is missing"),
                    ),
                )
            },
        }
    }

    /// The state query; it never fails.
    pub fn state(&self, now_ms: u64) -> (r: RecordingState)
        requires
            self.wf(),
        ensures
            r.is_recording == (self.phase_spec() == Phase::Recording),
            r.duration == match self.started_at() {
                Some(t) => elapsed_secs(t, now_ms),
                None => 0,
            },
            r.error is None,
    {
        let duration = match self.started_at_ms {
            Some(t) => if now_ms >= t {
                (now_ms - t) / 1000
            } else {
                0
            },
            None => 0,
        };
        RecordingState { is_recording: self.phase == Phase::Recording, duration, error: None }
    }
}

} // verus!
