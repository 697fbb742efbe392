use vstd::prelude::*;
use crate::pacing::NANOS_PER_SEC;
use crate::session::elapsed_secs;
use crate::text::{decimal, decimal_spec, padded_spec, zero_padded};

verus! {

/// The frame rate at which saved frames are compiled into a video.
pub const COMPILE_FRAME_RATE: u32 = 30;

/// Settings of a frame-dumping recording.
#[derive(Clone, Debug)]
pub struct RecordingOptions {
    pub audio: bool,
    pub video: bool,
    pub frame_rate: i32,
    pub quality: String,
    pub fps: u32,
    pub output_path: String,
}

/// The answer to a state query of a frame-dumping recording.
#[derive(Clone, Debug)]
pub struct RecordingState {
    pub is_recording: bool,
    pub duration: u64,
    pub output_path: Option<String>,
    pub error: Option<String>,
}

/// A recording that saves each captured frame as a numbered image in a
/// session directory, and compiles them into a video when it stops.
pub struct Recording {
    is_recording: bool,
    start_time_ms: Option<u64>,
    options: RecordingOptions,
    screenshots_dir: String,
    mouse_events_file: String,
}

pub open spec fn frame_name_spec(count: nat) -> Seq<char> {
    "frame_"@ + padded_spec(count, 6) + ".png"@
}

/// Nanoseconds to sleep after a frame that took `elapsed_ns`, so that frames
/// start one frame interval apart.
pub open spec fn pause_spec(fps: nat, elapsed_ns: nat) -> nat {
    let interval = NANOS_PER_SEC as nat / fps;
    if elapsed_ns < interval {
        (interval - elapsed_ns) as nat
    } else {
        0
    }
}

/// The encoder's command line that turns the numbered images under
/// `frames_dir` into `output_video`.
pub open spec fn compile_args_spec(frames_dir: Seq<char>, output_video: Seq<char>, rate: nat) -> Seq<
    Seq<char>,
> {
    seq![
        "-framerate"@,
        decimal_spec(rate),
        "-i"@,
        frames_dir + "/frame_%06d.png"@,
        "-c:v"@,
        "libx264"@,
        "-pix_fmt"@,
        "yuv420p"@,
        output_video,
    ]
}

/// The name of the `count`-th saved frame: `frame_000042.png`.
pub fn frame_file_name(count: u64) -> (r: String)
    ensures
        r@ == frame_name_spec(count as nat),
{
    String::from_str("frame_").concat(zero_padded(count, 6).as_str()).concat(".png")
}

/// How long to sleep after a frame that took `elapsed_ns` to capture and
/// save.
pub fn frame_pause_ns(fps: u32, elapsed_ns: u64) -> (r: u64)
    requires
        fps >= 1,
    ensures
        r == pause_spec(fps as nat, elapsed_ns as nat),
{
    let interval = NANOS_PER_SEC / fps as u64;
    if elapsed_ns < interval {
        interval - elapsed_ns
    } else {
        0
    }
}

/// The arguments of the encoder run that compiles the saved frames.
pub fn compile_args(frames_dir: &String, output_video: &String, rate: u32) -> (r: Vec<String>)
    ensures
        r@.map_values(|s: String| s@) == compile_args_spec(frames_dir@, output_video@, rate as nat),
{
    let mut v: Vec<String> = Vec::new();
    v.push(String::from_str("-framerate"));
    v.push(decimal(rate as u64));
    v.push(String::from_str("-i"));
    v.push(frames_dir.clone().concat("/frame_%06d.png"));
    v.push(String::from_str("-c:v"));
    v.push(String::from_str("libx264"));
    v.push(String::from_str("-pix_fmt"));
    v.push(String::from_str("yuv420p"));
    v.push(output_video.clone());
    proof {
        assert(v@.map_values(|s: String| s@) =~= compile_args_spec(
            frames_dir@,
            output_video@,
            rate as nat,
        ));
    }
    v
}

/// Numbers the saved frames: a frame gets the next index when it was
/// captured, and a failed capture uses none.
pub struct FrameCounter {
    next: u64,
}

impl FrameCounter {
    pub closed spec fn index_spec(&self) -> nat {
        self.next as nat
    }

    pub fn new() -> (r: Self)
        ensures
            r.index_spec() == 0,
    {
        FrameCounter { next: 0 }
    }

    /// The index the next captured frame is saved under.
    pub fn index(&self) -> (r: u64)
        ensures
            r == self.index_spec(),
    {
        self.next
    }

    /// Moves past the current index when the frame was captured (whether or
    /// not saving it then worked). The last index, `u64::MAX`, is reused.
    pub fn advance(&mut self, captured: bool)
        ensures
            final(self).index_spec() == if captured && old(self).index_spec() < u64::MAX {
                old(self).index_spec() + 1
            } else {
                old(self).index_spec()
            },
    {
        if captured && self.next < u64::MAX {
            self.next = self.next + 1;
        }
    }
}

impl Recording {
    pub closed spec fn recording(&self) -> bool {
        self.is_recording
    }

    pub closed spec fn start_time(&self) -> Option<u64> {
        self.start_time_ms
    }

    pub closed spec fn options_spec(&self) -> RecordingOptions {
        self.options
    }

    pub closed spec fn screenshots_dir_spec(&self) -> Seq<char> {
        self.screenshots_dir@
    }

    pub closed spec fn mouse_events_file_spec(&self) -> Seq<char> {
        self.mouse_events_file@
    }

    /// A recording, not yet started, whose files go under `session_dir`:
    /// frames in its `screenshots` directory, pointer events in
    /// `mouse_events.json`. It records at 30 frames per second until a start
    /// request says otherwise.
    pub fn new(session_dir: String) -> (r: Self)
        ensures
            !r.recording(),
            r.start_time() is None,
            r.screenshots_dir_spec() == session_dir@ + "/screenshots"@,
            r.mouse_events_file_spec() == session_dir@ + "/mouse_events.json"@,
            r.options_spec().output_path@ == session_dir@,
            r.options_spec().fps == 30,
            r.options_spec().frame_rate == 30,
            r.options_spec().audio,
            r.options_spec().video,
            r.options_spec().quality@ == "high"@,
    {
        let screenshots_dir = session_dir.clone().concat("/screenshots");
        let mouse_events_file = session_dir.clone().concat("/mouse_events.json");
        Recording {
            is_recording: false,
            start_time_ms: None,
            options: RecordingOptions {
                audio: true,
                video: true,
                frame_rate: 30,
                quality: String::from_str("high"),
                fps: 30,
                output_path: session_dir,
            },
            screenshots_dir,
            mouse_events_file,
        }
    }

    pub fn screenshots_dir(&self) -> (r: &String)
        ensures
            r@ == self.screenshots_dir_spec(),
    {
        &self.screenshots_dir
    }

    pub fn mouse_events_file(&self) -> (r: &String)
        ensures
            r@ == self.mouse_events_file_spec(),
    {
        &self.mouse_events_file
    }

    pub fn options(&self) -> (r: &RecordingOptions)
        ensures
            *r == self.options_spec(),
    {
        &self.options
    }

    /// Starts recording with `options` at `now_ms`; refused, with nothing
    /// changed, while a recording is in progress.
    pub fn start_recording(&mut self, options: RecordingOptions, now_ms: u64) -> (r: Result<
        (),
        String,
    >)
        ensures
            old(self).recording() ==> r is Err && r->Err_0@ == "Recording is already in progress"@
                && *final(self) == *old(self),
            !old(self).recording() ==> r is Ok && final(self).recording() && final(self).start_time()
                == Some(now_ms) && final(self).options_spec() == options
                && final(self).screenshots_dir_spec() == old(self).screenshots_dir_spec()
                && final(self).mouse_events_file_spec() == old(self).mouse_events_file_spec(),
    {
        if self.is_recording {
            return Err(String::from_str("Recording is already in progress"));
        }
        self.options = options;
        self.is_recording = true;
        self.start_time_ms = Some(now_ms);
        Ok(())
    }

    /// Stops the recording. Refused, with nothing changed, when none is in
    /// progress; otherwise returns the path of the video to compile the
    /// frames into, `<output_path>/output.mp4`.
    pub fn stop_recording(&mut self) -> (r: Result<String, String>)
        ensures
            !old(self).recording() ==> r is Err && r->Err_0@ == "No recording in progress"@
                && *final(self) == *old(self),
            old(self).recording() ==> r is Ok && r->Ok_0@ == old(self).options_spec().output_path@
                + "/output.mp4"@ && !final(self).recording() && final(self).start_time()
                == old(self).start_time() && final(self).options_spec() == old(
                self,
            ).options_spec(),
    {
        if !self.is_recording {
            return Err(String::from_str("No recording in progress"));
        }
        self.is_recording = false;
        Ok(self.options.output_path.clone().concat("/output.mp4"))
    }

    /// Where the frames to compile are read from: `<output_path>/screenshots`.
    pub fn frames_dir(&self) -> (r: String)
        ensures
            r@ == self.options_spec().output_path@ + "/screenshots"@,
    {
        self.options.output_path.clone().concat("/screenshots")
    }

    /// The path of the `count`-th frame under the screenshots directory.
    pub fn frame_path(&self, count: u64) -> (r: String)
        ensures
            r@ == self.screenshots_dir_spec() + "/"@ + frame_name_spec(count as nat),
    {
        self.screenshots_dir.clone().concat("/").concat(frame_file_name(count).as_str())
    }

    /// The state at `now_ms`: the time since the last start, in whole
    /// seconds, and the output directory while recording.
    pub fn get_state(&self, now_ms: u64) -> (r: RecordingState)
        ensures
            r.is_recording == self.recording(),
            r.duration == match self.start_time() {
                Some(t) => elapsed_secs(t, now_ms),
                None => 0,
            },
            self.recording() ==> r.output_path is Some && r.output_path->Some_0@
                == self.options_spec().output_path@,
            !self.recording() ==> r.output_path is None,
            r.error is None,
    {
        let duration = match self.start_time_ms {
            Some(t) => if now_ms >= t {
                (now_ms - t) / 1000
            } else {
                0
            },
            None => 0,
        };
        let output_path = if self.is_recording {
            Some(self.options.output_path.clone())
        } else {
            None
        };
        RecordingState { is_recording: self.is_recording, duration, output_path, error: None }
    }
}

} // verus!
