//! The recording loop: pacing frame writes against the wall clock.
//!
//! The loop is driven from outside. Each pass the driver reports whether the
//! exclusivity guard is still held and how long the recording has run; the
//! session answers with the one thing to do in this pass.

use crate::capture::DeviceProperties;
use crate::codec::{codec_tag, fourcc_of, Codec};
use crate::error::{CaptureError, CaptureErrorView, PlatformError};
use crate::guard::ExclusivityGuard;
use vstd::arithmetic::div_mod::{lemma_div_is_ordered, lemma_div_plus_one};
use vstd::arithmetic::mul::lemma_mul_inequality;
use vstd::prelude::*;
use vstd::string::*;

verus! {

/// Where a recording stands.
#[derive(Clone, Copy, Debug, PartialEq, Eq, Structural)]
pub enum RecorderState {
    /// The writer exists and the guard is held; the loop has not run yet.
    Armed,
    /// The loop is running.
    Running,
    /// The loop has seen the guard cleared; the writer is to be finalized.
    Finished,
}

/// Where a recording stands once the guard is taken into account.
#[derive(Clone, Copy, Debug, PartialEq, Eq, Structural)]
pub enum RecorderStage {
    /// No loop runs and no writer exists.
    Idle,
    /// The writer exists and the guard is held; the loop has not run yet.
    Armed,
    /// The loop runs and the guard is held.
    Running,
    /// The guard was cleared; the loop has yet to notice and leave.
    Draining,
}

/// What the driver does in one pass of the loop.
#[derive(Clone, Copy, Debug, PartialEq, Eq, Structural)]
pub enum RecorderAction {
    /// Read one frame and write it if the read succeeded.
    CaptureFrame,
    /// Sleep for this many milliseconds.
    Sleep(u64),
    /// Leave the loop and finalize the writer.
    Finish,
}

/// An admitted recording; the device's frame rate and frame size are to be read.
#[derive(Debug)]
pub struct RecordingSetup {
    path: String,
    codec: Codec,
}

/// A recording whose writer is to be opened.
#[derive(Debug)]
pub struct WriterRequest {
    path: String,
    fourcc: i32,
    properties: DeviceProperties,
}

/// What a writer is opened with.
pub struct WriterParams {
    pub path: Seq<char>,
    pub fourcc: i32,
    pub properties: DeviceProperties,
}

impl View for RecordingSetup {
    type V = (Seq<char>, Codec);

    closed spec fn view(&self) -> (Seq<char>, Codec) {
        (self.path@, self.codec)
    }
}

impl View for WriterRequest {
    type V = WriterParams;

    closed spec fn view(&self) -> WriterParams {
        WriterParams { path: self.path@, fourcc: self.fourcc, properties: self.properties }
    }
}

impl RecordingSetup {
    pub(crate) fn begin(file_path: &str, codec: Codec) -> (setup: RecordingSetup)
        ensures
            setup@ == (file_path@, codec),
    {
        RecordingSetup { path: String::from_str(file_path), codec }
    }

    /// The path of the video file.
    pub fn file_path(&self) -> (path: &str)
        ensures
            path@ == self@.0,
    {
        self.path.as_str()
    }

    /// The codec to record with.
    pub fn codec(&self) -> (codec: Codec)
        ensures
            codec == self@.1,
    {
        self.codec
    }

    /// Goes on once the device's frame rate and frame size were read. A
    /// platform failure ends the recording before it began and clears the
    /// guard. Otherwise a writer is to be opened for the file, tagged with
    /// the codec's FourCC, at the frame rate and size that the device
    /// reports; the guard stays as it is.
    pub fn properties_read(
        self,
        guard: &mut ExclusivityGuard,
        properties: Result<DeviceProperties, PlatformError>,
    ) -> (next: Result<WriterRequest, CaptureError>)
        ensures
            match properties {
                Ok(p) => next matches Ok(request) && request@ == (WriterParams {
                    path: self@.0,
                    fourcc: fourcc_of(codec_tag(self@.1)) as i32,
                    properties: p,
                }) && *final(guard) == *old(guard),
                Err(e) => next matches Err(err) && err@ == CaptureErrorView::OpenCv(e@)
                    && *final(guard) == old(guard).cleared(),
            },
    {
        match properties {
            Ok(p) => Ok(
                WriterRequest { path: self.path, fourcc: self.codec.fourcc(), properties: p },
            ),
            Err(e) => {
                guard.release();
                Err(CaptureError::OpenCv(e))
            },
        }
    }
}

impl WriterRequest {
    /// The path of the video file.
    pub fn file_path(&self) -> (path: &str)
        ensures
            path@ == self@.path,
    {
        self.path.as_str()
    }

    /// The FourCC tag of the codec.
    pub fn fourcc(&self) -> (code: i32)
        ensures
            code == self@.fourcc,
    {
        self.fourcc
    }

    /// The frame rate and frame size to write at.
    pub fn properties(&self) -> (properties: DeviceProperties)
        ensures
            properties == self@.properties,
    {
        self.properties
    }

    /// Goes on once the writer was asked to open. A platform failure ends
    /// the recording before it began and clears the guard. Otherwise the
    /// recording is armed: the writer exists, the guard is held as it was,
    /// and the loop may be started.
    pub fn writer_opened(self, guard: &mut ExclusivityGuard, opened: Result<(), PlatformError>) -> (next:
        Result<RecordingSession, CaptureError>)
        ensures
            match opened {
                Ok(_) => next matches Ok(session) && session@ == (SessionView {
                    fps: self@.properties.fps,
                    frames_written: 0,
                    state: RecorderState::Armed,
                }) && *final(guard) == *old(guard),
                Err(e) => next matches Err(err) && err@ == CaptureErrorView::OpenCv(e@)
                    && *final(guard) == old(guard).cleared(),
            },
    {
        match opened {
            Ok(_) => Ok(RecordingSession::armed(self.properties.fps)),
            Err(e) => {
                guard.release();
                Err(CaptureError::OpenCv(e))
            },
        }
    }
}

/// The pacing state of one recording.
#[derive(Debug)]
pub struct RecordingSession {
    fps: u32,
    frames_written: u64,
    state: RecorderState,
}

/// A `RecordingSession` as plain values.
pub struct SessionView {
    pub fps: u32,
    pub frames_written: u64,
    pub state: RecorderState,
}

/// One pass of the loop as the driver reports it.
pub struct Tick {
    pub guard_held: bool,
    pub elapsed_nanos: nat,
}

/// The number of frames due after `elapsed_nanos` at `fps` frames a second:
/// the whole part of elapsed seconds times fps, capped at what the frame
/// counter can hold.
pub open spec fn target_frame_count(elapsed_nanos: nat, fps: nat) -> nat {
    let due = (elapsed_nanos * fps) / 1_000_000_000;
    if due > u64::MAX {
        u64::MAX as nat
    } else {
        due
    }
}

/// Half a frame period in whole milliseconds.
pub open spec fn half_frame_period_ms(fps: nat) -> nat {
    500nat / fps
}

/// One pass: stop once the guard is cleared; otherwise take a frame while
/// the count is behind the clock, and sleep half a frame period when it is not.
pub open spec fn after_poll(s: SessionView, tick: Tick) -> (SessionView, RecorderAction) {
    if s.state == RecorderState::Finished || !tick.guard_held {
        (SessionView { state: RecorderState::Finished, ..s }, RecorderAction::Finish)
    } else if s.frames_written < target_frame_count(tick.elapsed_nanos, s.fps as nat) {
        (
            SessionView {
                frames_written: (s.frames_written + 1) as u64,
                state: RecorderState::Running,
                ..s
            },
            RecorderAction::CaptureFrame,
        )
    } else {
        (
            SessionView { state: RecorderState::Running, ..s },
            RecorderAction::Sleep(half_frame_period_ms(s.fps as nat) as u64),
        )
    }
}

/// The stage of a recording whose guard is held or not.
pub open spec fn stage_of(s: SessionView, guard_held: bool) -> RecorderStage {
    match s.state {
        RecorderState::Finished => RecorderStage::Idle,
        RecorderState::Armed => if guard_held {
            RecorderStage::Armed
        } else {
            RecorderStage::Draining
        },
        RecorderState::Running => if guard_held {
            RecorderStage::Running
        } else {
            RecorderStage::Draining
        },
    }
}

/// The session after a sequence of passes.
pub open spec fn after_polls(s: SessionView, ticks: Seq<Tick>) -> SessionView
    decreases ticks.len(),
{
    if ticks.len() == 0 {
        s
    } else {
        after_poll(after_polls(s, ticks.drop_last()), ticks.last()).0
    }
}

/// The clock does not run backwards between passes.
pub open spec fn clock_advances(ticks: Seq<Tick>) -> bool {
    forall|i: int, j: int|
        0 <= i <= j < ticks.len() ==> (#[trigger] ticks[i]).elapsed_nanos <= (
        #[trigger] ticks[j]).elapsed_nanos
}

impl View for RecordingSession {
    type V = SessionView;

    closed spec fn view(&self) -> SessionView {
        SessionView { fps: self.fps, frames_written: self.frames_written, state: self.state }
    }
}

/// Computes the number of frames due.
pub fn frames_due(elapsed_nanos: u128, fps: u32) -> (due: u64)
    ensures
        due == target_frame_count(elapsed_nanos as nat, fps as nat),
{
    match elapsed_nanos.checked_mul(fps as u128) {
        Some(scaled) => {
            let due: u128 = scaled / 1_000_000_000;
            if due > 0xFFFF_FFFF_FFFF_FFFF {
                u64::MAX
            } else {
                due as u64
            }
        },
        None => {
            proof {
                let scaled: int = elapsed_nanos as int * fps as int;
                assert(scaled > u128::MAX);
                lemma_div_is_ordered(u128::MAX as int, scaled, 1_000_000_000);
                assert(0xFFFF_FFFF_FFFF_FFFF_FFFF_FFFF_FFFF_FFFFint / 1_000_000_000 > 0xFFFF_FFFF_FFFF_FFFF);
            }
            u64::MAX
        },
    }
}

impl RecordingSession {
    /// A session for a writer that was just opened at `fps` frames a second.
    pub(crate) fn armed(fps: u32) -> (session: RecordingSession)
        ensures
            session@ == (SessionView { fps, frames_written: 0, state: RecorderState::Armed }),
    {
        RecordingSession { fps, frames_written: 0, state: RecorderState::Armed }
    }

    /// The frame rate that the recording is paced at.
    pub fn fps(&self) -> (fps: u32)
        ensures
            fps == self@.fps,
    {
        self.fps
    }

    /// The number of frames taken so far.
    pub fn frames_written(&self) -> (count: u64)
        ensures
            count == self@.frames_written,
    {
        self.frames_written
    }

    /// Where the recording stands.
    pub fn state(&self) -> (state: RecorderState)
        ensures
            state == self@.state,
    {
        self.state
    }

    /// Where the recording stands, given whether the guard is held.
    pub fn stage(&self, guard_held: bool) -> (stage: RecorderStage)
        ensures
            stage == stage_of(self@, guard_held),
    {
        match self.state {
            RecorderState::Finished => RecorderStage::Idle,
            RecorderState::Armed => if guard_held {
                RecorderStage::Armed
            } else {
                RecorderStage::Draining
            },
            RecorderState::Running => if guard_held {
                RecorderStage::Running
            } else {
                RecorderStage::Draining
            },
        }
    }

    /// Decides one pass of the loop. The frame rate must not be zero: half
    /// a frame period is then undefined.
    pub fn poll(&mut self, guard_held: bool, elapsed_nanos: u128) -> (action: RecorderAction)
        requires
            old(self)@.fps > 0,
        ensures
            (final(self)@, action) == after_poll(
                old(self)@,
                (Tick { guard_held, elapsed_nanos: elapsed_nanos as nat }),
            ),
    {
        if !guard_held {
            self.state = RecorderState::Finished;
            return RecorderAction::Finish;
        }
        match self.state {
            RecorderState::Finished => RecorderAction::Finish,
            _ => {
                self.state = RecorderState::Running;
                if self.frames_written < frames_due(elapsed_nanos, self.fps) {
                    self.frames_written = self.frames_written + 1;
                    RecorderAction::CaptureFrame
                } else {
                    let pause: u64 = 500 / (self.fps as u64);
                    RecorderAction::Sleep(pause)
                }
            },
        }
    }
}

/// More time never lowers the number of frames due.
pub proof fn lemma_target_grows_with_time(earlier: nat, later: nat, fps: nat)
    requires
        earlier <= later,
    ensures
        target_frame_count(earlier, fps) <= target_frame_count(later, fps),
{
    lemma_mul_inequality(earlier as int, later as int, fps as int);
    lemma_div_is_ordered((earlier * fps) as int, (later * fps) as int, 1_000_000_000);
}

/// Pacing: while the clock does not run backwards, a recording that starts
/// no further than its first pass allows never holds more frames than are
/// due at the latest pass, takes at most one frame per pass, and has caught
/// up with the clock whenever it is told to sleep.
pub proof fn lemma_frames_follow_the_clock(s: SessionView, ticks: Seq<Tick>)
    requires
        clock_advances(ticks),
        ticks.len() > 0,
        s.frames_written <= target_frame_count(ticks[0].elapsed_nanos, s.fps as nat),
    ensures
        after_polls(s, ticks).fps == s.fps,
        after_polls(s, ticks).frames_written >= s.frames_written,
        after_polls(s, ticks).frames_written <= s.frames_written + ticks.len(),
        after_polls(s, ticks).frames_written <= target_frame_count(
            ticks.last().elapsed_nanos,
            s.fps as nat,
        ),
        after_poll(after_polls(s, ticks.drop_last()), ticks.last()).1 is Sleep ==> after_polls(
            s,
            ticks,
        ).frames_written == target_frame_count(ticks.last().elapsed_nanos, s.fps as nat),
    decreases ticks.len(),
{
    let before = ticks.drop_last();
    let last = ticks.last();
    if before.len() == 0 {
        assert(after_polls(s, before) == s);
        assert(ticks[0] == last);
    } else {
        assert forall|i: int, j: int| 0 <= i <= j < before.len() implies (
        #[trigger] before[i]).elapsed_nanos <= (#[trigger] before[j]).elapsed_nanos by {
            assert(before[i] == ticks[i]);
            assert(before[j] == ticks[j]);
        }
        assert(before[0] == ticks[0]);
        lemma_frames_follow_the_clock(s, before);
        assert(before.last() == ticks[ticks.len() - 2]);
        assert(last == ticks[ticks.len() - 1]);
        lemma_target_grows_with_time(
            before.last().elapsed_nanos,
            last.elapsed_nanos,
            s.fps as nat,
        );
    }
}

/// The loop runs undisturbed and often: the guard is held at every pass, the
/// first pass comes within one frame period of the start, and no two passes
/// are further apart than one frame period.
pub open spec fn steady(ticks: Seq<Tick>, fps: nat) -> bool {
    &&& forall|i: int| 0 <= i < ticks.len() ==> (#[trigger] ticks[i]).guard_held
    &&& ticks.len() > 0 ==> ticks[0].elapsed_nanos * fps <= 1_000_000_000
    &&& forall|i: int|
        0 <= i < ticks.len() - 1 ==> (#[trigger] ticks[i]).elapsed_nanos <= ticks[i
            + 1].elapsed_nanos && (ticks[i + 1].elapsed_nanos - ticks[i].elapsed_nanos) * fps
            <= 1_000_000_000
}

/// Within one frame period at most one more frame falls due.
pub proof fn lemma_one_frame_per_period(earlier: nat, later: nat, fps: nat)
    requires
        earlier <= later,
        (later - earlier) * fps <= 1_000_000_000,
    ensures
        target_frame_count(earlier, fps) <= target_frame_count(later, fps) <= target_frame_count(
            earlier,
            fps,
        ) + 1,
{
    lemma_target_grows_with_time(earlier, later, fps);
    assert(later * fps == earlier * fps + (later - earlier) * fps) by (nonlinear_arith);
    lemma_div_is_ordered(
        (later * fps) as int,
        1_000_000_000 + (earlier * fps) as int,
        1_000_000_000,
    );
    lemma_div_plus_one((earlier * fps) as int, 1_000_000_000);
}

/// Keeping pace: a fresh recording whose loop runs steadily holds, after
/// every pass, exactly the number of frames that are due at that pass. A
/// recording that is stopped after `d` seconds at `f` frames a second so
/// ends with the whole part of `f` times the time of its last pass.
pub proof fn lemma_steady_loop_keeps_pace(s: SessionView, ticks: Seq<Tick>)
    requires
        s.frames_written == 0,
        s.state != RecorderState::Finished,
        ticks.len() > 0,
        steady(ticks, s.fps as nat),
    ensures
        after_polls(s, ticks).frames_written == target_frame_count(
            ticks.last().elapsed_nanos,
            s.fps as nat,
        ),
        after_polls(s, ticks).state == RecorderState::Running,
        after_polls(s, ticks).fps == s.fps,
    decreases ticks.len(),
{
    let before = ticks.drop_last();
    let last = ticks.last();
    let fps = s.fps as nat;
    assert(last == ticks[ticks.len() - 1]);
    assert(last.guard_held);
    if before.len() == 0 {
        assert(after_polls(s, before) == s);
        assert(ticks[0] == last);
        assert((last.elapsed_nanos * fps) / 1_000_000_000 <= 1) by {
            lemma_div_is_ordered((last.elapsed_nanos * fps) as int, 1_000_000_000, 1_000_000_000);
        }
    } else {
        assert forall|i: int| 0 <= i < before.len() implies (#[trigger] before[i]).guard_held by {
            assert(before[i] == ticks[i]);
        }
        assert(before[0] == ticks[0]);
        assert forall|i: int| 0 <= i < before.len() - 1 implies (
        #[trigger] before[i]).elapsed_nanos <= before[i + 1].elapsed_nanos && (before[i
            + 1].elapsed_nanos - before[i].elapsed_nanos) * fps <= 1_000_000_000 by {
            assert(before[i] == ticks[i]);
            assert(before[i + 1] == ticks[i + 1]);
        }
        lemma_steady_loop_keeps_pace(s, before);
        let i = ticks.len() - 2;
        assert(before.last() == ticks[i]);
        assert(ticks[i + 1] == last);
        lemma_one_frame_per_period(before.last().elapsed_nanos, last.elapsed_nanos, fps);
    }
}

/// The stages of a recording in their order.
pub open spec fn stage_rank(state: RecorderState) -> nat {
    match state {
        RecorderState::Armed => 0,
        RecorderState::Running => 1,
        RecorderState::Finished => 2,
    }
}

/// A recording moves forward only: armed, then running, then finished. A
/// pass that sees the guard held leaves an unfinished recording running; a
/// pass that sees it cleared ends the draining, and the recording is idle.
pub proof fn lemma_recording_moves_forward(s: SessionView, tick: Tick)
    ensures
        stage_rank(s.state) <= stage_rank(after_poll(s, tick).0.state),
        after_poll(s, tick).0.fps == s.fps,
        stage_of(after_poll(s, tick).0, tick.guard_held) == if stage_of(s, tick.guard_held)
            == RecorderStage::Armed {
            RecorderStage::Running
        } else if stage_of(s, tick.guard_held) == RecorderStage::Draining {
            RecorderStage::Idle
        } else {
            stage_of(s, tick.guard_held)
        },
{
}

/// A session that is finished stays finished and asks for nothing more.
pub proof fn lemma_finished_is_final(s: SessionView, tick: Tick)
    requires
        s.state == RecorderState::Finished,
    ensures
        after_poll(s, tick) == (s, RecorderAction::Finish),
{
}

/// Once the guard is seen cleared the loop ends, whatever the clock says.
pub proof fn lemma_cleared_guard_ends_the_loop(s: SessionView, elapsed_nanos: nat)
    ensures
        after_poll(s, Tick { guard_held: false, elapsed_nanos }).1 == RecorderAction::Finish,
        after_poll(s, Tick { guard_held: false, elapsed_nanos }).0.state == RecorderState::Finished,
        after_poll(s, Tick { guard_held: false, elapsed_nanos }).0.frames_written
            == s.frames_written,
{
}

} // verus!
