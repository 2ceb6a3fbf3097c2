//! The capture handle: opening a device, negotiating its properties and
//! grabbing single frames.
//!
//! The handle decides; a driver performs. Every step that touches the
//! hardware is taken by the driver, which reports what came back; the value
//! returned for a report says what is to be done next, or how the operation
//! ended. A step that is owed only after an earlier one is reached through
//! the value which that earlier step returned.

use crate::codec::extension_of;
use crate::config::{Config, ConfigView};
use crate::device::{find_capture_device, is_first_match, no_match};
use crate::error::{
    outcome_view, pass_on, passed_on, report_view, CaptureError, CaptureErrorView, PlatformError,
    PlatformErrorView,
};
use crate::file::{get_name, name_of, path_in, path_of};
use crate::guard::{after_call, Admissions, ExclusivityGuard, GuardCall};
use crate::preview::Preview;
use crate::recording::RecordingSetup;
use crate::text::{decimal, to_decimal};
use vstd::prelude::*;
use vstd::string::*;

verus! {

/// What a frame read gave.
#[derive(Clone, Copy, Debug, PartialEq, Eq, Structural)]
pub struct FrameStatus {
    /// The device delivered a frame.
    pub grabbed: bool,
    /// The frame holds no data.
    pub empty: bool,
}

/// Frame rate and frame size as the device reports them.
#[derive(Clone, Copy, Debug, PartialEq, Eq, Structural)]
pub struct DeviceProperties {
    pub fps: u32,
    pub frame_width: u32,
    pub frame_height: u32,
}

/// Whether the device took the requested properties.
#[derive(Clone, Copy, Debug, PartialEq, Eq, Structural)]
pub struct NegotiationReport {
    pub fps_matched: bool,
    pub frame_size_matched: bool,
}

/// An opened capture device with its configuration.
#[derive(Debug)]
pub struct Capture {
    /// Video capturing configuration.
    pub config: Config,
}

/// An opening whose output directory exists; the device is to be opened next.
#[derive(Debug)]
pub struct Opening {
    config: Config,
}

/// An opening whose device is open; frame rate and frame size are to be
/// pushed to it and read back.
#[derive(Debug)]
pub struct Negotiating {
    config: Config,
}

/// A frame rate that was pushed to the device and is to be read back.
#[derive(Debug)]
pub struct FpsCheck {
    expected: u32,
}

/// A frame size that was pushed to the device and is to be read back.
#[derive(Debug)]
pub struct FrameSizeCheck {
    expected: (u32, u32),
}

/// An admitted frame grab; one frame is to be read.
#[derive(Debug)]
pub struct FrameGrab {
    path: String,
}

/// A grabbed frame that is to be encoded as a still image.
#[derive(Debug)]
pub struct StillWrite {
    path: String,
}

impl View for Opening {
    type V = ConfigView;

    closed spec fn view(&self) -> ConfigView {
        self.config@
    }
}

impl View for Negotiating {
    type V = ConfigView;

    closed spec fn view(&self) -> ConfigView {
        self.config@
    }
}

impl View for FpsCheck {
    type V = u32;

    closed spec fn view(&self) -> u32 {
        self.expected
    }
}

impl View for FrameSizeCheck {
    type V = (u32, u32);

    closed spec fn view(&self) -> (u32, u32) {
        self.expected
    }
}

impl View for FrameGrab {
    type V = Seq<char>;

    closed spec fn view(&self) -> Seq<char> {
        self.path@
    }
}

impl View for StillWrite {
    type V = Seq<char>;

    closed spec fn view(&self) -> Seq<char> {
        self.path@
    }
}

/// How opening goes on once the device was asked to open: a platform
/// failure is passed on, a device that does not report itself open is
/// `DeviceOpen` with its index, and an open device goes on to negotiation.
pub open spec fn device_outcome(
    config: ConfigView,
    opened: Result<bool, PlatformErrorView>,
) -> Result<ConfigView, CaptureErrorView> {
    match opened {
        Err(e) => Err(CaptureErrorView::OpenCv(e)),
        Ok(false) => Err(CaptureErrorView::DeviceOpen(decimal(config.device_id as nat))),
        Ok(true) => Ok(config),
    }
}

/// What negotiation at opening reports: each property matched if the device
/// reads back what was asked for.
pub open spec fn negotiation_report(config: ConfigView, actual: DeviceProperties) -> NegotiationReport {
    NegotiationReport {
        fps_matched: actual.fps == config.fps,
        frame_size_matched: actual.frame_width == config.frame_width && actual.frame_height
            == config.frame_height,
    }
}

/// What a read-back says of a pushed value: whether the device holds it. A
/// mismatch is an answer, not a failure; only a failed read is an error.
pub open spec fn check_outcome<T>(expected: T, reading: Result<T, PlatformErrorView>) -> Result<
    bool,
    CaptureErrorView,
> {
    match reading {
        Ok(actual) => Ok(actual == expected),
        Err(e) => Err(CaptureErrorView::OpenCv(e)),
    }
}

/// How a grab goes on once a frame was read: a platform failure is passed
/// on, a missing or empty frame is `GrabFrame`, a frame with data is encoded.
pub open spec fn frame_outcome(read: Result<FrameStatus, PlatformErrorView>) -> Result<
    (),
    CaptureErrorView,
> {
    match read {
        Err(e) => Err(CaptureErrorView::OpenCv(e)),
        Ok(frame) => if !frame.grabbed || frame.empty {
            Err(CaptureErrorView::GrabFrame)
        } else {
            Ok(())
        },
    }
}

/// What asking for admission comes to. A free guard admits the caller and
/// is held from then on. A held guard turns the caller away with
/// `ResourceBusy` and stays as it is: the call has changed nothing.
pub open spec fn admitted_or_busy<T>(
    before: ExclusivityGuard,
    after: ExclusivityGuard,
    answer: Result<T, CaptureError>,
) -> bool {
    match answer {
        Ok(_) => !before.held() && after == before.taken() && after.held(),
        Err(e) => before.held() && after == before && e@ == CaptureErrorView::ResourceBusy,
    }
}

/// Admission is the guard's `Begin`: what an operation's request leaves of
/// the guard is what the guard's protocol says, and the operation is
/// running afterwards exactly if it was admitted.
pub proof fn lemma_admission_is_begin<T>(
    s: Admissions,
    op: nat,
    after: ExclusivityGuard,
    answer: Result<T, CaptureError>,
)
    requires
        admitted_or_busy(s.guard, after, answer),
    ensures
        after_call(s, GuardCall::Begin(op)) == (Admissions {
            guard: after,
            running: if answer is Ok {
                s.running.insert(op)
            } else {
                s.running
            },
        }),
{
}

/// Asks the guard for admission.
pub(crate) fn request_admission(guard: &mut ExclusivityGuard) -> (admitted: Result<
    (),
    CaptureError,
>)
    ensures
        admitted_or_busy(*old(guard), *final(guard), admitted),
{
    broadcast use ExclusivityGuard::lemma_flag;

    if guard.try_acquire() {
        Ok(())
    } else {
        Err(CaptureError::ResourceBusy)
    }
}

impl Capture {
    /// Gives the configuration the index of the device named `device_name`
    /// among the enumerated `available` devices. An unknown name is
    /// `DeviceNotFound`; no opening exists then, so no hardware is touched.
    pub fn select_device(conf: &Config, device_name: &str, available: &[String]) -> (selected:
        Result<Config, CaptureError>)
        ensures
            match selected {
                Ok(config) => is_first_match(available@, device_name@, config.device_id as int)
                    && config@ == (ConfigView { device_id: config.device_id, ..conf@ }),
                Err(e) => no_match(available@, device_name@) && e@
                    == CaptureErrorView::DeviceNotFound(device_name@),
            },
    {
        match find_capture_device(available, device_name) {
            Ok(id) => {
                let mut config: Config = conf.clone();
                config.device_id = id;
                Ok(config)
            },
            Err(e) => Err(e),
        }
    }

    /// Starts opening a capture device. The driver has tried to make sure
    /// that the output directory `conf.data_dir` exists and says whether it
    /// does; without the directory opening fails with `CreateFileDirectory`.
    pub fn new(conf: &Config, directory_ready: bool) -> (opening: Result<Opening, CaptureError>)
        ensures
            match opening {
                Ok(o) => directory_ready && o@ == conf@,
                Err(e) => !directory_ready && e@ == CaptureErrorView::CreateFileDirectory(
                    conf@.data_dir,
                ),
            },
    {
        if directory_ready {
            Ok(Opening { config: conf.clone() })
        } else {
            Err(CaptureError::CreateFileDirectory(conf.data_dir.clone()))
        }
    }

    /// Ends the handle's use of the device: hands on what releasing it gave.
    pub fn dispose(&mut self, released: Result<(), PlatformError>) -> (r: Result<(), CaptureError>)
        ensures
            outcome_view(r) == passed_on(report_view(released)),
            *final(self) == *old(self),
    {
        pass_on(released)
    }

    /// Gets current FPS value: what the device reports.
    pub fn get_fps(&self, reading: Result<u32, PlatformError>) -> (fps: Result<u32, CaptureError>)
        ensures
            outcome_view(fps) == passed_on(report_view(reading)),
    {
        pass_on(reading)
    }

    /// Gets current frame size: what the device reports.
    pub fn get_frame_size(&self, reading: Result<(u32, u32), PlatformError>) -> (size: Result<
        (u32, u32),
        CaptureError,
    >)
        ensures
            outcome_view(size) == passed_on(report_view(reading)),
    {
        pass_on(reading)
    }

    /// Sets FPS value. `pushed` is what pushing `fps` to the device gave. A
    /// failure is passed on and the configuration stays; otherwise the
    /// configuration takes `fps`, and the value is to be read back.
    pub fn set_fps(&mut self, fps: u32, pushed: Result<bool, PlatformError>) -> (check: Result<
        FpsCheck,
        CaptureError,
    >)
        ensures
            match pushed {
                Ok(_) => check matches Ok(c) && c@ == fps && final(self).config@ == (ConfigView {
                    fps,
                    ..old(self).config@
                }),
                Err(e) => check matches Err(err) && err@ == CaptureErrorView::OpenCv(e@)
                    && *final(self) == *old(self),
            },
    {
        match pushed {
            Ok(_) => {
                self.config.fps = fps;
                Ok(FpsCheck { expected: fps })
            },
            Err(e) => Err(CaptureError::OpenCv(e)),
        }
    }

    /// Sets frame size. `pushed` is what pushing width and height to the
    /// device gave. A failure is passed on and the configuration stays;
    /// otherwise the configuration takes `size`, and the size is to be read back.
    pub fn set_frame_size(&mut self, size: (u32, u32), pushed: Result<bool, PlatformError>) -> (check:
        Result<FrameSizeCheck, CaptureError>)
        ensures
            match pushed {
                Ok(_) => check matches Ok(c) && c@ == size && final(self).config@ == (ConfigView {
                    frame_width: size.0,
                    frame_height: size.1,
                    ..old(self).config@
                }),
                Err(e) => check matches Err(err) && err@ == CaptureErrorView::OpenCv(e@)
                    && *final(self) == *old(self),
            },
    {
        match pushed {
            Ok(_) => {
                self.config.frame_width = size.0;
                self.config.frame_height = size.1;
                Ok(FrameSizeCheck { expected: size })
            },
            Err(e) => Err(CaptureError::OpenCv(e)),
        }
    }

    /// Asks for a live preview. A held guard rejects the call with
    /// `ResourceBusy` and nothing changes; otherwise the guard is taken and
    /// the preview begins by opening its window.
    pub fn preview(&self, guard: &mut ExclusivityGuard) -> (preview: Result<Preview, CaptureError>)
        ensures
            admitted_or_busy(*old(guard), *final(guard), preview),
            preview matches Ok(p) ==> p == Preview::opening(self.config.device_id),
    {
        match request_admission(guard) {
            Ok(()) => Ok(Preview::begin(self.config.device_id)),
            Err(e) => Err(e),
        }
    }

    /// Asks to save one frame at `file_path`. A held guard rejects the call
    /// with `ResourceBusy` and nothing changes; otherwise the guard is taken
    /// and one frame is to be read.
    pub fn grab_frame_to_file(&self, guard: &mut ExclusivityGuard, file_path: &str) -> (grab:
        Result<FrameGrab, CaptureError>)
        ensures
            admitted_or_busy(*old(guard), *final(guard), grab),
            grab matches Ok(g) ==> g@ == file_path@,
    {
        match request_admission(guard) {
            Ok(()) => Ok(FrameGrab { path: String::from_str(file_path) }),
            Err(e) => Err(e),
        }
    }

    /// Asks to save one frame under the default name: in the configured
    /// directory, named after the present local time, with extension `png`.
    pub fn grab_frame(&self, guard: &mut ExclusivityGuard) -> (grab: Result<FrameGrab, CaptureError>)
        ensures
            admitted_or_busy(*old(guard), *final(guard), grab),
            grab matches Ok(g) ==> exists|stamp: Seq<char>|
                g@ == path_of(self.config@.data_dir, #[trigger] name_of(stamp, "png"@)),
    {
        let name: String = get_name("png");
        let file_path: String = path_in(self.config.data_dir.as_str(), name.as_str());
        self.grab_frame_to_file(guard, file_path.as_str())
    }

    /// Asks to record video to `file_path`. A held guard rejects the call
    /// with `ResourceBusy` and nothing changes; otherwise the guard is taken
    /// and the device's frame rate and frame size are to be read.
    pub fn start_grab_video_to_file(&self, guard: &mut ExclusivityGuard, file_path: &str) -> (setup:
        Result<RecordingSetup, CaptureError>)
        ensures
            admitted_or_busy(*old(guard), *final(guard), setup),
            setup matches Ok(s) ==> s@ == (file_path@, self.config.codec),
    {
        match request_admission(guard) {
            Ok(()) => Ok(RecordingSetup::begin(file_path, self.config.codec)),
            Err(e) => Err(e),
        }
    }

    /// Asks to record video under the default name: in the configured
    /// directory, named after the present local time, with the extension of
    /// the configured codec's container.
    pub fn start_grab_video(&self, guard: &mut ExclusivityGuard) -> (setup: Result<
        RecordingSetup,
        CaptureError,
    >)
        ensures
            admitted_or_busy(*old(guard), *final(guard), setup),
            setup matches Ok(s) ==> s@.1 == self.config.codec && exists|stamp: Seq<char>|
                s@.0 == path_of(
                    self.config@.data_dir,
                    #[trigger] name_of(stamp, extension_of(self.config.codec)),
                ),
    {
        let name: String = get_name(self.config.codec.file_extension());
        let file_path: String = path_in(self.config.data_dir.as_str(), name.as_str());
        self.start_grab_video_to_file(guard, file_path.as_str())
    }

    /// Stops capturing video: clears the guard, whoever holds it, and does
    /// not wait for the recording loop to notice.
    pub fn stop_grab_video(&self, guard: &mut ExclusivityGuard) -> (r: Result<(), CaptureError>)
        ensures
            r is Ok,
            *final(guard) == old(guard).cleared(),
            !final(guard).held(),
    {
        broadcast use ExclusivityGuard::lemma_flag;

        guard.release();
        Ok(())
    }
}

impl Opening {
    /// The index of the device to open.
    pub fn device_id(&self) -> (id: u32)
        ensures
            id == self@.device_id,
    {
        self.config.device_id
    }

    /// Goes on once the device was asked to open. `opened` is whether the
    /// device reports itself open, or the platform's failure.
    pub fn device_opened(self, opened: Result<bool, PlatformError>) -> (next: Result<
        Negotiating,
        CaptureError,
    >)
        ensures
            match device_outcome(self@, report_view(opened)) {
                Ok(config) => next matches Ok(n) && n@ == config,
                Err(e) => next matches Err(err) && err@ == e,
            },
    {
        match opened {
            Err(e) => Err(CaptureError::OpenCv(e)),
            Ok(false) => Err(CaptureError::DeviceOpen(to_decimal(self.config.device_id))),
            Ok(true) => Ok(Negotiating { config: self.config }),
        }
    }
}

impl Negotiating {
    /// The frame rate and frame size to push to the device.
    pub fn requested(&self) -> (wanted: DeviceProperties)
        ensures
            wanted == (DeviceProperties {
                fps: self@.fps,
                frame_width: self@.frame_width,
                frame_height: self@.frame_height,
            }),
    {
        DeviceProperties {
            fps: self.config.fps,
            frame_width: self.config.frame_width,
            frame_height: self.config.frame_height,
        }
    }

    /// Ends opening. `actual` is what the device reads back after the
    /// requested values were pushed, or the first platform failure on the
    /// way. A mismatch does not fail the opening: the handle keeps the
    /// configuration it was asked for, and the report says what matched.
    pub fn negotiated(self, actual: Result<DeviceProperties, PlatformError>) -> (opened: Result<
        (Capture, NegotiationReport),
        CaptureError,
    >)
        ensures
            match actual {
                Ok(a) => opened matches Ok((capture, report)) && capture.config@ == self@ && report
                    == negotiation_report(self@, a),
                Err(e) => opened matches Err(err) && err@ == CaptureErrorView::OpenCv(e@),
            },
    {
        match actual {
            Ok(a) => {
                let report = NegotiationReport {
                    fps_matched: a.fps == self.config.fps,
                    frame_size_matched: a.frame_width == self.config.frame_width && a.frame_height
                        == self.config.frame_height,
                };
                Ok((Capture { config: self.config }, report))
            },
            Err(e) => Err(CaptureError::OpenCv(e)),
        }
    }
}

impl FpsCheck {
    /// The frame rate that was pushed.
    pub fn expected(&self) -> (fps: u32)
        ensures
            fps == self@,
    {
        self.expected
    }

    /// Says whether the device holds the frame rate that was pushed.
    /// `reading` is the frame rate read back.
    pub fn capture_verify_fps(self, reading: Result<u32, PlatformError>) -> (matched: Result<
        bool,
        CaptureError,
    >)
        ensures
            outcome_view(matched) == check_outcome(self@, report_view(reading)),
    {
        match reading {
            Ok(actual) => Ok(actual == self.expected),
            Err(e) => Err(CaptureError::OpenCv(e)),
        }
    }
}

impl FrameSizeCheck {
    /// The width and height that were pushed.
    pub fn expected(&self) -> (size: (u32, u32))
        ensures
            size == self@,
    {
        self.expected
    }

    /// Says whether the device holds the frame size that was pushed.
    /// `reading` is the width and height read back.
    pub fn capture_verify_frame_size(self, reading: Result<(u32, u32), PlatformError>) -> (matched:
        Result<bool, CaptureError>)
        ensures
            outcome_view(matched) == check_outcome(self@, report_view(reading)),
    {
        match reading {
            Ok(actual) => Ok(actual.0 == self.expected.0 && actual.1 == self.expected.1),
            Err(e) => Err(CaptureError::OpenCv(e)),
        }
    }
}

impl FrameGrab {
    /// The path of the image file that the frame is meant for.
    pub fn file_path(&self) -> (path: &str)
        ensures
            path@ == self@,
    {
        self.path.as_str()
    }

    /// Goes on once a frame was read. A platform failure or a frame without
    /// data ends the grab and clears the guard; a frame with data is to be
    /// encoded, and the guard stays as it is.
    pub fn frame_read(self, guard: &mut ExclusivityGuard, read: Result<FrameStatus, PlatformError>) -> (next:
        Result<StillWrite, CaptureError>)
        ensures
            match frame_outcome(report_view(read)) {
                Ok(()) => next matches Ok(w) && w@ == self@ && *final(guard) == *old(guard),
                Err(e) => next matches Err(err) && err@ == e && *final(guard) == old(
                    guard,
                ).cleared(),
            },
    {
        match read {
            Err(e) => {
                guard.release();
                Err(CaptureError::OpenCv(e))
            },
            Ok(frame) => {
                if !frame.grabbed || frame.empty {
                    guard.release();
                    Err(CaptureError::GrabFrame)
                } else {
                    Ok(StillWrite { path: self.path })
                }
            },
        }
    }
}

impl StillWrite {
    /// The path of the image file to write.
    pub fn file_path(&self) -> (path: &str)
        ensures
            path@ == self@,
    {
        self.path.as_str()
    }

    /// The PNG compression level to encode with: none, the image is stored as it is.
    pub fn png_compression(&self) -> (level: i32)
        ensures
            level == 0,
    {
        0
    }

    /// Ends the grab once the frame was encoded: clears the guard, and
    /// reports success unless the platform failed.
    pub fn written(self, guard: &mut ExclusivityGuard, encoded: Result<bool, PlatformError>) -> (r:
        Result<bool, CaptureError>)
        ensures
            *final(guard) == old(guard).cleared(),
            match encoded {
                Ok(_) => r == Ok::<bool, CaptureError>(true),
                Err(e) => r matches Err(err) && err@ == CaptureErrorView::OpenCv(e@),
            },
    {
        guard.release();
        match encoded {
            Ok(_) => Ok(true),
            Err(e) => Err(CaptureError::OpenCv(e)),
        }
    }
}

/// Negotiation tolerates a device that cannot take a value: for every
/// requested and every reported value the read-back succeeds, it says
/// `false` exactly when the two differ, and a getter hands on the reported
/// value, not the requested one.
pub proof fn lemma_mismatch_is_an_answer<T>(requested: T, reported: T)
    ensures
        check_outcome(requested, Ok(reported)) == Ok::<bool, CaptureErrorView>(
            reported == requested,
        ),
        passed_on(Ok::<T, PlatformErrorView>(reported)) == Ok::<T, CaptureErrorView>(reported),
{
}

} // verus!
