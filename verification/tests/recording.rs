use icapture::capture::{Capture, DeviceProperties};
use icapture::codec::Codec;
use icapture::config::Config;
use icapture::error::{CaptureError, PlatformError};
use icapture::guard::ExclusivityGuard;
use icapture::recording::{
    frames_due, RecorderAction, RecorderStage, RecorderState, RecordingSession,
};

const SECOND: u128 = 1_000_000_000;
const MILLISECOND: u128 = 1_000_000;

fn handle(codec: Codec) -> Capture {
    let conf = Config {
        device_id: 0,
        fps: 30,
        frame_width: 640,
        frame_height: 480,
        data_dir: "./out".to_string(),
        codec,
    };
    let wanted = DeviceProperties { fps: 30, frame_width: 640, frame_height: 480 };
    Capture::new(&conf, true)
        .unwrap()
        .device_opened(Ok(true))
        .unwrap()
        .negotiated(Ok(wanted))
        .unwrap()
        .0
}

fn armed(guard: &mut ExclusivityGuard, fps: u32) -> RecordingSession {
    let properties = DeviceProperties { fps, frame_width: 640, frame_height: 480 };
    handle(Codec::H264)
        .start_grab_video_to_file(guard, "./out/clip.mp4")
        .unwrap()
        .properties_read(guard, Ok(properties))
        .unwrap()
        .writer_opened(guard, Ok(()))
        .unwrap()
}

fn failure(message: &str) -> PlatformError {
    PlatformError { code: -1, message: message.to_string() }
}

#[test]
fn frames_due_is_the_whole_part_of_seconds_times_fps() {
    assert_eq!(frames_due(0, 30), 0);
    assert_eq!(frames_due(2 * SECOND, 30), 60);
    assert_eq!(frames_due(2 * SECOND - 1, 30), 59);
    assert_eq!(frames_due(SECOND / 30, 30), 0);
    assert_eq!(frames_due(SECOND / 30 + 1, 30), 1);
    assert_eq!(frames_due(1_500 * MILLISECOND, 25), 37);
    assert_eq!(frames_due(10 * SECOND, 0), 0);
}

#[test]
fn frames_due_is_capped_at_the_counter() {
    assert_eq!(frames_due(u128::MAX, u32::MAX), u64::MAX);
    assert_eq!(frames_due(u128::MAX, 1), u64::MAX);
    assert_eq!(frames_due(u128::MAX / 2, 2), u64::MAX);
    assert_eq!(frames_due(u64::MAX as u128 * SECOND, 1), u64::MAX);
    assert_eq!(frames_due((u64::MAX as u128 - 1) * SECOND, 1), u64::MAX - 1);
}

#[test]
fn start_takes_the_guard_and_asks_for_a_writer() {
    let capture = handle(Codec::MJPG);
    let mut guard = ExclusivityGuard::new();
    let setup = capture.start_grab_video_to_file(&mut guard, "./out/clip.avi").unwrap();
    assert!(guard.is_held());
    assert_eq!(setup.file_path(), "./out/clip.avi");
    assert_eq!(setup.codec(), Codec::MJPG);
    let actual = DeviceProperties { fps: 25, frame_width: 1280, frame_height: 720 };
    let request = setup.properties_read(&mut guard, Ok(actual)).unwrap();
    assert!(guard.is_held());
    assert_eq!(request.file_path(), "./out/clip.avi");
    assert_eq!(request.fourcc(), Codec::MJPG.fourcc());
    assert_eq!(request.properties(), actual);
    let session = request.writer_opened(&mut guard, Ok(())).unwrap();
    assert!(guard.is_held());
    assert_eq!(session.fps(), 25);
    assert_eq!(session.frames_written(), 0);
    assert_eq!(session.state(), RecorderState::Armed);
}

#[test]
fn test_second_start_is_busy() {
    let capture = handle(Codec::H264);
    let mut guard = ExclusivityGuard::new();
    assert!(capture.start_grab_video(&mut guard).is_ok());
    assert_eq!(capture.start_grab_video(&mut guard).unwrap_err(), CaptureError::ResourceBusy);
    assert!(guard.is_held());
}

#[test]
fn the_default_video_name_carries_the_container() {
    let mut guard = ExclusivityGuard::new();
    let setup = handle(Codec::WMV3).start_grab_video(&mut guard).unwrap();
    let path = setup.file_path();
    assert!(path.starts_with("./out/"));
    assert!(path.ends_with(".wmv"));
    assert_eq!(path.len(), "./out/".len() + 23 + ".wmv".len());
}

#[test]
fn a_failure_before_the_loop_frees_the_guard() {
    let capture = handle(Codec::H264);
    let mut guard = ExclusivityGuard::new();
    let setup = capture.start_grab_video_to_file(&mut guard, "a.mp4").unwrap();
    let err = setup.properties_read(&mut guard, Err(failure("fps"))).unwrap_err();
    assert_eq!(err, CaptureError::OpenCv(failure("fps")));
    assert!(!guard.is_held());

    let properties = DeviceProperties { fps: 30, frame_width: 640, frame_height: 480 };
    let request = capture
        .start_grab_video_to_file(&mut guard, "a.mp4")
        .unwrap()
        .properties_read(&mut guard, Ok(properties))
        .unwrap();
    let err = request.writer_opened(&mut guard, Err(failure("writer"))).unwrap_err();
    assert_eq!(err, CaptureError::OpenCv(failure("writer")));
    assert!(!guard.is_held());
}

#[test]
fn stop_clears_the_guard() {
    let capture = handle(Codec::H264);
    let mut guard = ExclusivityGuard::new();
    let _session = armed(&mut guard, 30);
    assert_eq!(capture.stop_grab_video(&mut guard), Ok(()));
    assert!(!guard.is_held());
    assert_eq!(capture.stop_grab_video(&mut guard), Ok(()));
    assert!(!guard.is_held());
}

#[test]
fn the_loop_takes_a_frame_only_when_one_is_due() {
    let mut guard = ExclusivityGuard::new();
    let mut session = armed(&mut guard, 30);
    assert_eq!(session.poll(true, 0), RecorderAction::Sleep(16));
    assert_eq!(session.state(), RecorderState::Running);
    assert_eq!(session.frames_written(), 0);
    assert_eq!(session.poll(true, 33 * MILLISECOND), RecorderAction::Sleep(16));
    assert_eq!(session.poll(true, 34 * MILLISECOND), RecorderAction::CaptureFrame);
    assert_eq!(session.frames_written(), 1);
    assert_eq!(session.poll(true, 35 * MILLISECOND), RecorderAction::Sleep(16));
    assert_eq!(session.frames_written(), 1);
}

#[test]
fn the_loop_catches_up_one_frame_per_pass() {
    let mut guard = ExclusivityGuard::new();
    let mut session = armed(&mut guard, 10);
    for taken in 1..=5u64 {
        assert_eq!(session.poll(true, SECOND / 2), RecorderAction::CaptureFrame);
        assert_eq!(session.frames_written(), taken);
    }
    assert_eq!(session.poll(true, SECOND / 2), RecorderAction::Sleep(50));
    assert_eq!(session.frames_written(), 5);
}

#[test]
fn half_a_frame_period_in_milliseconds() {
    let mut guard = ExclusivityGuard::new();
    assert_eq!(armed(&mut guard, 1).poll(true, 0), RecorderAction::Sleep(500));
    guard.release();
    assert_eq!(armed(&mut guard, 60).poll(true, 0), RecorderAction::Sleep(8));
    guard.release();
    assert_eq!(armed(&mut guard, 500).poll(true, 0), RecorderAction::Sleep(1));
    guard.release();
    assert_eq!(armed(&mut guard, 501).poll(true, 0), RecorderAction::Sleep(0));
}

#[test]
fn the_loop_ends_once_the_guard_is_cleared() {
    let mut guard = ExclusivityGuard::new();
    let mut session = armed(&mut guard, 30);
    assert_eq!(session.poll(guard.is_held(), SECOND), RecorderAction::CaptureFrame);
    guard.release();
    assert_eq!(session.poll(guard.is_held(), 2 * SECOND), RecorderAction::Finish);
    assert_eq!(session.state(), RecorderState::Finished);
    assert_eq!(session.frames_written(), 1);
    assert_eq!(session.poll(true, 3 * SECOND), RecorderAction::Finish);
    assert_eq!(session.frames_written(), 1);
}

#[test]
fn test_two_seconds_at_thirty_fps() {
    let capture = handle(Codec::H264);
    let mut guard = ExclusivityGuard::new();
    let setup = capture.start_grab_video(&mut guard).unwrap();
    assert!(setup.file_path().ends_with(".mp4"));
    let properties = DeviceProperties { fps: 30, frame_width: 640, frame_height: 480 };
    let mut session = setup
        .properties_read(&mut guard, Ok(properties))
        .unwrap()
        .writer_opened(&mut guard, Ok(()))
        .unwrap();

    let mut clock: u128 = 0;
    let mut frames: u64 = 0;
    let mut passes: u64 = 0;
    loop {
        if clock >= 2 * SECOND && guard.is_held() {
            assert_eq!(capture.stop_grab_video(&mut guard), Ok(()));
        }
        match session.poll(guard.is_held(), clock) {
            RecorderAction::CaptureFrame => {
                frames += 1;
                clock += 4 * MILLISECOND;
            }
            RecorderAction::Sleep(millis) => {
                assert_eq!(millis, 16);
                clock += millis as u128 * MILLISECOND;
            }
            RecorderAction::Finish => break,
        }
        passes += 1;
        assert!(frames <= passes);
        assert!(session.frames_written() <= frames_due(clock, 30));
    }
    assert_eq!(session.frames_written(), frames);
    assert!((58..=60).contains(&frames), "{} frames", frames);
    assert!(frames <= frames_due(clock, 30));
    assert!(!guard.is_held());
}

#[test]
fn a_recording_passes_through_its_stages() {
    let capture = handle(Codec::H264);
    let mut guard = ExclusivityGuard::new();
    let mut session = armed(&mut guard, 30);
    assert_eq!(session.stage(guard.is_held()), RecorderStage::Armed);
    session.poll(guard.is_held(), 0);
    assert_eq!(session.stage(guard.is_held()), RecorderStage::Running);
    capture.stop_grab_video(&mut guard).unwrap();
    assert_eq!(session.stage(guard.is_held()), RecorderStage::Draining);
    assert_eq!(session.poll(guard.is_held(), SECOND), RecorderAction::Finish);
    assert_eq!(session.stage(guard.is_held()), RecorderStage::Idle);
    assert_eq!(session.stage(true), RecorderStage::Idle);
}

#[test]
fn a_recording_stopped_before_its_loop_ran_drains() {
    let capture = handle(Codec::H264);
    let mut guard = ExclusivityGuard::new();
    let mut session = armed(&mut guard, 30);
    capture.stop_grab_video(&mut guard).unwrap();
    assert_eq!(session.stage(guard.is_held()), RecorderStage::Draining);
    assert_eq!(session.poll(guard.is_held(), 0), RecorderAction::Finish);
    assert_eq!(session.frames_written(), 0);
}
