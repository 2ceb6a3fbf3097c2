use icapture::capture::{Capture, DeviceProperties};
use icapture::codec::Codec;
use icapture::config::Config;
use icapture::error::{CaptureError, PlatformError};
use icapture::guard::ExclusivityGuard;
use icapture::preview::{Preview, PreviewEvent, PreviewStage, PreviewStep, CANCEL_KEY, KEY_WAIT_MS};

fn handle(device_id: u32) -> Capture {
    let conf = Config {
        device_id,
        fps: 30,
        frame_width: 640,
        frame_height: 480,
        data_dir: "./out".to_string(),
        codec: Codec::H264,
    };
    let wanted = DeviceProperties { fps: 30, frame_width: 640, frame_height: 480 };
    Capture::new(&conf, true)
        .unwrap()
        .device_opened(Ok(true))
        .unwrap()
        .negotiated(Ok(wanted))
        .unwrap()
        .0
}

fn failure() -> PlatformError {
    PlatformError { code: -215, message: "read failed".to_string() }
}

fn go_on(preview: Preview, guard: &mut ExclusivityGuard, event: PreviewEvent) -> Preview {
    match preview.advance(guard, Ok(event)) {
        PreviewStep::Continue(next) => next,
        PreviewStep::Finished(ended) => panic!("ended with {:?}", ended),
    }
}

fn end(preview: Preview, guard: &mut ExclusivityGuard, event: Result<PreviewEvent, PlatformError>) -> Result<(), CaptureError> {
    match preview.advance(guard, event) {
        PreviewStep::Continue(next) => panic!("goes on at {:?}", next.stage()),
        PreviewStep::Finished(ended) => ended,
    }
}

#[test]
fn preview_is_rejected_while_the_guard_is_held() {
    let mut guard = ExclusivityGuard::new();
    assert!(guard.try_acquire());
    assert_eq!(handle(0).preview(&mut guard).unwrap_err(), CaptureError::ResourceBusy);
    assert!(guard.is_held());
}

#[test]
fn preview_constants() {
    assert_eq!(CANCEL_KEY, 27);
    assert_eq!(KEY_WAIT_MS, 10);
}

#[test]
fn preview_window_is_named_after_the_device() {
    let mut guard = ExclusivityGuard::new();
    let preview = handle(1).preview(&mut guard).unwrap();
    let devices = vec!["Front".to_string(), "Rear".to_string()];
    assert_eq!(preview.window_title(&devices), "Rear");
    assert_eq!(preview.window_title(&devices[..1]), "unknown capture device");
    assert_eq!(preview.window_title(&[]), "unknown capture device");
}

#[test]
fn preview_loops_until_the_cancel_key() {
    let mut guard = ExclusivityGuard::new();
    let mut preview = handle(0).preview(&mut guard).unwrap();
    assert_eq!(preview.stage(), PreviewStage::OpenWindow);
    preview = go_on(preview, &mut guard, PreviewEvent::WindowOpened);
    for _ in 0..3 {
        assert_eq!(preview.stage(), PreviewStage::ReadFrame);
        preview = go_on(preview, &mut guard, PreviewEvent::FrameRead { width: 640 });
        assert_eq!(preview.stage(), PreviewStage::ShowFrame);
        preview = go_on(preview, &mut guard, PreviewEvent::FrameShown);
        assert_eq!(preview.stage(), PreviewStage::WaitKey);
        preview = go_on(preview, &mut guard, PreviewEvent::KeyPressed(-1));
        assert_eq!(preview.stage(), PreviewStage::QueryWindow);
        preview = go_on(preview, &mut guard, PreviewEvent::WindowVisible(true));
        assert!(guard.is_held());
    }
    preview = go_on(preview, &mut guard, PreviewEvent::FrameRead { width: 640 });
    preview = go_on(preview, &mut guard, PreviewEvent::FrameShown);
    assert_eq!(end(preview, &mut guard, Ok(PreviewEvent::KeyPressed(27))), Ok(()));
    assert!(!guard.is_held());
}

#[test]
fn preview_skips_a_frame_without_width() {
    let mut guard = ExclusivityGuard::new();
    let mut preview = handle(0).preview(&mut guard).unwrap();
    preview = go_on(preview, &mut guard, PreviewEvent::WindowOpened);
    preview = go_on(preview, &mut guard, PreviewEvent::FrameRead { width: 0 });
    assert_eq!(preview.stage(), PreviewStage::WaitKey);
    let mut again = handle(0).preview(&mut ExclusivityGuard::new()).unwrap();
    again = go_on(again, &mut guard, PreviewEvent::WindowOpened);
    again = go_on(again, &mut guard, PreviewEvent::FrameRead { width: -1 });
    assert_eq!(again.stage(), PreviewStage::WaitKey);
}

#[test]
fn preview_ends_when_the_window_is_closed() {
    let mut guard = ExclusivityGuard::new();
    let mut preview = handle(0).preview(&mut guard).unwrap();
    preview = go_on(preview, &mut guard, PreviewEvent::WindowOpened);
    preview = go_on(preview, &mut guard, PreviewEvent::FrameRead { width: 1 });
    preview = go_on(preview, &mut guard, PreviewEvent::FrameShown);
    preview = go_on(preview, &mut guard, PreviewEvent::KeyPressed(13));
    assert_eq!(end(preview, &mut guard, Ok(PreviewEvent::WindowVisible(false))), Ok(()));
    assert!(!guard.is_held());
}

#[test]
fn preview_ends_on_a_platform_failure_and_frees_the_guard() {
    let mut guard = ExclusivityGuard::new();
    let mut preview = handle(0).preview(&mut guard).unwrap();
    preview = go_on(preview, &mut guard, PreviewEvent::WindowOpened);
    assert_eq!(end(preview, &mut guard, Err(failure())), Err(CaptureError::OpenCv(failure())));
    assert!(!guard.is_held());

    let preview = handle(0).preview(&mut guard).unwrap();
    assert_eq!(end(preview, &mut guard, Err(failure())), Err(CaptureError::OpenCv(failure())));
    assert!(!guard.is_held());
}

#[test]
fn preview_ignores_an_event_that_answers_another_step() {
    let mut guard = ExclusivityGuard::new();
    let mut preview = handle(0).preview(&mut guard).unwrap();
    preview = go_on(preview, &mut guard, PreviewEvent::KeyPressed(27));
    assert_eq!(preview.stage(), PreviewStage::OpenWindow);
    preview = go_on(preview, &mut guard, PreviewEvent::WindowOpened);
    preview = go_on(preview, &mut guard, PreviewEvent::WindowVisible(false));
    assert_eq!(preview.stage(), PreviewStage::ReadFrame);
    assert!(guard.is_held());
}
