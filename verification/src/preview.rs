//! The live preview: a loop of reading a frame, showing it and polling for
//! the end, decided one step at a time.

use crate::error::{outcome_view, CaptureError, CaptureErrorView, PlatformError, PlatformErrorView, report_view};
use crate::guard::ExclusivityGuard;
use vstd::prelude::*;
use vstd::string::*;

verus! {

/// The step that the driver is to take next.
#[derive(Clone, Copy, Debug, PartialEq, Eq, Structural)]
pub enum PreviewStage {
    /// Open the display surface.
    OpenWindow,
    /// Read one frame.
    ReadFrame,
    /// Present the frame that was read.
    ShowFrame,
    /// Wait for a key.
    WaitKey,
    /// Ask whether the display surface is still visible.
    QueryWindow,
}

/// What a step gave.
#[derive(Clone, Copy, Debug, PartialEq, Eq, Structural)]
pub enum PreviewEvent {
    /// The display surface is open.
    WindowOpened,
    /// A frame was read; its width in pixels.
    FrameRead { width: i32 },
    /// The frame was presented.
    FrameShown,
    /// The wait for a key ended; the key's code.
    KeyPressed(i32),
    /// Whether the display surface is still visible.
    WindowVisible(bool),
}

/// A preview in progress. It holds the exclusivity guard until it finishes.
#[derive(Clone, Copy, Debug, PartialEq, Eq, Structural)]
pub struct Preview {
    device_id: u32,
    stage: PreviewStage,
}

/// How a preview goes on after a step.
#[derive(Debug)]
pub enum PreviewStep {
    /// The preview goes on with the step that the value names.
    Continue(Preview),
    /// The preview is over and the guard is cleared.
    Finished(Result<(), CaptureError>),
}

/// How a preview goes on, as plain values.
pub enum PreviewOutcome {
    Continue(PreviewStage),
    Finished(Result<(), CaptureErrorView>),
}

/// The code of the key that cancels a preview.
pub const CANCEL_KEY: i32 = 27;

/// The time to wait for a key, in milliseconds.
pub const KEY_WAIT_MS: i32 = 10;

/// One step of the preview loop. A platform failure ends the preview. A
/// frame is shown only if it has a width. The cancel key ends the preview,
/// and so does a display surface that is no longer visible; the surface is
/// asked only if the key did not cancel. An event that does not answer the
/// pending step changes nothing: the step is still owed.
pub open spec fn after_event(
    stage: PreviewStage,
    event: Result<PreviewEvent, PlatformErrorView>,
) -> PreviewOutcome {
    match event {
        Err(e) => PreviewOutcome::Finished(Err(CaptureErrorView::OpenCv(e))),
        Ok(happened) => match (stage, happened) {
            (PreviewStage::OpenWindow, PreviewEvent::WindowOpened) => PreviewOutcome::Continue(
                PreviewStage::ReadFrame,
            ),
            (PreviewStage::ReadFrame, PreviewEvent::FrameRead { width }) => PreviewOutcome::Continue(
                if width > 0 {
                    PreviewStage::ShowFrame
                } else {
                    PreviewStage::WaitKey
                },
            ),
            (PreviewStage::ShowFrame, PreviewEvent::FrameShown) => PreviewOutcome::Continue(
                PreviewStage::WaitKey,
            ),
            (PreviewStage::WaitKey, PreviewEvent::KeyPressed(key)) => if key == CANCEL_KEY {
                PreviewOutcome::Finished(Ok(()))
            } else {
                PreviewOutcome::Continue(PreviewStage::QueryWindow)
            },
            (PreviewStage::QueryWindow, PreviewEvent::WindowVisible(visible)) => if visible {
                PreviewOutcome::Continue(PreviewStage::ReadFrame)
            } else {
                PreviewOutcome::Finished(Ok(()))
            },
            _ => PreviewOutcome::Continue(stage),
        },
    }
}

/// The title of the preview window: the name of the previewed device among
/// the enumerated ones, or a stand-in where the device is not among them.
pub open spec fn title_of(devices: Seq<String>, device_id: u32) -> Seq<char> {
    if device_id < devices.len() {
        devices[device_id as int]@
    } else {
        "unknown capture device"@
    }
}

impl Preview {
    /// A preview of the given device that is about to open its window.
    pub closed spec fn opening(device_id: u32) -> Preview {
        Preview { device_id, stage: PreviewStage::OpenWindow }
    }

    /// The step that is owed.
    pub closed spec fn pending(self) -> PreviewStage {
        self.stage
    }

    /// The same preview at another step.
    pub closed spec fn at(self, stage: PreviewStage) -> Preview {
        Preview { stage, ..self }
    }

    /// The index of the previewed device.
    pub closed spec fn device(self) -> u32 {
        self.device_id
    }

    /// An opening preview owes its window, and moving a preview to a step
    /// changes the step alone.
    pub broadcast proof fn lemma_stage(self, stage: PreviewStage, device_id: u32)
        ensures
            #![trigger self.at(stage), Preview::opening(device_id)]
            Preview::opening(device_id).pending() == PreviewStage::OpenWindow,
            Preview::opening(device_id).device() == device_id,
            self.at(stage).pending() == stage,
            self.at(stage).device() == self.device(),
            self.at(self.pending()) == self,
    {
    }

    pub(crate) fn begin(device_id: u32) -> (preview: Preview)
        ensures
            preview == Preview::opening(device_id),
    {
        Preview { device_id, stage: PreviewStage::OpenWindow }
    }

    /// The step that the driver is to take now.
    pub fn stage(&self) -> (stage: PreviewStage)
        ensures
            stage == self.pending(),
    {
        self.stage
    }

    /// The title to give the preview window. `devices` are the names of
    /// the enumerated devices, none where they could not be enumerated.
    pub fn window_title(&self, devices: &[String]) -> (title: String)
        ensures
            title@ == title_of(devices@, self.device()),
    {
        let index: usize = self.device_id as usize;
        if index < devices.len() {
            devices[index].clone()
        } else {
            String::from_str("unknown capture device")
        }
    }

    /// Takes what the pending step gave and says how the preview goes on.
    /// However the preview ends, the guard is cleared; while it goes on the
    /// guard stays as it is.
    pub fn advance(self, guard: &mut ExclusivityGuard, event: Result<PreviewEvent, PlatformError>) -> (step:
        PreviewStep)
        ensures
            match after_event(self.pending(), report_view(event)) {
                PreviewOutcome::Continue(stage) => step matches PreviewStep::Continue(p) && p
                    == self.at(stage) && *final(guard) == *old(guard),
                PreviewOutcome::Finished(r) => step matches PreviewStep::Finished(ended)
                    && outcome_view(ended) == r && *final(guard) == old(guard).cleared(),
            },
    {
        let happened: PreviewEvent = match event {
            Err(e) => {
                guard.release();
                return PreviewStep::Finished(Err(CaptureError::OpenCv(e)));
            },
            Ok(happened) => happened,
        };
        let next: PreviewStage = match (self.stage, happened) {
            (PreviewStage::OpenWindow, PreviewEvent::WindowOpened) => PreviewStage::ReadFrame,
            (PreviewStage::ReadFrame, PreviewEvent::FrameRead { width }) => {
                if width > 0 {
                    PreviewStage::ShowFrame
                } else {
                    PreviewStage::WaitKey
                }
            },
            (PreviewStage::ShowFrame, PreviewEvent::FrameShown) => PreviewStage::WaitKey,
            (PreviewStage::WaitKey, PreviewEvent::KeyPressed(key)) => {
                if key == CANCEL_KEY {
                    guard.release();
                    return PreviewStep::Finished(Ok(()));
                }
                PreviewStage::QueryWindow
            },
            (PreviewStage::QueryWindow, PreviewEvent::WindowVisible(visible)) => {
                if !visible {
                    guard.release();
                    return PreviewStep::Finished(Ok(()));
                }
                PreviewStage::ReadFrame
            },
            _ => self.stage,
        };
        PreviewStep::Continue(Preview { device_id: self.device_id, stage: next })
    }
}

} // verus!
