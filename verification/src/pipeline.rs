//! The decisions of the detection loop: what follows a capture, what follows
//! a detection, and how each failure is recovered from.

use vstd::prelude::*;
use crate::frame::Frame;
use crate::frame::IntensityMap;
use crate::frame::gray_of;
use crate::frame::to_intensity;
use crate::region::DetectedRegion;
use crate::region::NormalizedPosition;
use crate::region::target_from_detections;
use crate::region::target_of;

verus! {

/// Pause after a failed capture before the next one is tried, in
/// milliseconds.
pub const RETRY_DELAY_MS: u64 = 100;

/// Pause after each publish, in milliseconds: it holds the loop near thirty
/// cycles a second.
pub const FRAME_INTERVAL_MS: u64 = 33;

/// What can go wrong around the tracking pipeline.
#[derive(Clone, Copy, Debug, PartialEq, Eq, Structural)]
pub enum TrackingError {
    /// The camera cannot be opened.
    DeviceUnavailable,
    /// One frame could not be captured.
    CaptureFailed,
    /// The payload of one frame is malformed.
    DecodeFailed,
    /// The detection model is not on disk.
    ModelMissing,
    /// The detection model could not be fetched.
    ModelFetchFailed,
    /// The primitive that guards the shared slot is inconsistent.
    StateCorrupted,
}

/// How a failure is recovered from. None of them reaches the render loop.
#[derive(Clone, Copy, Debug, PartialEq, Eq, Structural)]
pub enum Recovery {
    /// The detection loop never starts; readers see no target.
    NeverStart,
    /// Capture again after a pause.
    RetryAfter { delay_ms: u64 },
    /// Drop this frame without publishing, and capture the next.
    SkipFrame,
    /// Try to fetch the model before first use.
    FetchModel,
    /// Run without detection: no face is ever seen.
    DisableDetection,
    /// The read gives no target.
    ReadAsAbsent,
}

/// The recovery that each failure calls for.
pub open spec fn recovery_of(error: TrackingError) -> Recovery {
    match error {
        TrackingError::DeviceUnavailable => Recovery::NeverStart,
        TrackingError::CaptureFailed => Recovery::RetryAfter { delay_ms: RETRY_DELAY_MS },
        TrackingError::DecodeFailed => Recovery::SkipFrame,
        TrackingError::ModelMissing => Recovery::FetchModel,
        TrackingError::ModelFetchFailed => Recovery::DisableDetection,
        TrackingError::StateCorrupted => Recovery::ReadAsAbsent,
    }
}

/// The recovery that a failure calls for.
pub fn recovery_for(error: TrackingError) -> (recovery: Recovery)
    ensures
        recovery == recovery_of(error),
{
    match error {
        TrackingError::DeviceUnavailable => Recovery::NeverStart,
        TrackingError::CaptureFailed => Recovery::RetryAfter { delay_ms: RETRY_DELAY_MS },
        TrackingError::DecodeFailed => Recovery::SkipFrame,
        TrackingError::ModelMissing => Recovery::FetchModel,
        TrackingError::ModelFetchFailed => Recovery::DisableDetection,
        TrackingError::StateCorrupted => Recovery::ReadAsAbsent,
    }
}

/// How one attempt to take a frame from the camera ended.
#[derive(Clone, Debug, PartialEq, Eq)]
pub enum CaptureOutcome {
    /// The camera gave no frame.
    CaptureFailed,
    /// The camera gave a frame that could not be decoded.
    DecodeFailed,
    /// A decoded frame: its size and its interleaved 3-channel pixels.
    Decoded { width: u32, height: u32, pixels: Vec<u8> },
}

/// What the detection loop does next.
#[derive(Clone, Debug, PartialEq, Eq)]
pub enum NextStep {
    /// Publish nothing; capture again after the pause.
    Capture { delay_ms: u64 },
    /// Run the detector over the map, then go on with what it found.
    Detect { map: IntensityMap },
    /// Publish the target, pause, then capture again.
    Publish { target: Option<NormalizedPosition>, delay_ms: u64 },
}

/// The step that follows a capture. A failed capture is tried again after
/// the retry pause. A frame that cannot be decoded, or whose payload does not
/// fit its size, is skipped at once. An empty frame shows no face. Any other
/// frame goes to the detector as its intensity map.
pub fn after_capture(outcome: CaptureOutcome) -> (step: NextStep)
    ensures
        outcome is CaptureFailed ==> step == (NextStep::Capture { delay_ms: RETRY_DELAY_MS }),
        outcome is DecodeFailed ==> step == (NextStep::Capture { delay_ms: 0 }),
        match outcome {
            CaptureOutcome::Decoded { width, height, pixels } => {
                if pixels@.len() != width * height * 3 {
                    step == (NextStep::Capture { delay_ms: 0 })
                } else if width == 0 || height == 0 {
                    step == (NextStep::Publish { target: None, delay_ms: FRAME_INTERVAL_MS })
                } else {
                    &&& step is Detect
                    &&& step->map.well_formed()
                    &&& step->map.width == width
                    &&& step->map.height == height
                    &&& step->map.data@ == gray_of(pixels@, (width * height) as nat)
                }
            },
            _ => true,
        },
{
    match outcome {
        CaptureOutcome::CaptureFailed => NextStep::Capture { delay_ms: RETRY_DELAY_MS },
        CaptureOutcome::DecodeFailed => NextStep::Capture { delay_ms: 0 },
        CaptureOutcome::Decoded { width, height, pixels } => {
            match Frame::new(width, height, pixels) {
                None => NextStep::Capture { delay_ms: 0 },
                Some(frame) => {
                    if width == 0 || height == 0 {
                        NextStep::Publish { target: None, delay_ms: FRAME_INTERVAL_MS }
                    } else {
                        NextStep::Detect { map: to_intensity(&frame) }
                    }
                },
            }
        },
    }
}

/// The step that follows a detection over a frame of the given size: the
/// position of the first region found is published, or no target where
/// nothing was found.
pub fn after_detection(regions: &Vec<DetectedRegion>, frame_width: u32, frame_height: u32) -> (step:
    NextStep)
    ensures
        step == (NextStep::Publish {
            target: target_of(regions@, frame_width, frame_height),
            delay_ms: FRAME_INTERVAL_MS,
        }),
        step->target.is_some() ==> step->target.unwrap().in_range(),
{
    let target: Option<NormalizedPosition> = target_from_detections(
        regions,
        frame_width,
        frame_height,
    );
    NextStep::Publish { target, delay_ms: FRAME_INTERVAL_MS }
}

} // verus!
