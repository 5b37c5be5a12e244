//! Tuning of the face detector.

use vstd::prelude::*;

verus! {

/// Smallest face size that a detector can be asked for, in pixels.
pub const SMALLEST_FACE_SIZE: u32 = 20;

/// The four parameters that trade recall for throughput. Fractions are held
/// in thousandths.
#[derive(Clone, Copy, Debug, PartialEq, Eq, Structural)]
pub struct DetectorConfig {
    /// Smallest face to look for, in pixels.
    pub min_face_size: u32,
    /// Score below which a candidate is dropped, in thousandths.
    pub score_threshold_milli: u32,
    /// Factor between one scale of the search and the next, in thousandths.
    pub scale_factor_milli: u32,
    /// Horizontal step between candidate windows, in pixels.
    pub stride_x: u32,
    /// Vertical step between candidate windows, in pixels.
    pub stride_y: u32,
}

impl DetectorConfig {
    /// A detector accepts these parameters: the face size is not under the
    /// smallest, the threshold and both strides are positive, and the scale
    /// factor lies between 0.01 and 0.99.
    pub open spec fn valid(&self) -> bool {
        &&& self.min_face_size >= SMALLEST_FACE_SIZE
        &&& self.score_threshold_milli > 0
        &&& 10 <= self.scale_factor_milli <= 990
        &&& self.stride_x > 0
        &&& self.stride_y > 0
    }

    /// The tuning that the tracker runs with: faces from 30 pixels, a score
    /// threshold of 1.0, a scale factor of 0.8, a stride of 4 both ways.
    pub fn standard() -> (config: DetectorConfig)
        ensures
            config == (DetectorConfig {
                min_face_size: 30,
                score_threshold_milli: 1000,
                scale_factor_milli: 800,
                stride_x: 4,
                stride_y: 4,
            }),
            config.valid(),
    {
        DetectorConfig {
            min_face_size: 30,
            score_threshold_milli: 1000,
            scale_factor_milli: 800,
            stride_x: 4,
            stride_y: 4,
        }
    }

    /// Whether a detector accepts these parameters.
    pub fn is_valid(&self) -> (ok: bool)
        ensures
            ok == self.valid(),
    {
        self.min_face_size >= SMALLEST_FACE_SIZE && self.score_threshold_milli > 0
            && self.scale_factor_milli >= 10 && self.scale_factor_milli <= 990 && self.stride_x > 0
            && self.stride_y > 0
    }
}

} // verus!
