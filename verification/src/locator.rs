//! The bridge to the face detector: the image that goes into it, and the
//! gaze target that is read from what comes out of it.

use vstd::prelude::*;
use crate::frame::IntensityMap;
use crate::pipeline::FRAME_INTERVAL_MS;
use crate::pipeline::NextStep;
use crate::region::DetectedRegion;
use crate::region::NormalizedPosition;
use crate::region::normalize;
use crate::region::normalized;

verus! {

/// The detector's single-channel image, borrowed from a buffer.
#[verifier::external_type_specification]
#[verifier::external_body]
pub struct ExImageData<'a>(rustface::ImageData<'a>);

/// One face as the detector reports it.
#[verifier::external_type_specification]
#[verifier::external_body]
pub struct ExFaceInfo(rustface::FaceInfo);

/// The pixels that a detector image holds, row by row.
pub uninterp spec fn image_pixels(image: rustface::ImageData) -> Seq<u8>;

/// The width that a detector image was made with.
pub uninterp spec fn image_width(image: rustface::ImageData) -> u32;

/// The height that a detector image was made with.
pub uninterp spec fn image_height(image: rustface::ImageData) -> u32;

/// `rustface::ImageData::new`: an image of the given size over `data`. The
/// constructor keeps the slice and the size as they are given, and panics
/// unless the slice has one byte for each pixel.
#[verifier::external_body]
fn image_over<'a>(data: &'a [u8], width: u32, height: u32) -> (image: rustface::ImageData<'a>)
    requires
        data@.len() == width * height,
    ensures
        image_pixels(image) == data@,
        image_width(image) == width,
        image_height(image) == height,
{
    rustface::ImageData::new(data, width, height)
}

/// The box that a reported face carries.
pub uninterp spec fn reported_box(face: rustface::FaceInfo) -> DetectedRegion;

/// `rustface::FaceInfo::bbox` and the getters of its `Rectangle`: the box of
/// a reported face, field by field. Nothing is claimed of where the box
/// lies: it is whatever the detector put there.
#[verifier::external_body]
fn bounding_box(face: &rustface::FaceInfo) -> (region: DetectedRegion)
    ensures
        region == reported_box(*face),
{
    let bbox = face.bbox();
    DetectedRegion { x: bbox.x(), y: bbox.y(), width: bbox.width(), height: bbox.height() }
}

/// The image that the detector takes for an intensity map: the map's own
/// pixels and size. There is none for a map that is empty or whose buffer
/// does not fit its size, which a detector cannot take.
pub fn detector_input(map: &IntensityMap) -> (image: Option<rustface::ImageData<'_>>)
    ensures
        image.is_some() <==> map.well_formed() && map.width > 0 && map.height > 0,
        image.is_some() ==> {
            &&& image_pixels(image.unwrap()) == map.data@
            &&& image_width(image.unwrap()) == map.width
            &&& image_height(image.unwrap()) == map.height
        },
{
    assert(0 <= map.width * map.height <= 0xffff_ffff * 0xffff_ffff) by (nonlinear_arith)
        requires
            0 <= map.width <= 0xffff_ffff,
            0 <= map.height <= 0xffff_ffff,
    ;
    let count: u64 = (map.width as u64) * (map.height as u64);
    let given: usize = map.data.len();
    if map.width == 0 || map.height == 0 || given as u64 != count {
        return None;
    }
    Some(image_over(map.data.as_slice(), map.width, map.height))
}

/// The gaze target that a detector's report gives over a frame that is not
/// empty: the position of the first face's box, or none where no face was
/// reported. Over an empty frame there is no target.
pub open spec fn target_of_faces(
    faces: Seq<rustface::FaceInfo>,
    frame_width: u32,
    frame_height: u32,
) -> Option<NormalizedPosition> {
    if faces.len() > 0 && frame_width > 0 && frame_height > 0 {
        Some(normalized(reported_box(faces[0]), frame_width, frame_height))
    } else {
        None
    }
}

/// The gaze target for what the detector reported over a frame of the given
/// size: the position of the first face. No face gives no target, and a
/// target is always in range.
pub fn target_from_faces(faces: &Vec<rustface::FaceInfo>, frame_width: u32, frame_height: u32)
    -> (target: Option<NormalizedPosition>)
    ensures
        target == target_of_faces(faces@, frame_width, frame_height),
        faces@.len() == 0 ==> target.is_none(),
        target.is_some() ==> target.unwrap().in_range(),
{
    if faces.len() == 0 || frame_width == 0 || frame_height == 0 {
        return None;
    }
    let first: DetectedRegion = bounding_box(&faces[0]);
    Some(normalize(&first, frame_width, frame_height))
}

/// The step that follows a run of the detector: the target is published,
/// and the loop pauses.
pub fn after_faces(faces: &Vec<rustface::FaceInfo>, frame_width: u32, frame_height: u32) -> (step:
    NextStep)
    ensures
        step == (NextStep::Publish {
            target: target_of_faces(faces@, frame_width, frame_height),
            delay_ms: FRAME_INTERVAL_MS,
        }),
        faces@.len() == 0 ==> step == (NextStep::Publish {
            target: None,
            delay_ms: FRAME_INTERVAL_MS,
        }),
        step->target.is_some() ==> step->target.unwrap().in_range(),
{
    let target: Option<NormalizedPosition> = target_from_faces(faces, frame_width, frame_height);
    NextStep::Publish { target, delay_ms: FRAME_INTERVAL_MS }
}

} // verus!
