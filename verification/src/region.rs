//! Detected face regions and their resolution-independent position.

use vstd::prelude::*;

verus! {

/// One whole half-frame, in the fixed-point unit of positions: a coordinate
/// of `UNIT` stands for 1.0.
pub const UNIT: i32 = 1_000_000;

/// A candidate face: a box in pixel coordinates, origin at the top-left
/// corner of the frame, rows growing downward.
#[derive(Clone, Copy, Debug, PartialEq, Eq, Structural)]
pub struct DetectedRegion {
    pub x: i32,
    pub y: i32,
    pub width: u32,
    pub height: u32,
}

/// A position in the frame, in millionths: `x` runs from `-UNIT` at the left
/// edge to `UNIT` at the right edge, `y` from `-UNIT` at the bottom edge to
/// `UNIT` at the top edge.
#[derive(Clone, Copy, Debug, PartialEq, Eq, Structural)]
pub struct NormalizedPosition {
    pub x: i32,
    pub y: i32,
}

impl NormalizedPosition {
    /// Both coordinates lie between -1.0 and 1.0.
    pub open spec fn in_range(&self) -> bool {
        -UNIT <= self.x <= UNIT && -UNIT <= self.y <= UNIT
    }

    /// Whether both coordinates lie between -1.0 and 1.0.
    pub fn is_in_range(&self) -> (ok: bool)
        ensures
            ok == self.in_range(),
    {
        -UNIT <= self.x && self.x <= UNIT && -UNIT <= self.y && self.y <= UNIT
    }
}

impl DetectedRegion {
    /// The region is not empty and lies within a frame of the given size.
    pub open spec fn inside(&self, frame_width: u32, frame_height: u32) -> bool {
        &&& self.width > 0
        &&& self.height > 0
        &&& self.x >= 0
        &&& self.y >= 0
        &&& self.x + self.width <= frame_width
        &&& self.y + self.height <= frame_height
    }

    /// Twice the column of the region's centre: kept doubled, so that half a
    /// pixel is not lost.
    pub open spec fn doubled_center_x(&self) -> int {
        2 * self.x + self.width
    }

    /// Twice the row of the region's centre.
    pub open spec fn doubled_center_y(&self) -> int {
        2 * self.y + self.height
    }

    /// The region's centre lies within a frame of the given size, its edges
    /// included. The region itself may reach beyond the frame.
    pub open spec fn centered_within(&self, frame_width: u32, frame_height: u32) -> bool {
        &&& 0 <= self.doubled_center_x() <= 2 * frame_width
        &&& 0 <= self.doubled_center_y() <= 2 * frame_height
    }

    /// Whether the region is not empty and lies within a frame of the given
    /// size.
    pub fn is_inside(&self, frame_width: u32, frame_height: u32) -> (ok: bool)
        ensures
            ok == self.inside(frame_width, frame_height),
    {
        self.width > 0 && self.height > 0 && self.x >= 0 && self.y >= 0
            && (self.x as i64) + (self.width as i64) <= frame_width as i64
            && (self.y as i64) + (self.height as i64) <= frame_height as i64
    }
}

/// `(center / extent) * 2 - 1` in millionths, for a centre that is given
/// doubled; the last quotient is rounded down to a whole millionth.
pub open spec fn axis_position(doubled_center: int, extent: int) -> int {
    (doubled_center * UNIT) / extent - UNIT
}

/// The doubled coordinate of the point of the frame that is nearest to a
/// centre: the centre itself where it lies within the frame, else the edge
/// that it lies beyond.
pub open spec fn nearest_in_frame(doubled_center: int, extent: int) -> int {
    if doubled_center < 0 {
        0
    } else if doubled_center > 2 * extent {
        2 * extent
    } else {
        doubled_center
    }
}

/// The position of a region's centre: the horizontal axis as it stands, the
/// vertical axis inverted so that the top of the frame is positive. A centre
/// beyond the frame has the position of the nearest point of the frame's
/// edge.
pub open spec fn normalized(region: DetectedRegion, frame_width: u32, frame_height: u32)
    -> NormalizedPosition {
    NormalizedPosition {
        x: axis_position(
            nearest_in_frame(region.doubled_center_x(), frame_width as int),
            frame_width as int,
        ) as i32,
        y: (-axis_position(
            nearest_in_frame(region.doubled_center_y(), frame_height as int),
            frame_height as int,
        )) as i32,
    }
}

/// The gaze target that a detection result gives over a frame that is not
/// empty: the position of its first region, or none where it found nothing.
/// Over an empty frame there is no target.
pub open spec fn target_of(regions: Seq<DetectedRegion>, frame_width: u32, frame_height: u32)
    -> Option<NormalizedPosition> {
    if regions.len() > 0 && frame_width > 0 && frame_height > 0 {
        Some(normalized(regions[0], frame_width, frame_height))
    } else {
        None
    }
}

/// A centre between 0 and the extent has a position between -1.0 and 1.0;
/// the ends and the middle are met exactly.
pub proof fn lemma_axis_position_bounds(doubled_center: int, extent: int)
    requires
        0 <= doubled_center <= 2 * extent,
        0 < extent,
    ensures
        -UNIT <= axis_position(doubled_center, extent) <= UNIT,
        doubled_center == 0 ==> axis_position(doubled_center, extent) == -UNIT,
        doubled_center == extent ==> axis_position(doubled_center, extent) == 0,
        doubled_center == 2 * extent ==> axis_position(doubled_center, extent) == UNIT,
{
    let n = doubled_center * UNIT;
    let q = n / extent;
    assert(0 <= q <= 2 * UNIT && (doubled_center == 0 ==> q == 0) && (doubled_center == extent
        ==> q == UNIT) && (doubled_center == 2 * extent ==> q == 2 * UNIT)) by (nonlinear_arith)
        requires
            0 <= doubled_center <= 2 * extent,
            0 < extent,
            n == doubled_center * 1_000_000,
            q == n / extent,
            UNIT == 1_000_000,
    ;
}

/// A region that lies inside the frame has its centre within the frame.
pub proof fn lemma_inside_is_centered(region: DetectedRegion, frame_width: u32, frame_height: u32)
    requires
        region.inside(frame_width, frame_height),
    ensures
        region.centered_within(frame_width, frame_height),
        frame_width > 0,
        frame_height > 0,
{
}

/// Over a frame that is not empty every position is in range. For a centre
/// within the frame it is the formula's value on both axes: the frame's
/// centre has position (0, 0), the top-left corner (-1.0, 1.0) and the
/// bottom-right corner (1.0, -1.0). A centre beyond an edge has the position
/// of that edge.
pub proof fn lemma_normalized_in_range(region: DetectedRegion, frame_width: u32, frame_height: u32)
    requires
        frame_width > 0,
        frame_height > 0,
    ensures
        normalized(region, frame_width, frame_height).in_range(),
        ({
            let p = normalized(region, frame_width, frame_height);
            let cx = region.doubled_center_x();
            let cy = region.doubled_center_y();
            &&& 0 <= cx <= 2 * frame_width ==> p.x == axis_position(cx, frame_width as int)
            &&& 0 <= cy <= 2 * frame_height ==> p.y == -axis_position(cy, frame_height as int)
            &&& cx == frame_width ==> p.x == 0
            &&& cy == frame_height ==> p.y == 0
            &&& cx <= 0 ==> p.x == -UNIT
            &&& cy <= 0 ==> p.y == UNIT
            &&& cx >= 2 * frame_width ==> p.x == UNIT
            &&& cy >= 2 * frame_height ==> p.y == -UNIT
        }),
{
    lemma_axis_position_bounds(
        nearest_in_frame(region.doubled_center_x(), frame_width as int),
        frame_width as int,
    );
    lemma_axis_position_bounds(
        nearest_in_frame(region.doubled_center_y(), frame_height as int),
        frame_height as int,
    );
}

/// Only the centre counts: two regions with the same centre have the same
/// position, whatever their sizes.
pub proof fn lemma_only_the_center_counts(
    a: DetectedRegion,
    b: DetectedRegion,
    frame_width: u32,
    frame_height: u32,
)
    requires
        a.doubled_center_x() == b.doubled_center_x(),
        a.doubled_center_y() == b.doubled_center_y(),
    ensures
        normalized(a, frame_width, frame_height) == normalized(b, frame_width, frame_height),
{
}

/// Position of one axis for a centre given doubled, in millionths.
fn axis(doubled_center: i64, extent: u32) -> (p: i32)
    requires
        0 < extent,
    ensures
        p == axis_position(nearest_in_frame(doubled_center as int, extent as int), extent as int),
        -UNIT <= p <= UNIT,
{
    let limit: i64 = 2 * (extent as i64);
    let nearest: i64 = if doubled_center < 0 {
        0
    } else if doubled_center > limit {
        limit
    } else {
        doubled_center
    };
    proof {
        lemma_axis_position_bounds(nearest as int, extent as int);
    }
    let scaled: u64 = (nearest as u64) * (UNIT as u64);
    let quotient: u64 = scaled / (extent as u64);
    (quotient as i64 - UNIT as i64) as i32
}

/// Maps the centre of a region to its position in a frame that is not
/// empty.
pub fn normalize(region: &DetectedRegion, frame_width: u32, frame_height: u32) -> (position:
    NormalizedPosition)
    requires
        frame_width > 0,
        frame_height > 0,
    ensures
        position == normalized(*region, frame_width, frame_height),
        position.in_range(),
{
    let doubled_x: i64 = 2 * (region.x as i64) + (region.width as i64);
    let doubled_y: i64 = 2 * (region.y as i64) + (region.height as i64);
    let x: i32 = axis(doubled_x, frame_width);
    let y: i32 = axis(doubled_y, frame_height);
    NormalizedPosition { x, y: -y }
}

/// The gaze target for one detection result: only the first region counts.
pub fn target_from_detections(regions: &Vec<DetectedRegion>, frame_width: u32, frame_height: u32)
    -> (target: Option<NormalizedPosition>)
    ensures
        target == target_of(regions@, frame_width, frame_height),
        target.is_some() ==> target.unwrap().in_range(),
{
    if regions.len() == 0 || frame_width == 0 || frame_height == 0 {
        return None;
    }
    let first: DetectedRegion = regions[0];
    Some(normalize(&first, frame_width, frame_height))
}

} // verus!
