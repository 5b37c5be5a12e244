//! From gaze target to eye orientation: the target angles and the per-tick
//! blend toward them.

use vstd::prelude::*;
use crate::gaze::SlotAccess;
use crate::gaze::observed;
use crate::gaze::read_or_absent;
use crate::region::NormalizedPosition;
use crate::region::UNIT;

verus! {

/// Largest yaw to either side: a quarter of pi, in microradians.
pub const MAX_YAW: i32 = 785_398;

/// Largest pitch up or down: a sixth of pi, in microradians.
pub const MAX_PITCH: i32 = 523_599;

/// Share of the remaining distance that one tick covers, in hundredths.
pub const BLEND_PERCENT: i32 = 15;

/// Rotation of the eye, in microradians.
#[derive(Clone, Copy, Debug, PartialEq, Eq, Structural)]
pub struct Orientation {
    pub yaw: i32,
    pub pitch: i32,
}

impl Orientation {
    /// Both angles lie within the eye's range of motion.
    pub open spec fn within_limits(&self) -> bool {
        -MAX_YAW <= self.yaw <= MAX_YAW && -MAX_PITCH <= self.pitch <= MAX_PITCH
    }
}

/// `fraction * limit`, for a fraction in millionths, rounded toward zero.
pub open spec fn scaled_angle(fraction: int, limit: int) -> int {
    if fraction >= 0 {
        (fraction * limit) / (UNIT as int)
    } else {
        -((-fraction * limit) / (UNIT as int))
    }
}

/// The position that the eye looks at: the target, or the centre when no
/// face is visible.
pub open spec fn looked_at(gaze: Option<NormalizedPosition>) -> NormalizedPosition {
    match gaze {
        Some(p) => p,
        None => NormalizedPosition { x: 0, y: 0 },
    }
}

/// The orientation that a gaze target asks for: yaw mirrors the horizontal
/// position, pitch follows the vertical one.
pub open spec fn target_for(gaze: Option<NormalizedPosition>) -> Orientation {
    Orientation {
        yaw: (-scaled_angle(looked_at(gaze).x as int, MAX_YAW as int)) as i32,
        pitch: scaled_angle(looked_at(gaze).y as int, MAX_PITCH as int) as i32,
    }
}

/// How far one tick moves over a distance that is not negative: the blend
/// share of it, rounded up, so that any distance left shrinks.
pub open spec fn step_over(distance: int) -> int {
    (BLEND_PERCENT * distance + 99) / 100
}

/// One angle after one tick toward `target`.
pub open spec fn blended(current: int, target: int) -> int {
    if target >= current {
        current + step_over(target - current)
    } else {
        current - step_over(current - target)
    }
}

/// An orientation after one tick toward `target`, axis by axis.
pub open spec fn blended_orientation(current: Orientation, target: Orientation) -> Orientation {
    Orientation {
        yaw: blended(current.yaw as int, target.yaw as int) as i32,
        pitch: blended(current.pitch as int, target.pitch as int) as i32,
    }
}

/// Distance between two angles.
pub open spec fn gap(a: int, b: int) -> int {
    if a >= b {
        a - b
    } else {
        b - a
    }
}

/// One angle after `ticks` ticks toward a target that stays the same.
pub open spec fn blended_after(current: int, target: int, ticks: nat) -> int
    decreases ticks,
{
    if ticks == 0 {
        current
    } else {
        blended_after(blended(current, target), target, (ticks - 1) as nat)
    }
}

/// An orientation after `ticks` ticks toward a target that stays the same.
pub open spec fn orientation_after(start: Orientation, target: Orientation, ticks: nat)
    -> Orientation
    decreases ticks,
{
    if ticks == 0 {
        start
    } else {
        orientation_after(blended_orientation(start, target), target, (ticks - 1) as nat)
    }
}

/// `base` to the power of `n`.
pub open spec fn power(base: int, n: nat) -> int
    decreases n,
{
    if n == 0 {
        1
    } else {
        base * power(base, (n - 1) as nat)
    }
}

/// The target of a position in range lies within the eye's range of motion,
/// and an absent target asks for the centre.
pub proof fn lemma_target_within_limits(gaze: Option<NormalizedPosition>)
    requires
        gaze.is_some() ==> gaze.unwrap().in_range(),
    ensures
        target_for(gaze).within_limits(),
        target_for(gaze).yaw == -scaled_angle(looked_at(gaze).x as int, MAX_YAW as int),
        target_for(gaze).pitch == scaled_angle(looked_at(gaze).y as int, MAX_PITCH as int),
        gaze.is_none() ==> target_for(gaze) == (Orientation { yaw: 0, pitch: 0 }),
{
}

/// One tick never passes the target and never moves away from it: the new
/// angle lies between the old one and the target.
pub proof fn lemma_blend_stays_between(current: int, target: int)
    ensures
        current <= target ==> current <= blended(current, target) <= target,
        current >= target ==> current >= blended(current, target) >= target,
        current == target ==> blended(current, target) == target,
{
}

/// One tick leaves at most 85 hundredths of the distance, and less than the
/// whole of any distance that is not zero.
pub proof fn lemma_blend_shrinks_gap(current: int, target: int)
    ensures
        100 * gap(blended(current, target), target) <= 85 * gap(current, target),
        current != target ==> gap(blended(current, target), target) < gap(current, target),
{
}

/// With a constant target, the angle after any number of ticks lies between
/// the start and the target: it never overshoots on its way.
pub proof fn lemma_ticks_stay_between(current: int, target: int, ticks: nat)
    ensures
        current <= target ==> current <= blended_after(current, target, ticks) <= target,
        current >= target ==> current >= blended_after(current, target, ticks) >= target,
    decreases ticks,
{
    if ticks > 0 {
        lemma_blend_stays_between(current, target);
        lemma_ticks_stay_between(blended(current, target), target, (ticks - 1) as nat);
    }
}

/// With a constant target, every tick takes at least one microradian off a
/// distance that is not zero: after as many ticks as the distance was long,
/// the angle is the target.
pub proof fn lemma_ticks_reach_target(current: int, target: int, ticks: nat)
    ensures
        gap(blended_after(current, target, ticks), target) <= gap(current, target),
        gap(blended_after(current, target, ticks), target) <= if gap(current, target) >= ticks {
            gap(current, target) - ticks
        } else {
            0
        },
        ticks >= gap(current, target) ==> blended_after(current, target, ticks) == target,
    decreases ticks,
{
    if ticks > 0 {
        lemma_blend_shrinks_gap(current, target);
        lemma_ticks_reach_target(blended(current, target), target, (ticks - 1) as nat);
    }
}

/// With a constant target, the distance left after `ticks` ticks is at most
/// 0.85 to the power of `ticks` times the distance at the start: the angle
/// comes as close to the target as one likes.
pub proof fn lemma_ticks_converge(current: int, target: int, ticks: nat)
    ensures
        power(100, ticks) * gap(blended_after(current, target, ticks), target) <= power(85, ticks)
            * gap(current, target),
    decreases ticks,
{
    if ticks > 0 {
        let next = blended(current, target);
        let rest = (ticks - 1) as nat;
        lemma_blend_shrinks_gap(current, target);
        lemma_ticks_converge(next, target, rest);
        let g0 = gap(current, target);
        let g1 = gap(next, target);
        let gn = gap(blended_after(next, target, rest), target);
        let p100 = power(100, rest);
        let p85 = power(85, rest);
        assert(power(100, ticks) == 100 * p100);
        assert(power(85, ticks) == 85 * p85);
        lemma_power_positive(85, rest);
        assert((100 * p100) * gn <= (85 * p85) * g0) by (nonlinear_arith)
            requires
                p100 * gn <= p85 * g1,
                100 * g1 <= 85 * g0,
                p85 > 0,
                g1 >= 0,
                g0 >= 0,
        ;
    }
}

/// A power of a positive base is positive.
pub proof fn lemma_power_positive(base: int, n: nat)
    requires
        base > 0,
    ensures
        power(base, n) > 0,
    decreases n,
{
    if n > 0 {
        lemma_power_positive(base, (n - 1) as nat);
        assert(base * power(base, (n - 1) as nat) > 0) by (nonlinear_arith)
            requires
                base > 0,
                power(base, (n - 1) as nat) > 0,
        ;
    }
}

/// The two axes move independently: each angle of an orientation after
/// `ticks` ticks is that angle blended `ticks` times toward its own target.
pub proof fn lemma_orientation_after_by_axis(start: Orientation, target: Orientation, ticks: nat)
    ensures
        orientation_after(start, target, ticks).yaw == blended_after(
            start.yaw as int,
            target.yaw as int,
            ticks,
        ),
        orientation_after(start, target, ticks).pitch == blended_after(
            start.pitch as int,
            target.pitch as int,
            ticks,
        ),
    decreases ticks,
{
    if ticks > 0 {
        lemma_blend_stays_between(start.yaw as int, target.yaw as int);
        lemma_blend_stays_between(start.pitch as int, target.pitch as int);
        lemma_orientation_after_by_axis(
            blended_orientation(start, target),
            target,
            (ticks - 1) as nat,
        );
    }
}

/// Ticking with a constant target brings the orientation as close to the
/// target as one likes: after `ticks` ticks the distance left on each axis is
/// at most 0.85 to the power of `ticks` times the distance at the start, and
/// it is zero once the ticks are as many as that distance was long. On the
/// way no axis passes its target: from rest toward a positive target, the
/// angle stays between zero and the target.
pub proof fn lemma_constant_target_is_approached(
    start: Orientation,
    target: Orientation,
    ticks: nat,
)
    ensures
        ({
            let now = orientation_after(start, target, ticks);
            &&& start.yaw <= target.yaw ==> start.yaw <= now.yaw <= target.yaw
            &&& start.yaw >= target.yaw ==> start.yaw >= now.yaw >= target.yaw
            &&& start.pitch <= target.pitch ==> start.pitch <= now.pitch <= target.pitch
            &&& start.pitch >= target.pitch ==> start.pitch >= now.pitch >= target.pitch
            &&& power(100, ticks) * gap(now.yaw as int, target.yaw as int) <= power(85, ticks)
                * gap(start.yaw as int, target.yaw as int)
            &&& power(100, ticks) * gap(now.pitch as int, target.pitch as int) <= power(85, ticks)
                * gap(start.pitch as int, target.pitch as int)
            &&& ticks >= gap(start.yaw as int, target.yaw as int) ==> now.yaw == target.yaw
            &&& ticks >= gap(start.pitch as int, target.pitch as int) ==> now.pitch
                == target.pitch
        }),
{
    lemma_orientation_after_by_axis(start, target, ticks);
    lemma_ticks_stay_between(start.yaw as int, target.yaw as int, ticks);
    lemma_ticks_stay_between(start.pitch as int, target.pitch as int, ticks);
    lemma_ticks_reach_target(start.yaw as int, target.yaw as int, ticks);
    lemma_ticks_reach_target(start.pitch as int, target.pitch as int, ticks);
    lemma_ticks_converge(start.yaw as int, target.yaw as int, ticks);
    lemma_ticks_converge(start.pitch as int, target.pitch as int, ticks);
}

/// With no face visible for `ticks` ticks in a row, the orientation moves
/// toward the centre from wherever it stood: no angle grows or changes its
/// sign, the distance left is at most 0.85 to the power of `ticks` times the
/// distance at the start, and the eye is at rest once the ticks are as many
/// as the larger of the two angles.
pub proof fn lemma_idle_returns_to_center(start: Orientation, ticks: nat)
    ensures
        target_for(None) == (Orientation { yaw: 0, pitch: 0 }),
        ({
            let now = orientation_after(start, target_for(None), ticks);
            &&& gap(now.yaw as int, 0) <= gap(start.yaw as int, 0)
            &&& gap(now.pitch as int, 0) <= gap(start.pitch as int, 0)
            &&& start.yaw >= 0 ==> now.yaw >= 0
            &&& start.yaw <= 0 ==> now.yaw <= 0
            &&& start.pitch >= 0 ==> now.pitch >= 0
            &&& start.pitch <= 0 ==> now.pitch <= 0
            &&& power(100, ticks) * gap(now.yaw as int, 0) <= power(85, ticks) * gap(
                start.yaw as int,
                0,
            )
            &&& power(100, ticks) * gap(now.pitch as int, 0) <= power(85, ticks) * gap(
                start.pitch as int,
                0,
            )
            &&& ticks >= gap(start.yaw as int, 0) && ticks >= gap(start.pitch as int, 0) ==> now
                == (Orientation { yaw: 0, pitch: 0 })
        }),
{
    let center = Orientation { yaw: 0, pitch: 0 };
    assert(target_for(None) == center);
    lemma_constant_target_is_approached(start, center, ticks);
    lemma_ticks_reach_target(start.yaw as int, 0, ticks);
    lemma_ticks_reach_target(start.pitch as int, 0, ticks);
    lemma_orientation_after_by_axis(start, center, ticks);
}

/// `fraction * limit` for a fraction between -1.0 and 1.0, rounded toward
/// zero.
fn scale_angle(fraction: i32, limit: i32) -> (angle: i32)
    requires
        -UNIT <= fraction <= UNIT,
        0 <= limit <= 4_000_000,
    ensures
        angle == scaled_angle(fraction as int, limit as int),
        -limit <= angle <= limit,
{
    assert(-4_000_000_000_000 <= fraction * limit <= 4_000_000_000_000 && (fraction >= 0 ==> 0
        <= fraction * limit <= 1_000_000 * limit) && (fraction <= 0 ==> 0 <= (-fraction) * limit
        <= 1_000_000 * limit)) by (nonlinear_arith)
        requires
            -1_000_000 <= fraction <= 1_000_000,
            0 <= limit <= 4_000_000,
    ;
    if fraction >= 0 {
        let product: i64 = (fraction as i64) * (limit as i64);
        (product / (UNIT as i64)) as i32
    } else {
        let product: i64 = (-(fraction as i64)) * (limit as i64);
        (-(product / (UNIT as i64))) as i32
    }
}

/// The orientation that a gaze target asks for; no target asks for the
/// centre.
pub fn target_orientation(gaze: Option<NormalizedPosition>) -> (target: Orientation)
    requires
        gaze.is_some() ==> gaze.unwrap().in_range(),
    ensures
        target == target_for(gaze),
        target.within_limits(),
{
    let position: NormalizedPosition = match gaze {
        Some(p) => p,
        None => NormalizedPosition { x: 0, y: 0 },
    };
    let yaw: i32 = scale_angle(position.x, MAX_YAW);
    let pitch: i32 = scale_angle(position.y, MAX_PITCH);
    Orientation { yaw: -yaw, pitch }
}

/// One angle after one tick toward `target`.
pub fn blend(current: i32, target: i32) -> (next: i32)
    ensures
        next == blended(current as int, target as int),
        current <= target ==> current <= next <= target,
        current >= target ==> current >= next >= target,
{
    let share: i64 = BLEND_PERCENT as i64;
    assert(share == 15);
    if target >= current {
        let distance: i64 = target as i64 - current as i64;
        let step: i64 = (share * distance + 99) / 100;
        (current as i64 + step) as i32
    } else {
        let distance: i64 = current as i64 - target as i64;
        let step: i64 = (share * distance + 99) / 100;
        (current as i64 - step) as i32
    }
}

/// Keeps the eye's current orientation and moves it, tick by tick, toward
/// where the latest gaze target asks it to be.
#[derive(Clone, Copy, Debug)]
pub struct GazeSmoother {
    current: Orientation,
}

impl GazeSmoother {
    /// The current orientation.
    pub closed spec fn view(&self) -> Orientation {
        self.current
    }

    /// A smoother at rest: looking at the centre.
    pub fn new() -> (smoother: GazeSmoother)
        ensures
            smoother@ == (Orientation { yaw: 0, pitch: 0 }),
    {
        GazeSmoother { current: Orientation { yaw: 0, pitch: 0 } }
    }

    /// A smoother that starts from a given orientation.
    pub fn starting_at(orientation: Orientation) -> (smoother: GazeSmoother)
        ensures
            smoother@ == orientation,
    {
        GazeSmoother { current: orientation }
    }

    /// The current orientation.
    pub fn orientation(&self) -> (current: Orientation)
        ensures
            current == self@,
    {
        self.current
    }

    /// One animation tick: moves the orientation one blend step toward the
    /// target of `gaze` and returns it.
    pub fn tick(&mut self, gaze: Option<NormalizedPosition>) -> (current: Orientation)
        requires
            gaze.is_some() ==> gaze.unwrap().in_range(),
        ensures
            final(self)@ == blended_orientation(old(self)@, target_for(gaze)),
            current == final(self)@,
            current.yaw == blended(old(self)@.yaw as int, target_for(gaze).yaw as int),
            current.pitch == blended(old(self)@.pitch as int, target_for(gaze).pitch as int),
            old(self)@.within_limits() ==> current.within_limits(),
    {
        let target: Orientation = target_orientation(gaze);
        let yaw: i32 = blend(self.current.yaw, target.yaw);
        let pitch: i32 = blend(self.current.pitch, target.pitch);
        self.current = Orientation { yaw, pitch };
        self.current
    }

    /// One animation tick that samples the shared slot first: a slot that
    /// holds no target, or cannot be read, is followed as the centre.
    pub fn follow(&mut self, access: &SlotAccess) -> (current: Orientation)
        ensures
            final(self)@ == blended_orientation(old(self)@, target_for(observed(*access))),
            current == final(self)@,
            old(self)@.within_limits() ==> current.within_limits(),
    {
        let gaze: Option<NormalizedPosition> = read_or_absent(access);
        self.tick(gaze)
    }
}

} // verus!
