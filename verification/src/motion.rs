//! The walker and its motion, frame by frame.

use crate::fixed::lemma_saturated_sum_between;
use crate::fixed::saturate;
use crate::fixed::saturating_sum;
use crate::fixed::SCALE;
use crate::mode::mode_after_frame;
use crate::mode::WalkType;
use crate::remap::lemma_remap_affine;
use crate::remap::remap;
use crate::rng::uniform_below;
use crate::step::lemma_step_moves_one_axis;
use crate::step::Step;
use crate::step::DRAW_RANGE;
use crate::step::JUMP_LENGTH;
use vstd::prelude::*;

verus! {

/// How far the noise coordinates advance in a frame, 0.005.
pub const PHASE_STEP: i64 = 5_000;

/// The furthest a walker drifts along one axis in a frame of noise motion, 5.
pub const NOISE_REACH: i64 = 5_000_000;

/// The noise coordinate of the horizontal axis at the start, 100.
pub const START_PHASE: i64 = 100_000_000;

/// A point on the plane that moves once per frame.
#[derive(Clone, Copy, Debug, PartialEq, Eq, Structural)]
pub struct Walker {
    /// The horizontal coordinate of the position.
    pub x: i64,
    /// The vertical coordinate of the position.
    pub y: i64,
    /// The noise coordinate that drives the horizontal drift.
    pub tx: i64,
    /// The noise coordinate that drives the vertical drift.
    pub ty: i64,
    /// The motion model in force.
    pub walk_type: WalkType,
}

/// A noise coordinate one frame on.
pub open spec fn advanced(phase: i64) -> i64 {
    saturate(phase + PHASE_STEP) as i64
}

/// The drift that a noise sample asks for: the sample, nominally between -1
/// and 1, mapped onto the range from `-NOISE_REACH` to `NOISE_REACH`.
pub open spec fn noise_drift(sample: i64) -> int {
    remap(sample as int, -SCALE as int, SCALE as int, -NOISE_REACH as int, NOISE_REACH as int)
}

impl Walker {
    /// The walker as it starts: at the origin, in random motion.
    pub open spec fn start() -> Walker {
        Walker { x: 0, y: 0, tx: START_PHASE, ty: 0, walk_type: WalkType::Random }
    }

    /// The walker after it has taken `step`.
    pub open spec fn after_step(self, step: Step) -> Walker {
        Walker {
            x: saturate(self.x + step.dx()) as i64,
            y: saturate(self.y + step.dy()) as i64,
            ..self
        }
    }

    /// The walker after a frame of noise motion, where `sample_x` and
    /// `sample_y` are the noise at the advanced coordinates.
    pub open spec fn after_noise(self, sample_x: i64, sample_y: i64) -> Walker {
        Walker {
            x: saturate(self.x + saturate(noise_drift(sample_x))) as i64,
            y: saturate(self.y + saturate(noise_drift(sample_y))) as i64,
            tx: advanced(self.tx),
            ty: advanced(self.ty),
            ..self
        }
    }

    /// The walker after the key was looked at in a frame.
    pub open spec fn after_key(self, just_pressed: bool) -> Walker {
        Walker { walk_type: mode_after_frame(self.walk_type, just_pressed), ..self }
    }

    /// A walker at the origin, in random motion, with its noise coordinates
    /// at their starting values.
    pub fn new() -> (walker: Walker)
        ensures
            walker == Walker::start(),
    {
        Walker { x: 0, y: 0, tx: START_PHASE, ty: 0, walk_type: WalkType::Random }
    }

    /// The noise coordinates of the next frame: the two places at which the
    /// noise is to be sampled for `noise_walk`.
    pub fn next_phase(&self) -> (phase: (i64, i64))
        ensures
            phase.0 == advanced(self.tx),
            phase.1 == advanced(self.ty),
    {
        (saturating_sum(self.tx, PHASE_STEP), saturating_sum(self.ty, PHASE_STEP))
    }
}

/// Moves the walker by the step that `draw` leads to.
pub fn random_step(walker: &mut Walker, draw: u32)
    ensures
        *final(walker) == old(walker).after_step(Step::of_draw(draw)),
{
    let step = Step::from_draw(draw);
    walker.x = saturating_sum(walker.x, step.delta_x());
    walker.y = saturating_sum(walker.y, step.delta_y());
}

/// Moves the walker by one random step: a draw from `0..DRAW_RANGE` picks
/// the step.
pub fn random_walk(walker: &mut Walker)
    ensures
        exists|draw: u32|
            draw < DRAW_RANGE && *final(walker) == #[trigger] old(walker).after_step(
                Step::of_draw(draw),
            ),
{
    let draw = uniform_below(DRAW_RANGE);
    random_step(walker, draw);
}

/// Moves the walker by one frame of noise motion: the noise coordinates
/// advance, and each coordinate of the position drifts by its sample mapped
/// from the range -1 to 1 onto the range -5 to 5. `sample_x` and `sample_y`
/// are the noise at the coordinates that `next_phase` gave before the call.
pub fn noise_walk(walker: &mut Walker, sample_x: i64, sample_y: i64)
    ensures
        *final(walker) == old(walker).after_noise(sample_x, sample_y),
{
    walker.tx = saturating_sum(walker.tx, PHASE_STEP);
    walker.ty = saturating_sum(walker.ty, PHASE_STEP);
    walker.x = saturating_sum(
        walker.x,
        crate::remap::map(sample_x, -SCALE, SCALE, -NOISE_REACH, NOISE_REACH),
    );
    walker.y = saturating_sum(
        walker.y,
        crate::remap::map(sample_y, -SCALE, SCALE, -NOISE_REACH, NOISE_REACH),
    );
}

/// Moves the walker by one frame under the motion model in force. The two
/// samples are read in noise motion only.
pub fn walk(walker: &mut Walker, sample_x: i64, sample_y: i64)
    ensures
        old(walker).walk_type == WalkType::Random ==> exists|draw: u32|
            draw < DRAW_RANGE && *final(walker) == #[trigger] old(walker).after_step(
                Step::of_draw(draw),
            ),
        old(walker).walk_type == WalkType::Noise ==> *final(walker) == old(walker).after_noise(
            sample_x,
            sample_y,
        ),
{
    match walker.walk_type {
        WalkType::Random => {
            random_walk(walker);
        },
        WalkType::Noise => {
            noise_walk(walker, sample_x, sample_y);
        },
    }
}

/// Switches the motion model if the key went down in this frame, and returns
/// the text to show for the new model; a key that is up, or still held from an
/// earlier frame, changes nothing and returns no text.
pub fn change_walk_mode(walker: &mut Walker, just_pressed: bool) -> (label: Option<&'static str>)
    ensures
        *final(walker) == old(walker).after_key(just_pressed),
        label.is_some() == just_pressed,
        label matches Some(text) ==> text@ == final(walker).walk_type.label_text(),
{
    if just_pressed {
        walker.walk_type = walker.walk_type.toggle();
        Some(walker.walk_type.label())
    } else {
        None
    }
}

/// A sample is mapped onto five times itself.
pub proof fn lemma_noise_drift_is_fivefold(sample: i64)
    ensures
        noise_drift(sample) == 5 * sample,
{
    lemma_remap_affine(
        sample as int,
        -SCALE as int,
        SCALE as int,
        -NOISE_REACH as int,
        NOISE_REACH as int,
        5,
    );
}

/// A random step away from the ends of `i64` changes exactly one coordinate
/// of the position, by 2 or by 10 in either direction, and nothing else.
pub proof fn lemma_random_step_moves_one_axis(walker: Walker, draw: u32)
    requires
        i64::MIN + JUMP_LENGTH <= walker.x <= i64::MAX - JUMP_LENGTH,
        i64::MIN + JUMP_LENGTH <= walker.y <= i64::MAX - JUMP_LENGTH,
    ensures
        ({
            let after = walker.after_step(Step::of_draw(draw));
            let dx = after.x - walker.x;
            let dy = after.y - walker.y;
            &&& (dx == 0) != (dy == 0)
            &&& dx + dy == 2 * SCALE || dx + dy == -2 * SCALE || dx + dy == 10 * SCALE || dx + dy
                == -10 * SCALE
            &&& after.tx == walker.tx
            &&& after.ty == walker.ty
            &&& after.walk_type == walker.walk_type
        }),
{
    lemma_step_moves_one_axis(Step::of_draw(draw));
}

/// A frame of noise motion with samples between -1 and 1 moves the position
/// by at most 5 along each axis, never moves a noise coordinate backwards,
/// and keeps the motion model.
pub proof fn lemma_noise_step_bounded(walker: Walker, sample_x: i64, sample_y: i64)
    requires
        -SCALE <= sample_x <= SCALE,
        -SCALE <= sample_y <= SCALE,
    ensures
        ({
            let after = walker.after_noise(sample_x, sample_y);
            &&& -NOISE_REACH <= after.x - walker.x <= NOISE_REACH
            &&& -NOISE_REACH <= after.y - walker.y <= NOISE_REACH
            &&& walker.tx <= after.tx <= walker.tx + PHASE_STEP
            &&& walker.ty <= after.ty <= walker.ty + PHASE_STEP
            &&& after.walk_type == walker.walk_type
        }),
{
    lemma_noise_drift_is_fivefold(sample_x);
    lemma_noise_drift_is_fivefold(sample_y);
    lemma_saturated_sum_between(walker.x, 5 * sample_x);
    lemma_saturated_sum_between(walker.y, 5 * sample_y);
    lemma_saturated_sum_between(walker.tx, PHASE_STEP as int);
    lemma_saturated_sum_between(walker.ty, PHASE_STEP as int);
}

/// Away from the ends of `i64`, a frame of noise motion moves each
/// coordinate of the position by exactly five times its sample and each noise
/// coordinate by exactly `PHASE_STEP`.
pub proof fn lemma_noise_step_exact(walker: Walker, sample_x: i64, sample_y: i64)
    requires
        -SCALE <= sample_x <= SCALE,
        -SCALE <= sample_y <= SCALE,
        i64::MIN + NOISE_REACH <= walker.x <= i64::MAX - NOISE_REACH,
        i64::MIN + NOISE_REACH <= walker.y <= i64::MAX - NOISE_REACH,
        walker.tx <= i64::MAX - PHASE_STEP,
        walker.ty <= i64::MAX - PHASE_STEP,
    ensures
        ({
            let after = walker.after_noise(sample_x, sample_y);
            &&& after.x == walker.x + 5 * sample_x
            &&& after.y == walker.y + 5 * sample_y
            &&& after.tx == walker.tx + PHASE_STEP
            &&& after.ty == walker.ty + PHASE_STEP
        }),
{
    lemma_noise_drift_is_fivefold(sample_x);
    lemma_noise_drift_is_fivefold(sample_y);
}

} // verus!
