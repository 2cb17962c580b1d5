//! The eight outcomes of a random step and the draws that lead to each.

use vstd::prelude::*;

verus! {

/// The end of the draw: a draw is uniform over `0..DRAW_RANGE`, which stands
/// for the interval from 0 to 1.1.
pub const DRAW_RANGE: u32 = 1_100_000;

/// The length of a small step, 2.
pub const STEP_LENGTH: i64 = 2_000_000;

/// The length of a jump, 10.
pub const JUMP_LENGTH: i64 = 10_000_000;

/// One outcome of a random step: a move along one axis.
#[derive(Clone, Copy, Debug, PartialEq, Eq, Structural)]
pub enum Step {
    Right,
    Left,
    Up,
    Down,
    JumpRight,
    JumpLeft,
    JumpUp,
    JumpDown,
}

impl Step {
    /// The change of the horizontal coordinate.
    pub open spec fn dx(self) -> int {
        match self {
            Step::Right => STEP_LENGTH as int,
            Step::Left => -STEP_LENGTH,
            Step::JumpRight => JUMP_LENGTH as int,
            Step::JumpLeft => -JUMP_LENGTH,
            _ => 0,
        }
    }

    /// The change of the vertical coordinate.
    pub open spec fn dy(self) -> int {
        match self {
            Step::Up => STEP_LENGTH as int,
            Step::Down => -STEP_LENGTH,
            Step::JumpUp => JUMP_LENGTH as int,
            Step::JumpDown => -JUMP_LENGTH,
            _ => 0,
        }
    }

    /// The first draw that leads to this outcome.
    pub open spec fn bin_start(self) -> int {
        match self {
            Step::Right => 0,
            Step::Left => 250_000,
            Step::Up => 500_000,
            Step::Down => 750_000,
            Step::JumpRight => 1_000_000,
            Step::JumpLeft => 1_025_000,
            Step::JumpUp => 1_050_000,
            Step::JumpDown => 1_075_000,
        }
    }

    /// How many draws lead to this outcome: a quarter of a unit for each small
    /// step, a fortieth for each jump.
    pub open spec fn bin_width(self) -> int {
        match self {
            Step::Right | Step::Left | Step::Up | Step::Down => 250_000,
            _ => 25_000,
        }
    }

    /// The outcome that `draw` leads to. A draw at or beyond `DRAW_RANGE` falls
    /// into the last bin.
    pub open spec fn of_draw(draw: u32) -> Step {
        if draw < 250_000 {
            Step::Right
        } else if draw < 500_000 {
            Step::Left
        } else if draw < 750_000 {
            Step::Up
        } else if draw < 1_000_000 {
            Step::Down
        } else if draw < 1_025_000 {
            Step::JumpRight
        } else if draw < 1_050_000 {
            Step::JumpLeft
        } else if draw < 1_075_000 {
            Step::JumpUp
        } else {
            Step::JumpDown
        }
    }

    /// Finds the outcome that `draw` leads to.
    pub fn from_draw(draw: u32) -> (step: Step)
        ensures
            step == Step::of_draw(draw),
    {
        if draw < 250_000 {
            Step::Right
        } else if draw < 500_000 {
            Step::Left
        } else if draw < 750_000 {
            Step::Up
        } else if draw < 1_000_000 {
            Step::Down
        } else if draw < 1_025_000 {
            Step::JumpRight
        } else if draw < 1_050_000 {
            Step::JumpLeft
        } else if draw < 1_075_000 {
            Step::JumpUp
        } else {
            Step::JumpDown
        }
    }

    /// The change of the horizontal coordinate.
    pub fn delta_x(self) -> (d: i64)
        ensures
            d == self.dx(),
    {
        match self {
            Step::Right => STEP_LENGTH,
            Step::Left => -STEP_LENGTH,
            Step::JumpRight => JUMP_LENGTH,
            Step::JumpLeft => -JUMP_LENGTH,
            _ => 0,
        }
    }

    /// The change of the vertical coordinate.
    pub fn delta_y(self) -> (d: i64)
        ensures
            d == self.dy(),
    {
        match self {
            Step::Up => STEP_LENGTH,
            Step::Down => -STEP_LENGTH,
            Step::JumpUp => JUMP_LENGTH,
            Step::JumpDown => -JUMP_LENGTH,
            _ => 0,
        }
    }
}

/// Every outcome moves along exactly one axis, by the length of a small step
/// or of a jump, forwards or backwards.
pub proof fn lemma_step_moves_one_axis(step: Step)
    ensures
        (step.dx() == 0) != (step.dy() == 0),
        step.dx() + step.dy() == STEP_LENGTH || step.dx() + step.dy() == -STEP_LENGTH
            || step.dx() + step.dy() == JUMP_LENGTH || step.dx() + step.dy() == -JUMP_LENGTH,
{
}

/// The bins lie end to end over the whole draw: a draw within `DRAW_RANGE`
/// leads to an outcome exactly when it lies in that outcome's bin, so each
/// small step is reached by 250 000 draws and each jump by 25 000.
pub proof fn lemma_bins_partition_draw(draw: u32, step: Step)
    requires
        draw < DRAW_RANGE,
    ensures
        Step::of_draw(draw) == step <==> step.bin_start() <= draw < step.bin_start()
            + step.bin_width(),
        0 <= step.bin_start(),
        step.bin_start() + step.bin_width() <= DRAW_RANGE,
{
}

/// The four small steps share ten elevenths of the draw and the four jumps
/// the rest.
pub proof fn lemma_bin_widths_fill_draw()
    ensures
        Step::Right.bin_width() + Step::Left.bin_width() + Step::Up.bin_width()
            + Step::Down.bin_width() == 1_000_000,
        Step::JumpRight.bin_width() + Step::JumpLeft.bin_width() + Step::JumpUp.bin_width()
            + Step::JumpDown.bin_width() == DRAW_RANGE - 1_000_000,
{
}

} // verus!
