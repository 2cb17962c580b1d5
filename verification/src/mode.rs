//! The two motion models and the key that switches between them.

use vstd::prelude::*;

verus! {

/// The motion model a walker follows.
#[derive(Clone, Copy, Debug, PartialEq, Eq, Structural)]
pub enum WalkType {
    /// Independent steps chosen by a random draw.
    Random,
    /// Smooth drift that follows coherent noise.
    Noise,
}

impl WalkType {
    /// The other motion model.
    pub open spec fn toggled(self) -> WalkType {
        match self {
            WalkType::Random => WalkType::Noise,
            WalkType::Noise => WalkType::Random,
        }
    }

    /// The text shown for this motion model.
    pub open spec fn label_text(self) -> Seq<char> {
        match self {
            WalkType::Random => "Random"@,
            WalkType::Noise => "Noise"@,
        }
    }

    /// Switches to the other motion model.
    pub fn toggle(self) -> (next: WalkType)
        ensures
            next == self.toggled(),
    {
        match self {
            WalkType::Random => WalkType::Noise,
            WalkType::Noise => WalkType::Random,
        }
    }

    /// The text to show for this motion model.
    pub fn label(self) -> (text: &'static str)
        ensures
            text@ == self.label_text(),
    {
        match self {
            WalkType::Random => "Random",
            WalkType::Noise => "Noise",
        }
    }
}

/// The motion model after one frame that began with `start`: it changes only
/// in a frame in which the key went down.
pub open spec fn mode_after_frame(start: WalkType, just_pressed: bool) -> WalkType {
    if just_pressed {
        start.toggled()
    } else {
        start
    }
}

/// The motion model after a run of frames, where `presses[i]` says whether the
/// key went down in frame `i`.
pub open spec fn mode_after(start: WalkType, presses: Seq<bool>) -> WalkType
    decreases presses.len(),
{
    if presses.len() == 0 {
        start
    } else {
        mode_after_frame(mode_after(start, presses.drop_last()), presses.last())
    }
}

/// How many frames of `presses` saw the key go down.
pub open spec fn press_count(presses: Seq<bool>) -> nat
    decreases presses.len(),
{
    if presses.len() == 0 {
        0
    } else {
        press_count(presses.drop_last()) + if presses.last() {
            1nat
        } else {
            0nat
        }
    }
}

/// Two presses bring the motion model back to where it was.
pub proof fn lemma_toggle_twice(mode: WalkType)
    ensures
        mode.toggled() != mode,
        mode.toggled().toggled() == mode,
{
}

/// A run of frames leaves the motion model where it began exactly when the key
/// went down an even number of times: frames in which the key is merely held
/// count for nothing.
pub proof fn lemma_mode_follows_press_parity(start: WalkType, presses: Seq<bool>)
    ensures
        mode_after(start, presses) == (if press_count(presses) % 2 == 0 {
            start
        } else {
            start.toggled()
        }),
    decreases presses.len(),
{
    if presses.len() > 0 {
        lemma_mode_follows_press_parity(start, presses.drop_last());
    }
}

} // verus!
