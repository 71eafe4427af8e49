//! Sound choices for the kill and round-end rewards.

use vstd::prelude::*;

verus! {

/// Highest playback volume a reward may be configured with, in percent.
pub const VOLUME_PERCENT_MAX: u32 = 200;

/// The reward sounds that ship inside the executable.
#[derive(Debug, Clone, Copy, PartialEq, Eq, Structural)]
pub enum BundledSound {
    Clicker,
    GoodPuppy1,
    GoodPuppy2,
    GoodPuppy3,
    GoodPuppy4,
    GoodBoy1,
    GoodGirl1,
}

/// A reward sound: one of the bundled assets, or a file on disk given by its path.
#[derive(Debug, PartialEq, Eq)]
pub enum SoundChoice {
    Bundled(BundledSound),
    Custom(String),
}

/// The mathematical value of a [`SoundChoice`]: the path is a sequence of characters.
pub enum SoundChoiceView {
    Bundled(BundledSound),
    Custom(Seq<char>),
}

impl View for SoundChoice {
    type V = SoundChoiceView;

    open spec fn view(&self) -> SoundChoiceView {
        match self {
            SoundChoice::Bundled(b) => SoundChoiceView::Bundled(*b),
            SoundChoice::Custom(path) => SoundChoiceView::Custom(path@),
        }
    }
}

impl Clone for SoundChoice {
    fn clone(&self) -> (r: Self)
        ensures
            r@ == self@,
    {
        match self {
            SoundChoice::Bundled(b) => SoundChoice::Bundled(*b),
            SoundChoice::Custom(path) => SoundChoice::Custom(path.clone()),
        }
    }
}

} // verus!
