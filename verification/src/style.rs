//! The visual classes of the track-list buttons.
//!
//! The appearance values themselves — colors, gradients, shadows — are
//! the front end's concern; the library names the classes and the one
//! decision among them.

use vstd::prelude::*;

verus! {

/// The style class of one track-list button.
#[derive(Clone, Copy, PartialEq, Eq, Debug)]
pub enum MusicListButton {
    /// An ordinary entry.
    Primary,
    /// The entry of the chosen track, drawn as a pressed button.
    Selected,
}

impl MusicListButton {
    /// Whether this class draws its active state with the pressed
    /// appearance.
    pub fn uses_pressed_appearance(&self) -> (r: bool)
        ensures
            r == (*self is Selected),
    {
        match self {
            MusicListButton::Selected => true,
            MusicListButton::Primary => false,
        }
    }
}

} // verus!
