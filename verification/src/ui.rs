//! Button feedback: maps a button's interaction state to its background
//! colour.

use vstd::prelude::*;

verus! {

/// The interaction state of a UI button, as the engine's picking layer
/// reports it.
#[derive(Clone, Copy, Debug, PartialEq, Eq, Structural)]
pub enum Interaction {
    /// The pointer is pressing the button.
    Pressed,
    /// The pointer hovers over the button without pressing it.
    Hovered,
    /// Nothing interacts with the button.
    Idle,
}

/// An sRGB colour with 8-bit channels.
#[derive(Clone, Copy, Debug, PartialEq, Eq, Structural)]
pub struct Rgb {
    pub r: u8,
    pub g: u8,
    pub b: u8,
}

/// The background colour each interaction state maps to: blue when pressed,
/// gray when hovered, white otherwise.
pub open spec fn spec_button_color(state: Interaction) -> Rgb {
    match state {
        Interaction::Pressed => Rgb { r: 0, g: 0, b: 255 },
        Interaction::Hovered => Rgb { r: 128, g: 128, b: 128 },
        Interaction::Idle => Rgb { r: 255, g: 255, b: 255 },
    }
}

/// The background colour for one button's interaction state.
pub fn button_color(state: Interaction) -> (color: Rgb)
    ensures
        color == spec_button_color(state),
{
    match state {
        Interaction::Pressed => Rgb { r: 0, g: 0, b: 255 },
        Interaction::Hovered => Rgb { r: 128, g: 128, b: 128 },
        Interaction::Idle => Rgb { r: 255, g: 255, b: 255 },
    }
}

/// The background colours for the buttons whose interaction state changed
/// this tick, in the order the states were handed in.
pub fn button_colors(states: &Vec<Interaction>) -> (colors: Vec<Rgb>)
    ensures
        colors@.len() == states@.len(),
        forall|j: int| 0 <= j < states@.len() ==> colors@[j] == spec_button_color(states@[j]),
{
    let mut colors: Vec<Rgb> = Vec::new();
    let mut i: usize = 0;
    while i < states.len()
        invariant
            i <= states.len(),
            colors@.len() == i,
            forall|j: int| 0 <= j < i ==> colors@[j] == spec_button_color(states@[j]),
        decreases states.len() - i,
    {
        colors.push(button_color(states[i]));
        i = i + 1;
    }
    colors
}

} // verus!
