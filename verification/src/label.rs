//! Colours and the labels that carry them.

use vstd::prelude::*;

verus! {

/// A colour of three channels. Each channel is kept as the 32-bit pattern of
/// its intensity; the library stores and compares colours and never computes
/// with them.
#[derive(Clone, Copy, Debug, PartialEq, Eq, Structural)]
pub struct Color {
    pub red: u32,
    pub green: u32,
    pub blue: u32,
}

/// The channel pattern that a fresh draft starts with.
pub const DRAFT_CHANNEL: u32 = 0x437F_0000;

impl Color {
    /// The colour of a fresh draft.
    pub fn draft() -> (out: Color)
        ensures
            out == (Color { red: DRAFT_CHANNEL, green: DRAFT_CHANNEL, blue: DRAFT_CHANNEL }),
    {
        Color { red: DRAFT_CHANNEL, green: DRAFT_CHANNEL, blue: DRAFT_CHANNEL }
    }
}

/// A name and a colour shown on the messages that a rule selects.
#[derive(Debug)]
pub struct Label {
    pub name: String,
    pub color: Color,
}

/// What a label holds.
pub struct LabelView {
    pub name: Seq<char>,
    pub color: Color,
}

impl View for Label {
    type V = LabelView;

    open spec fn view(&self) -> LabelView {
        LabelView { name: self.name@, color: self.color }
    }
}

impl DeepView for Label {
    type V = LabelView;

    open spec fn deep_view(&self) -> LabelView {
        self.view()
    }
}

impl Clone for Label {
    fn clone(&self) -> (out: Self)
        ensures
            out@ == self@,
    {
        Label { name: self.name.clone(), color: self.color }
    }
}

} // verus!
