//! The signal colours of acknowledgements and of speeds.

use vstd::prelude::*;
use crate::message::Speed;

verus! {

/// A signal colour, by name.
#[derive(Clone, Copy, Debug, PartialEq, Eq, Structural)]
pub enum Tint {
    Green,
    Yellow,
    Red,
    White,
}

/// The colour of a speed: green for `1M`, yellow for `667k`, red for `500k`,
/// white for any other.
pub open spec fn speed_tint(speed: Seq<char>) -> Tint {
    if speed == "1M"@ {
        Tint::Green
    } else if speed == "667k"@ {
        Tint::Yellow
    } else if speed == "500k"@ {
        Tint::Red
    } else {
        Tint::White
    }
}

/// The colour of an acknowledgement: green where the message was
/// acknowledged, red where it was not.
pub fn ack_color(ack: bool) -> (out: Tint)
    ensures
        out == if ack {
            Tint::Green
        } else {
            Tint::Red
        },
{
    if ack {
        Tint::Green
    } else {
        Tint::Red
    }
}

/// The colour of a speed.
pub fn speed_color(speed: &Speed) -> (out: Tint)
    ensures
        out == speed_tint(speed@),
{
    if *speed == "1M".to_string() {
        Tint::Green
    } else if *speed == "667k".to_string() {
        Tint::Yellow
    } else if *speed == "500k".to_string() {
        Tint::Red
    } else {
        Tint::White
    }
}

} // verus!
