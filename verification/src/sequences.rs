//! The fixed catalog of color sequences, one per selectable mode.

use crate::mode::Mode;
use vstd::prelude::*;

verus! {

/// One segment of a sequence: a tri-boolean output state held for a
/// fixed, strictly positive duration in milliseconds.
#[derive(Clone, Copy, PartialEq, Eq, Structural, Debug)]
pub struct Color {
    pub red: bool,
    pub green: bool,
    pub blue: bool,
    pub duration: i32,
}

/// The cycle sequence: red, yellow, green, yellow, then over again.
pub open spec fn spec_cycle_seq() -> Seq<Color> {
    seq![
        Color { red: true, green: false, blue: false, duration: 3000 },
        Color { red: true, green: true, blue: false, duration: 1000 },
        Color { red: false, green: true, blue: false, duration: 3000 },
        Color { red: true, green: true, blue: false, duration: 1000 },
    ]
}

pub open spec fn spec_red_seq() -> Seq<Color> {
    seq![Color { red: true, green: false, blue: false, duration: 1000 }]
}

pub open spec fn spec_green_seq() -> Seq<Color> {
    seq![Color { red: false, green: true, blue: false, duration: 1000 }]
}

pub open spec fn spec_yellow_seq() -> Seq<Color> {
    seq![Color { red: true, green: true, blue: false, duration: 3000 }]
}

pub open spec fn spec_blue_seq() -> Seq<Color> {
    seq![Color { red: false, green: false, blue: true, duration: 3000 }]
}

/// The purple sequence. Its exact color and timing are left open by the
/// catalog, beyond being non-empty with the blue and red channels lit;
/// this library holds blue and red together for three seconds.
pub open spec fn spec_purple_seq() -> Seq<Color> {
    seq![Color { red: true, green: false, blue: true, duration: 3000 }]
}

/// The sequence each selectable mode names. The connection signal never
/// selects a sequence; it is mapped here only to keep the function
/// total, and callers keep it out.
pub open spec fn spec_sequence_for(mode: Mode) -> Seq<Color> {
    match mode {
        Mode::Cycle => spec_cycle_seq(),
        Mode::Red => spec_red_seq(),
        Mode::Yellow => spec_yellow_seq(),
        Mode::Green => spec_green_seq(),
        Mode::Blue => spec_blue_seq(),
        Mode::Purple => spec_purple_seq(),
        Mode::Connected => spec_cycle_seq(),
    }
}

/// Every sequence of the catalog is non-empty, and every step's
/// duration is strictly positive, a whole number of ticks, and small
/// enough that tick accounting cannot overflow.
pub proof fn lemma_catalog_wf(mode: Mode, i: int)
    requires
        0 <= i < spec_sequence_for(mode).len(),
    ensures
        spec_sequence_for(mode).len() >= 1,
        0 < spec_sequence_for(mode)[i].duration <= 3000,
        spec_sequence_for(mode)[i].duration % 10 == 0,
{
}

pub fn get_cycle_seq() -> (r: Vec<Color>)
    ensures
        r@ == spec_cycle_seq(),
{
    let mut v: Vec<Color> = Vec::new();
    v.push(Color { red: true, green: false, blue: false, duration: 3000 });
    v.push(Color { red: true, green: true, blue: false, duration: 1000 });
    v.push(Color { red: false, green: true, blue: false, duration: 3000 });
    v.push(Color { red: true, green: true, blue: false, duration: 1000 });
    proof {
        assert(v@ =~= spec_cycle_seq());
    }
    v
}

pub fn get_red_seq() -> (r: Vec<Color>)
    ensures
        r@ == spec_red_seq(),
{
    let mut v: Vec<Color> = Vec::new();
    v.push(Color { red: true, green: false, blue: false, duration: 1000 });
    proof {
        assert(v@ =~= spec_red_seq());
    }
    v
}

pub fn get_green_seq() -> (r: Vec<Color>)
    ensures
        r@ == spec_green_seq(),
{
    let mut v: Vec<Color> = Vec::new();
    v.push(Color { red: false, green: true, blue: false, duration: 1000 });
    proof {
        assert(v@ =~= spec_green_seq());
    }
    v
}

pub fn get_yellow_seq() -> (r: Vec<Color>)
    ensures
        r@ == spec_yellow_seq(),
{
    let mut v: Vec<Color> = Vec::new();
    v.push(Color { red: true, green: true, blue: false, duration: 3000 });
    proof {
        assert(v@ =~= spec_yellow_seq());
    }
    v
}

pub fn get_blue_seq() -> (r: Vec<Color>)
    ensures
        r@ == spec_blue_seq(),
{
    let mut v: Vec<Color> = Vec::new();
    v.push(Color { red: false, green: false, blue: true, duration: 3000 });
    proof {
        assert(v@ =~= spec_blue_seq());
    }
    v
}

pub fn get_purple_seq() -> (r: Vec<Color>)
    ensures
        r@ == spec_purple_seq(),
{
    let mut v: Vec<Color> = Vec::new();
    v.push(Color { red: true, green: false, blue: true, duration: 3000 });
    proof {
        assert(v@ =~= spec_purple_seq());
    }
    v
}

/// Looks the sequence for a selectable mode up in the catalog.
pub fn sequence_for(mode: Mode) -> (r: Vec<Color>)
    requires
        mode != Mode::Connected,
    ensures
        r@ == spec_sequence_for(mode),
{
    match mode {
        Mode::Cycle => get_cycle_seq(),
        Mode::Red => get_red_seq(),
        Mode::Yellow => get_yellow_seq(),
        Mode::Green => get_green_seq(),
        Mode::Blue => get_blue_seq(),
        Mode::Purple => get_purple_seq(),
        Mode::Connected => get_cycle_seq(),
    }
}

} // verus!
