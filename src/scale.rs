//! Note names shown under the bins, for three tunings.
use vstd::prelude::*;

verus! {

/// The tuning whose note names are shown.
#[derive(Debug, Clone, Copy, PartialEq, Eq, Structural)]
pub enum Scale {
    Chromatic,
    Pelog,
    Slendro,
}

/// The tuning that follows `scale` in the cycle chromatic, pelog, slendro.
pub open spec fn following_scale(scale: Scale) -> Scale {
    match scale {
        Scale::Chromatic => Scale::Pelog,
        Scale::Pelog => Scale::Slendro,
        Scale::Slendro => Scale::Chromatic,
    }
}

/// Switches to the next tuning of the cycle.
pub fn other_scale(scale: &mut Scale)
    ensures
        *final(scale) == following_scale(*old(scale)),
{
    *scale = match *scale {
        Scale::Chromatic => Scale::Pelog,
        Scale::Pelog => Scale::Slendro,
        Scale::Slendro => Scale::Chromatic,
    };
}

/// Position of bin `bin` (counted from 0) within its octave, from 1 to
/// `bins_per_octave`.
pub open spec fn octave_position(bin: int, bins_per_octave: int) -> int {
    bin % bins_per_octave + 1
}

/// A position moved by `offset` bins, brought back by one octave when it
/// leaves `1..=bins_per_octave`; an offset of 0 leaves it alone.
pub open spec fn shifted_position(position: int, offset: int, bins_per_octave: int) -> int {
    let moved = position + offset;
    if offset == 0 {
        position
    } else if moved > bins_per_octave {
        moved - bins_per_octave
    } else if moved < 1 {
        moved + bins_per_octave
    } else {
        moved
    }
}

/// The name a tuning gives to a position within an octave of 36 bins, if any.
pub open spec fn label_at(scale: Scale, position: int) -> Option<Seq<char>> {
    match scale {
        Scale::Chromatic => if position == 36 {
            Some("A"@)
        } else if position == 6 {
            Some("B"@)
        } else if position == 9 {
            Some("C"@)
        } else if position == 15 {
            Some("D"@)
        } else if position == 21 {
            Some("E"@)
        } else if position == 24 {
            Some("F"@)
        } else if position == 30 {
            Some("G"@)
        } else {
            None
        },
        Scale::Pelog => if position == 14 {
            Some("1"@)
        } else if position == 18 {
            Some("2"@)
        } else if position == 22 {
            Some("3"@)
        } else if position == 29 {
            Some("4"@)
        } else if position == 33 {
            Some("5"@)
        } else if position == 36 {
            Some("6"@)
        } else if position == 5 {
            Some("7"@)
        } else {
            None
        },
        Scale::Slendro => if position == 15 {
            Some("2"@)
        } else if position == 22 {
            Some("3"@)
        } else if position == 29 {
            Some("5"@)
        } else if position == 36 {
            Some("6"@)
        } else if position == 7 {
            Some("1"@)
        } else {
            None
        },
    }
}

/// The view of an optional name.
pub open spec fn label_view(label: Option<&'static str>) -> Option<Seq<char>> {
    match label {
        Some(s) => Some(s@),
        None => None,
    }
}

/// The name shown under bin `bin`: chromatic names follow the bin's place in
/// its octave, the gamelan tunings follow it moved by the user's `offset`.
pub open spec fn bin_label_spec(scale: Scale, bin: int, bins_per_octave: int, offset: int) -> Option<
    Seq<char>,
> {
    let position = octave_position(bin, bins_per_octave);
    match scale {
        Scale::Chromatic => label_at(scale, position),
        _ => label_at(scale, shifted_position(position, offset, bins_per_octave)),
    }
}

/// The name a tuning gives to a position within an octave.
pub fn label_at_position(scale: Scale, position: i64) -> (r: Option<&'static str>)
    ensures
        label_view(r) == label_at(scale, position as int),
{
    match scale {
        Scale::Chromatic => {
            if position == 36 {
                Some("A")
            } else if position == 6 {
                Some("B")
            } else if position == 9 {
                Some("C")
            } else if position == 15 {
                Some("D")
            } else if position == 21 {
                Some("E")
            } else if position == 24 {
                Some("F")
            } else if position == 30 {
                Some("G")
            } else {
                None
            }
        },
        Scale::Pelog => {
            if position == 14 {
                Some("1")
            } else if position == 18 {
                Some("2")
            } else if position == 22 {
                Some("3")
            } else if position == 29 {
                Some("4")
            } else if position == 33 {
                Some("5")
            } else if position == 36 {
                Some("6")
            } else if position == 5 {
                Some("7")
            } else {
                None
            }
        },
        Scale::Slendro => {
            if position == 15 {
                Some("2")
            } else if position == 22 {
                Some("3")
            } else if position == 29 {
                Some("5")
            } else if position == 36 {
                Some("6")
            } else if position == 7 {
                Some("1")
            } else {
                None
            }
        },
    }
}

/// The name shown under bin `bin` (counted from 0).
pub fn bin_label(scale: Scale, bin: u32, bins_per_octave: u32, offset: i32) -> (r: Option<
    &'static str,
>)
    requires
        bins_per_octave > 0,
    ensures
        label_view(r) == bin_label_spec(scale, bin as int, bins_per_octave as int, offset as int),
{
    let position: i64 = (bin % bins_per_octave) as i64 + 1;
    match scale {
        Scale::Chromatic => label_at_position(scale, position),
        _ => {
            let moved: i64 = position + offset as i64;
            let shifted: i64 = if offset == 0 {
                position
            } else if moved > bins_per_octave as i64 {
                moved - bins_per_octave as i64
            } else if moved < 1 {
                moved + bins_per_octave as i64
            } else {
                moved
            };
            label_at_position(scale, shifted)
        },
    }
}

} // verus!
