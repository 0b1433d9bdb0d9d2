//! Where a rule goes: the row or column it is anchored to, how often each
//! filler glyph repeats, and how many blanks stand before and after it.
use vstd::prelude::*;
use crate::geometry::clamp16;
use crate::symbols::Placement;

verus! {

/// The row (or column) a rule is anchored to, before any manual shift.
///
/// `near` is the first row (or column) of the area and `far` the first one
/// past it; `pad_near` is the padding on the near side (top or left),
/// `pad_far` the padding on the far side (bottom or right).
///
/// At the start the near padding is added to `near` and the far padding
/// taken off that sum, which is cut only at the end: below zero it is 0,
/// above `u16::MAX` it is `u16::MAX`. In the middle and at the end every
/// difference below zero is 0 before the near padding is added, and the
/// sum is held at `u16::MAX`.
pub open spec fn base_anchor(place: Placement, near: u16, far: u16, pad_near: u16, pad_far: u16) -> u16 {
    match place {
        Placement::Start => clamp16(near + pad_near - pad_far),
        Placement::Middle => clamp16(clamp16(far / 2 - 1 - pad_far) + pad_near),
        Placement::End => clamp16(clamp16(far - 3 - pad_far) + pad_near),
    }
}

/// The anchor of a rule: `base_anchor` moved back by `shift`, but not
/// below 0.
pub open spec fn anchor(
    place: Placement,
    near: u16,
    far: u16,
    pad_near: u16,
    pad_far: u16,
    shift: usize,
) -> u16 {
    clamp16(base_anchor(place, near, far, pad_near, pad_far) - shift)
}

/// `floor(axis / 2 - 1)`, and 0 where that is negative.
pub open spec fn half_floor(axis: u16) -> nat {
    if axis / 2 >= 1 {
        (axis / 2 - 1) as nat
    } else {
        0
    }
}

/// `axis / 2 - 1` rounded to the nearest integer, a half rounding away from
/// zero, and 0 where that is negative.
pub open spec fn half_round(axis: u16) -> nat {
    if axis % 2 == 0 {
        half_floor(axis)
    } else {
        (axis / 2) as nat
    }
}

/// `v` brought into the range of `usize`: below zero it is 0, above
/// `usize::MAX` it is `usize::MAX`.
pub open spec fn cap(v: int) -> nat {
    if v > usize::MAX {
        usize::MAX as nat
    } else if v < 0 {
        0
    } else {
        v as nat
    }
}

/// How often the first filler repeats: `half_floor(axis)` less the leading
/// padding (not below 0), lengthened by `extra` (not above `usize::MAX`).
pub open spec fn first_repeat(axis: u16, pad: u16, extra: usize) -> nat {
    cap(cap(half_floor(axis) - pad) + extra)
}

/// How often the second filler repeats: `half_round(axis)` less the
/// trailing padding and one more (not below 0), lengthened by `extra` (not
/// above `usize::MAX`).
pub open spec fn second_repeat(axis: u16, pad: u16, extra: usize) -> nat {
    cap(cap(half_round(axis) - pad - 1) + extra)
}

/// The blanks before the first glyph: none for a rule at the start, the
/// leading padding for one in the middle, both paddings for one at the end.
pub open spec fn lead_blanks(place: Placement, pad_1: u16, pad_2: u16) -> nat {
    match place {
        Placement::Start => 0,
        Placement::Middle => pad_1 as nat,
        Placement::End => (pad_1 + pad_2) as nat,
    }
}

/// The blanks after the last glyph: both paddings for a rule at the start,
/// the trailing padding for one in the middle, none for one at the end.
pub open spec fn trail_blanks(place: Placement, pad_1: u16, pad_2: u16) -> nat {
    match place {
        Placement::Start => (pad_1 + pad_2) as nat,
        Placement::Middle => pad_2 as nat,
        Placement::End => 0,
    }
}

/// The number of glyphs from the start glyph to the end glyph, both
/// counted: the three fixed glyphs and the two filler runs.
pub open spec fn printable_len(axis: u16, pad_1: u16, pad_2: u16, extra_1: usize, extra_2: usize) -> nat {
    3 + first_repeat(axis, pad_1, extra_1) + second_repeat(axis, pad_2, extra_2)
}

/// Computes the anchor row or column of a rule.
pub fn resolve_anchor(
    place: Placement,
    near: u16,
    far: u16,
    pad_near: u16,
    pad_far: u16,
    shift: usize,
) -> (at: u16)
    ensures
        at == anchor(place, near, far, pad_near, pad_far, shift),
{
    let base: u16 = match place {
        Placement::Start => {
            let sum: u32 = near as u32 + pad_near as u32;
            let kept: u32 = sum.saturating_sub(pad_far as u32);
            if kept > 0xffff {
                0xffff
            } else {
                kept as u16
            }
        },
        Placement::Middle => (far / 2).saturating_sub(1).saturating_sub(pad_far).saturating_add(
            pad_near,
        ),
        Placement::End => far.saturating_sub(3).saturating_sub(pad_far).saturating_add(pad_near),
    };
    let back: u16 = if shift > 0xffff {
        0xffff
    } else {
        shift as u16
    };
    base.saturating_sub(back)
}

/// Computes how often the first filler repeats.
pub fn count_first(axis: u16, pad: u16, extra: usize) -> (n: usize)
    ensures
        n == first_repeat(axis, pad, extra),
{
    let half: u16 = (axis / 2).saturating_sub(1);
    let kept: usize = half.saturating_sub(pad) as usize;
    kept.saturating_add(extra)
}

/// Computes how often the second filler repeats.
pub fn count_second(axis: u16, pad: u16, extra: usize) -> (n: usize)
    ensures
        n == second_repeat(axis, pad, extra),
{
    let half: u16 = if axis % 2 == 0 {
        (axis / 2).saturating_sub(1)
    } else {
        axis / 2
    };
    let kept: usize = half.saturating_sub(pad).saturating_sub(1) as usize;
    kept.saturating_add(extra)
}

/// Computes the blanks before the first glyph.
pub fn count_lead(place: Placement, pad_1: u16, pad_2: u16) -> (n: usize)
    ensures
        n == lead_blanks(place, pad_1, pad_2),
{
    match place {
        Placement::Start => 0,
        Placement::Middle => pad_1 as usize,
        Placement::End => pad_1 as usize + pad_2 as usize,
    }
}

/// Computes the blanks after the last glyph.
pub fn count_trail(place: Placement, pad_1: u16, pad_2: u16) -> (n: usize)
    ensures
        n == trail_blanks(place, pad_1, pad_2),
{
    match place {
        Placement::Start => pad_1 as usize + pad_2 as usize,
        Placement::Middle => pad_2 as usize,
        Placement::End => 0,
    }
}

} // verus!
