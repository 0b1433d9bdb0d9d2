//! The glyphs of a rule, in the order in which they are drawn.
use vstd::prelude::*;
use crate::layout::{
    count_first,
    count_lead,
    count_second,
    count_trail,
    first_repeat,
    lead_blanks,
    second_repeat,
    trail_blanks,
};
use crate::symbols::{Placement, SymbolSet};

verus! {

/// `count` times the glyph `symbol`.
pub open spec fn run(symbol: char, count: nat) -> Seq<char> {
    Seq::new(count, |i: int| symbol)
}

/// The line of a rule along an axis of `axis` cells: the leading blanks,
/// the start glyph, the first filler run, the center glyph, the second
/// filler run, the end glyph and the trailing blanks.
pub open spec fn rule_line(
    set: SymbolSet,
    place: Placement,
    axis: u16,
    pad_1: u16,
    pad_2: u16,
    extra_1: usize,
    extra_2: usize,
) -> Seq<char> {
    run(' ', lead_blanks(place, pad_1, pad_2))
        + seq![set.start]
        + run(set.rep_1, first_repeat(axis, pad_1, extra_1))
        + seq![set.center]
        + run(set.rep_2, second_repeat(axis, pad_2, extra_2))
        + seq![set.end]
        + run(' ', trail_blanks(place, pad_1, pad_2))
}

/// Appends `count` times the glyph `symbol` to `line`.
pub fn push_run(line: &mut Vec<char>, symbol: char, count: usize)
    ensures
        final(line)@ == old(line)@ + run(symbol, count as nat),
{
    let ghost before = line@;
    let mut done: usize = 0;
    while done < count
        invariant
            done <= count,
            line@ == before + run(symbol, done as nat),
        decreases count - done,
    {
        line.push(symbol);
        done = done + 1;
        assert(line@ =~= before + run(symbol, done as nat));
    }
}

/// Builds the line of a rule: see `rule_line`.
pub fn create_segment(
    set: &SymbolSet,
    place: Placement,
    axis: u16,
    pad_1: u16,
    pad_2: u16,
    extra_1: usize,
    extra_2: usize,
) -> (line: Vec<char>)
    ensures
        line@ == rule_line(*set, place, axis, pad_1, pad_2, extra_1, extra_2),
{
    let mut line: Vec<char> = Vec::new();
    push_run(&mut line, ' ', count_lead(place, pad_1, pad_2));
    line.push(set.start);
    push_run(&mut line, set.rep_1, count_first(axis, pad_1, extra_1));
    line.push(set.center);
    push_run(&mut line, set.rep_2, count_second(axis, pad_2, extra_2));
    line.push(set.end);
    push_run(&mut line, ' ', count_trail(place, pad_1, pad_2));
    assert(line@ =~= rule_line(*set, place, axis, pad_1, pad_2, extra_1, extra_2));
    line
}

} // verus!
