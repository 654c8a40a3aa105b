//! The lines of a histogram: a label of fixed width and a bar of stars.

use vstd::prelude::*;
use vstd::string::{StrSliceExecFns, StringExecFns, StringSliceAdditionalSpecFns};

verus! {

/// The widest a label is shown.
pub const MAX_LABEL_WIDTH: usize = 20;

/// The greatest of these lengths; 0 where there is none.
pub open spec fn longest(lengths: Seq<usize>) -> nat
    decreases lengths.len(),
{
    if lengths.len() == 0 {
        0
    } else if lengths.last() as nat >= longest(lengths.drop_last()) {
        lengths.last() as nat
    } else {
        longest(lengths.drop_last())
    }
}

/// The width that labels of these lengths are shown in: that of the longest,
/// and no more than the widest allowed.
pub open spec fn spec_label_width(lengths: Seq<usize>) -> nat {
    if longest(lengths) <= MAX_LABEL_WIDTH {
        longest(lengths)
    } else {
        MAX_LABEL_WIDTH as nat
    }
}

/// `count` times the character `c`.
pub open spec fn repeated(c: char, count: nat) -> Seq<char> {
    Seq::new(count, |i: int| c)
}

/// A label fitted to a width. A text is cut after `width` characters and
/// filled up with spaces behind it; a number is never cut and is filled up
/// with spaces before it.
pub open spec fn fitted(label: Seq<char>, width: nat, numeric: bool) -> Seq<char> {
    if numeric {
        if label.len() >= width {
            label
        } else {
            repeated(' ', (width - label.len()) as nat) + label
        }
    } else {
        if label.len() >= width {
            label.take(width as int)
        } else {
            label + repeated(' ', (width - label.len()) as nat)
        }
    }
}

/// A line of the histogram: the fitted label, a space, and one star for each
/// of `count`.
pub open spec fn line_of(label: Seq<char>, width: nat, numeric: bool, count: nat) -> Seq<char> {
    fitted(label, width, numeric) + " "@ + repeated('*', count)
}

/// The width that labels of these lengths are shown in.
pub fn label_width(lengths: &[usize]) -> (width: usize)
    ensures
        width as nat == spec_label_width(lengths@),
        width <= MAX_LABEL_WIDTH,
{
    let mut most: usize = 0;
    let mut i: usize = 0;
    assert(lengths@.take(0) =~= Seq::<usize>::empty());
    while i < lengths.len()
        invariant
            i <= lengths@.len(),
            most as nat == longest(lengths@.take(i as int)),
        decreases lengths@.len() - i,
    {
        assert(lengths@.take(i + 1).drop_last() =~= lengths@.take(i as int));
        assert(lengths@.take(i + 1).last() == lengths@[i as int]);
        if lengths[i] >= most {
            most = lengths[i];
        }
        i += 1;
    }
    assert(lengths@.take(i as int) =~= lengths@);
    if most <= MAX_LABEL_WIDTH {
        most
    } else {
        MAX_LABEL_WIDTH
    }
}

/// `count` times the text of one character `unit`.
pub fn repeat_text(unit: &str, count: usize) -> (text: String)
    requires
        unit@.len() == 1,
    ensures
        text@ == repeated(unit@[0], count as nat),
{
    let mut text = String::new();
    let mut i: usize = 0;
    assert(text@ =~= repeated(unit@[0], 0));
    while i < count
        invariant
            i <= count,
            unit@.len() == 1,
            text@ == repeated(unit@[0], i as nat),
        decreases count - i,
    {
        let ghost before = text@;
        text = text.concat(unit);
        assert(before + unit@ =~= repeated(unit@[0], (i + 1) as nat));
        i += 1;
    }
    text
}

/// A label fitted to a width.
pub fn fit_label(label: &str, width: usize, numeric: bool) -> (text: String)
    ensures
        text@ == fitted(label@, width as nat, numeric),
{
    proof {
        reveal_strlit(" ");
    }
    let length = label.unicode_len();
    if length >= width {
        if numeric {
            String::from_str(label)
        } else {
            assert(label@.subrange(0, width as int) =~= label@.take(width as int));
            String::from_str(label.substring_char(0, width))
        }
    } else {
        let fill = repeat_text(" ", width - length);
        if numeric {
            fill.concat(label)
        } else {
            String::from_str(label).concat(fill.as_str())
        }
    }
}

/// A line of the histogram.
pub fn histogram_line(label: &str, width: usize, numeric: bool, count: u32) -> (text: String)
    ensures
        text@ == line_of(label@, width as nat, numeric, count as nat),
{
    proof {
        reveal_strlit("*");
    }
    let bar = repeat_text("*", count as usize);
    fit_label(label, width, numeric).concat(" ").concat(bar.as_str())
}

} // verus!
