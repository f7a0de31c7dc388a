//! The renderer's general laws, proved once over the layout and frame
//! specifications: bars fit the drawable width, drawing is deterministic,
//! scaling is monotone, clamping caps the bar but not the suffix, the palette
//! cycles, and padded labels have exactly the field width.

use vstd::prelude::*;
use crate::color::Color;
use crate::frame::{clamped, drawn_length, frame_chars, palette_index, wf, PlotView};
use crate::term::is_fg_token;
use crate::text::{lemma_longest_len_bounds, longest_len, padded};

verus! {

/// Every cell's drawn bar length fits within the drawable width: clamping
/// bounds an unscaled bar by the ceiling, and linear scaling never exceeds
/// the width it scales into.
pub proof fn lemma_drawn_length_fits(v: u32, m: u32, d: nat)
    ensures
        drawn_length(v, m, d) <= d,
{
    let c = clamped(v, m) as int;
    if m > d {
        vstd::arithmetic::mul::lemma_mul_inequality(c, m as int, d as int);
        vstd::arithmetic::div_mod::lemma_div_is_ordered(c * (d as int), (m as int) * (d as int), m as int);
        vstd::arithmetic::div_mod::lemma_div_multiples_vanish(d as int, m as int);
    }
}

/// Rendering is a function of the plot state alone: two draws of the same
/// (descriptor, dataset) pair produce identical character sequences, so
/// redrawing with the same data is idempotent on the screen.
pub proof fn lemma_draw_deterministic(p1: PlotView, p2: PlotView)
    requires
        p1 == p2,
    ensures
        frame_chars(p1) == frame_chars(p2),
{
}

/// When the ceiling exceeds the drawable width, the drawn bar length is
/// monotonically non-decreasing in the cell's value (and so in its clamped
/// value); without scaling it is the clamped value itself, monotone too.
pub proof fn lemma_drawn_length_monotone(v1: u32, v2: u32, m: u32, d: nat)
    requires
        v1 <= v2,
    ensures
        drawn_length(v1, m, d) <= drawn_length(v2, m, d),
{
    let c1 = clamped(v1, m) as int;
    let c2 = clamped(v2, m) as int;
    if m > d {
        vstd::arithmetic::mul::lemma_mul_inequality(c1, c2, d as int);
        vstd::arithmetic::div_mod::lemma_div_is_ordered(c1 * (d as int), c2 * (d as int), m as int);
    }
}

/// A value above the ceiling draws exactly as the ceiling itself draws; its
/// printed suffix still carries the unclamped value, since the frame prints
/// `decimal` of the cell's true value.
pub proof fn lemma_clamped_value_draws_as_ceiling(v: u32, m: u32, d: nat)
    requires
        v > m,
    ensures
        drawn_length(v, m, d) == drawn_length(m, m, d),
{
}

/// The palette cycles: column `i` takes palette entry `i mod P`, and the
/// foreground escape a well-formed plot draws that column with is an escape
/// for exactly that entry's color.
pub proof fn lemma_palette_cycles(p: PlotView, i: int)
    requires
        wf(p),
        p.palette.len() > 0,
        0 <= i,
    ensures
        palette_index(p, i) == i % (p.palette.len() as int),
        is_fg_token(p.palette_fg[palette_index(p, i)], p.palette[i % (p.palette.len() as int)]),
{
    vstd::arithmetic::div_mod::lemma_mod_bound(i, p.palette.len() as int);
}

/// Padding makes every label of a family exactly as long as the family's
/// widest label: the field width every row-label and column-label prefix
/// uses.
pub proof fn lemma_label_padding(ls: Seq<Seq<char>>, i: int)
    requires
        0 <= i < ls.len(),
    ensures
        padded(ls[i], longest_len(ls)).len() == longest_len(ls),
{
    lemma_longest_len_bounds(ls, i);
}

} // verus!
