//! The mathematical model of a draw: the plot's abstract state, the layout
//! arithmetic (scaling ceiling, reserved width, drawable width, drawn bar
//! lengths), the structural preconditions that make a draw fail, and the exact
//! character sequence of a rendered frame and of an in-place redraw.

use vstd::prelude::*;
use crate::color::Color;
use crate::term::{
    is_fg_token, move_down_seq, next_line_seq, prev_line_seq, reset_seq, restore_seq, save_seq,
};
use crate::text::{blanks, char_run, decimal, digit_count, longest_len, padded};

verus! {

/// Why a draw was refused. Drawing fails fast on structural precondition
/// violations instead of producing undefined layout arithmetic.
#[derive(Clone, Copy, PartialEq, Eq, Structural, Debug)]
pub enum PlotError {
    /// The dataset holds no rows.
    EmptyDataset,
    /// The dataset's rows do not all have the same column count.
    JaggedRows,
    /// The color palette resolved to no colors.
    EmptyPalette,
    /// Column labels are shown but there are fewer labels than columns.
    MissingColumnLabels,
    /// The canvas is narrower than the space labels and digits reserve.
    InsufficientWidth,
    /// The previous frame is too tall for the cursor protocol to step over.
    FrameTooTall,
}

/// The abstract state a draw depends on: the dataset, the label families, the
/// descriptor's flags and width, the palette, the cached foreground escapes
/// (one per palette entry, plus the one labels use), and the optional value
/// cap.
pub ghost struct PlotView {
    pub data: Seq<Seq<u32>>,
    pub labels: Seq<Seq<char>>,
    pub col_labels: Seq<Seq<char>>,
    pub width: nat,
    pub show_col_labels: bool,
    pub show_legend: bool,
    pub palette: Seq<Color>,
    pub palette_fg: Seq<Seq<char>>,
    pub label_fg: Seq<char>,
    pub val_cap: Option<u32>,
}

/// Every row has the same column count as the first.
pub open spec fn rectangular(data: Seq<Seq<u32>>) -> bool {
    forall|i: int| 0 <= i < data.len() ==> #[trigger] data[i].len() == data[0].len()
}

/// The largest value in a row (0 for an empty row).
pub open spec fn row_max(row: Seq<u32>) -> u32
    decreases row.len(),
{
    if row.len() == 0 {
        0
    } else {
        let rest = row_max(row.drop_last());
        if row.last() > rest {
            row.last()
        } else {
            rest
        }
    }
}

/// The largest value in the dataset (0 for an empty dataset).
pub open spec fn data_max(data: Seq<Seq<u32>>) -> u32
    decreases data.len(),
{
    if data.len() == 0 {
        0
    } else {
        let rest = data_max(data.drop_last());
        let last = row_max(data.last());
        if last > rest {
            last
        } else {
            rest
        }
    }
}

/// The scaling ceiling: the explicit cap where one is set, otherwise the
/// dataset's own maximum, recomputed every draw.
pub open spec fn scale_max(p: PlotView) -> u32 {
    match p.val_cap {
        Some(v) => v,
        None => data_max(p.data),
    }
}

/// The columns the row-label prefix reserves, plus the per-bar column-label
/// prefix where column labels are shown (each label field plus a colon-space
/// separator).
pub open spec fn reserved_width(p: PlotView) -> nat {
    longest_len(p.labels) + 2 + if p.show_col_labels {
        longest_len(p.col_labels) + 2
    } else {
        0 as nat
    }
}

/// The canvas columns a draw needs before any bar cell: the reserved label
/// space, the ceiling's digit count (each bar carries its value as a decimal
/// suffix), and three columns of fixed punctuation slack.
pub open spec fn width_needed(p: PlotView) -> nat {
    reserved_width(p) + digit_count(scale_max(p) as nat) + 3
}

/// The maximum bar length in character cells (meaningful when the canvas is
/// wide enough).
pub open spec fn drawable_width(p: PlotView) -> nat {
    (p.width - width_needed(p)) as nat
}

/// `v` held down to the ceiling `m`.
pub open spec fn clamped(v: u32, m: u32) -> u32 {
    if v > m {
        m
    } else {
        v
    }
}

/// The bar length that value `v` draws under ceiling `m` within `d` cells:
/// the clamped value, scaled linearly (truncating division) when the ceiling
/// exceeds the drawable width.
pub open spec fn drawn_length(v: u32, m: u32, d: nat) -> nat {
    let c = clamped(v, m);
    if m > d {
        ((c as nat) * d / (m as nat)) as nat
    } else {
        c as nat
    }
}

/// The structural check a draw makes before it writes anything: the first
/// violated precondition, in this order, or `None` where the draw goes ahead.
pub open spec fn draw_error(p: PlotView) -> Option<PlotError> {
    if p.data.len() == 0 {
        Some(PlotError::EmptyDataset)
    } else if !rectangular(p.data) {
        Some(PlotError::JaggedRows)
    } else if p.palette.len() == 0 {
        Some(PlotError::EmptyPalette)
    } else if p.show_col_labels && p.col_labels.len() < p.data[0].len() {
        Some(PlotError::MissingColumnLabels)
    } else if p.width < width_needed(p) {
        Some(PlotError::InsufficientWidth)
    } else {
        None
    }
}

/// The cached foreground escapes match the palette: one escape per entry, each
/// a foreground escape for its color, and the label escape one for white.
pub open spec fn wf(p: PlotView) -> bool {
    &&& p.palette_fg.len() == p.palette.len()
    &&& forall|i: int|
        0 <= i < p.palette.len() ==> is_fg_token(#[trigger] p.palette_fg[i], p.palette[i])
    &&& is_fg_token(p.label_fg, Color::White)
}

/// The palette entry column `i` cycles to.
pub open spec fn palette_index(p: PlotView, i: int) -> int {
    i % (p.palette.len() as int)
}

/// A label prefix: the label left-justified in its family's widest field,
/// colored by `fg`, followed by a colon-space separator.
pub open spec fn label_chunk(fg: Seq<char>, text: Seq<char>, w: nat) -> Seq<char> {
    fg + padded(text, w) + seq![':', ' '] + reset_seq()
}

/// Row `r`'s label: the labels sequence's entry where one exists, the empty
/// text otherwise (missing labels render as empty; excess labels are ignored).
pub open spec fn row_label(p: PlotView, r: int) -> Seq<char> {
    if 0 <= r < p.labels.len() {
        p.labels[r]
    } else {
        Seq::<char>::empty()
    }
}

/// One bar cell: save the cursor, the column-label prefix where shown, the
/// colored bar glyphs with the value's decimal suffix, then a newline,
/// a restore to the saved position and one step down, so consecutive bars of
/// a row group stand on parallel lines.
pub open spec fn bar_cell(p: PlotView, r: int, i: int) -> Seq<char> {
    save_seq() + (if p.show_col_labels {
        label_chunk(p.label_fg, p.col_labels[i], longest_len(p.col_labels))
    } else {
        Seq::<char>::empty()
    }) + p.palette_fg[palette_index(p, i)] + char_run(
        '\u{2584}',
        drawn_length(p.data[r][i], scale_max(p), drawable_width(p)),
    ) + seq![' '] + decimal(p.data[r][i] as nat) + reset_seq() + seq!['\n'] + restore_seq()
        + move_down_seq(1)
}

/// The first `k` bar cells of row `r`, in column order.
pub open spec fn bar_cells(p: PlotView, r: int, k: int) -> Seq<char>
    decreases k,
{
    if k <= 0 {
        Seq::<char>::empty()
    } else {
        bar_cells(p, r, k - 1) + bar_cell(p, r, k - 1)
    }
}

/// One row group: the row-label prefix (printed only for a non-empty label),
/// the row's bar cells, and a move to the start of the line below the group.
pub open spec fn row_group(p: PlotView, r: int) -> Seq<char> {
    (if row_label(p, r).len() > 0 {
        label_chunk(p.label_fg, row_label(p, r), longest_len(p.labels))
    } else {
        Seq::<char>::empty()
    }) + bar_cells(p, r, p.data[r].len() as int) + next_line_seq(0)
}

/// The first `k` row groups, in row order.
pub open spec fn row_groups(p: PlotView, k: int) -> Seq<char>
    decreases k,
{
    if k <= 0 {
        Seq::<char>::empty()
    } else {
        row_groups(p, k - 1) + row_group(p, k - 1)
    }
}

/// One legend entry: the column label, a space, one colored sample glyph and
/// four spaces of separation.
pub open spec fn legend_cell(p: PlotView, j: int) -> Seq<char> {
    p.col_labels[j] + seq![' '] + p.palette_fg[palette_index(p, j)] + char_run('\u{2584}', 1)
        + blanks(4) + reset_seq()
}

/// The first `k` legend entries.
pub open spec fn legend_cells(p: PlotView, k: int) -> Seq<char>
    decreases k,
{
    if k <= 0 {
        Seq::<char>::empty()
    } else {
        legend_cells(p, k - 1) + legend_cell(p, k - 1)
    }
}

/// The legend line: blank padding over the reserved label columns, one entry
/// per column label, and a newline.
pub open spec fn legend_line(p: PlotView) -> Seq<char> {
    blanks(reserved_width(p)) + legend_cells(p, p.col_labels.len() as int) + seq!['\n']
}

/// The full frame a static draw writes: the legend line where the legend is
/// shown, then every row group.
pub open spec fn frame_chars(p: PlotView) -> Seq<char> {
    (if p.show_legend {
        legend_line(p)
    } else {
        Seq::<char>::empty()
    }) + row_groups(p, p.data.len() as int)
}

/// The terminal lines one frame occupies: one line per bar cell, the line
/// below the frame, and the legend line where shown.
pub open spec fn frame_height(p: PlotView) -> nat {
    p.data[0].len() * p.data.len() + 1 + if p.show_legend {
        1 as nat
    } else {
        0 as nat
    }
}

/// `h` blanked lines, each the canvas width of spaces.
pub open spec fn blank_lines(w: nat, h: nat) -> Seq<char>
    decreases h,
{
    if h == 0 {
        Seq::<char>::empty()
    } else {
        blank_lines(w, (h - 1) as nat) + blanks(w) + seq!['\n']
    }
}

/// The characters an in-place redraw writes: up to the previous frame's
/// top-left, the previous region blanked, up to the top-left again, then the
/// new frame in full.
pub open spec fn redraw_chars(prev_height: nat, p: PlotView) -> Seq<char> {
    prev_line_seq(prev_height) + blank_lines(p.width, prev_height) + prev_line_seq(prev_height)
        + frame_chars(p)
}

/// The check a redraw makes: the previous frame must have a height (a
/// non-empty previous dataset) that the cursor protocol can step over, and the
/// new state must draw.
pub open spec fn redraw_error(prev: PlotView, next: PlotView) -> Option<PlotError> {
    if prev.data.len() == 0 {
        Some(PlotError::EmptyDataset)
    } else if frame_height(prev) > 65535 {
        Some(PlotError::FrameTooTall)
    } else {
        draw_error(next)
    }
}

} // verus!
