//! The configuration builder and the render engine. `GraphBuilder`
//! accumulates rendering parameters through a fluent chain and `build`
//! finalizes them into a `StaticPlot`, which owns the current dataset and
//! draws frames: a full static draw with `print_static`, and an in-place
//! differential refresh with `refresh_2d_data` / `refresh_1d_data`. Every
//! draw appends the frame's exact character sequence to a caller-supplied
//! buffer; the caller hands those characters to the terminal.

use vstd::prelude::*;
use crate::color::{palette_from_names, palette_of_names, Color};
use crate::frame::{
    bar_cell, bar_cells, blank_lines, clamped, data_max, draw_error, drawable_width, drawn_length,
    frame_chars, frame_height, label_chunk, legend_cell, legend_cells, legend_line, palette_index,
    rectangular, redraw_chars, redraw_error, reserved_width, row_group, row_groups, row_label,
    row_max, scale_max, wf, width_needed, PlotError, PlotView,
};
use crate::term::{
    ansi_move_down, ansi_move_to_next_line, ansi_move_to_previous_line, ansi_reset_color,
    ansi_restore_position, ansi_save_position, ansi_set_foreground, is_fg_token, reset_seq,
    terminal_columns,
};
use crate::text::{
    blanks, char_run, count_digits, decimal, lemma_longest_len_bounds, longest_len,
    longest_text_len, padded, space_string, u32_decimal,
};

verus! {

/// The render engine: an immutable descriptor (width, flags, palette and its
/// cached foreground escapes, optional value cap) plus the current dataset,
/// replaced wholesale on refresh.
pub struct StaticPlot {
    data: Vec<Vec<u32>>,
    labels: Vec<String>,
    col_labels: Vec<String>,
    width: u16,
    show_col_labels: bool,
    show_legend: bool,
    color_palette: Vec<Color>,
    palette_fg: Vec<String>,
    label_fg: String,
    val_cap: Option<u32>,
}

impl View for StaticPlot {
    type V = PlotView;

    closed spec fn view(&self) -> PlotView {
        PlotView {
            data: self.data.deep_view(),
            labels: self.labels.deep_view(),
            col_labels: self.col_labels.deep_view(),
            width: self.width as nat,
            show_col_labels: self.show_col_labels,
            show_legend: self.show_legend,
            palette: self.color_palette@,
            palette_fg: self.palette_fg.deep_view(),
            label_fg: self.label_fg@,
            val_cap: self.val_cap,
        }
    }
}

impl StaticPlot {
    /// The scaling ceiling of the current draw: the explicit cap where set,
    /// otherwise the largest value in the dataset.
    fn find_max_val(&self) -> (r: u32)
        ensures
            r == scale_max(self@),
    {
        match self.val_cap {
            Some(val) => val,
            None => {
                let mut max: u32 = 0;
                let mut i: usize = 0;
                proof {
                    assert(self@.data.take(0) =~= Seq::<Seq<u32>>::empty());
                }
                while i < self.data.len()
                    invariant
                        i <= self.data.len(),
                        self@.data.len() == self.data.len(),
                        max == data_max(self@.data.take(i as int)),
                    decreases self.data.len() - i,
                {
                    let row = &self.data[i];
                    let mut j: usize = 0;
                    proof {
                        assert(row@.take(0) =~= Seq::<u32>::empty());
                    }
                    let mut rmax: u32 = 0;
                    while j < row.len()
                        invariant
                            j <= row.len(),
                            rmax == row_max(row@.take(j as int)),
                        decreases row.len() - j,
                    {
                        let val = row[j];
                        proof {
                            assert(row@.take(j + 1).drop_last() =~= row@.take(j as int));
                            assert(row@.take(j + 1).last() == row@[j as int]);
                        }
                        if val > rmax {
                            rmax = val;
                        }
                        j = j + 1;
                    }
                    proof {
                        assert(row@.take(row@.len() as int) =~= row@);
                        assert(self@.data.take(i + 1).drop_last() =~= self@.data.take(i as int));
                        assert(self@.data.take(i + 1).last() == self@.data[i as int]);
                        assert(self@.data[i as int] =~= row@);
                    }
                    if rmax > max {
                        max = rmax;
                    }
                    i = i + 1;
                }
                proof {
                    assert(self@.data.take(self.data.len() as int) =~= self@.data);
                }
                max
            },
        }
    }

    /// A bar of `amount` block glyphs.
    fn generate_bar(&self, amount: u32) -> (r: String)
        ensures
            r@ == char_run('\u{2584}', amount as nat),
    {
        let mut result = String::new();
        let mut i: u32 = 0;
        proof {
            assert(result@ =~= char_run('\u{2584}', 0));
        }
        while i < amount
            invariant
                i <= amount,
                result@ == char_run('\u{2584}', i as nat),
            decreases amount - i,
        {
            result.append("\u{2584}");
            proof {
                reveal_strlit("\u{2584}");
                assert(result@ =~= char_run('\u{2584}', (i + 1) as nat));
            }
            i = i + 1;
        }
        result
    }

    /// `label` left-justified in a field of `max_len` characters.
    fn norm_label(&self, label: &str, max_len: usize) -> (r: String)
        requires
            label@.len() <= max_len,
        ensures
            r@ == padded(label@, max_len as nat),
    {
        let l = label.unicode_len();
        let mut s = label.to_owned();
        let mut i: usize = l;
        proof {
            assert(s@ =~= label@ + blanks(0));
        }
        while i < max_len
            invariant
                label@.len() == l,
                l <= i <= max_len || (l == i && i >= max_len),
                s@ == label@ + blanks((i - l) as nat),
            decreases max_len - i,
        {
            s.append(" ");
            proof {
                reveal_strlit(" ");
                assert(s@ =~= label@ + blanks((i + 1 - l) as nat));
            }
            i = i + 1;
        }
        proof {
            assert(s@ =~= padded(label@, max_len as nat));
        }
        s
    }

    /// Appends one label prefix: the (already padded) label in the given
    /// foreground color, followed by the colon-space separator.
    fn print_label(&self, label: &str, fg: &String, out: &mut String)
        ensures
            final(out)@ == old(out)@ + fg@ + label@ + seq![':', ' '] + reset_seq(),
    {
        out.append(fg.as_str());
        out.append(label);
        out.append(": ");
        let rc = ansi_reset_color();
        out.append(rc.as_str());
        proof {
            reveal_strlit(": ");
            assert((": ")@ =~= seq![':', ' ']);
            assert(final(out)@ =~= old(out)@ + fg@ + label@ + seq![':', ' '] + reset_seq());
        }
    }

    /// Appends one bar: the clamped, scaled run of block glyphs in the given
    /// foreground color, a space, and the true value's decimal suffix.
    fn print_bar(&self, size: u32, fg: &String, draw_width: u16, max_val: u32, out: &mut String)
        ensures
            final(out)@ == old(out)@ + fg@ + char_run(
                '\u{2584}',
                drawn_length(size, max_val, draw_width as nat),
            ) + seq![' '] + decimal(size as nat) + reset_seq(),
    {
        let mut draw_size: u32 = size;
        if size > max_val {
            draw_size = max_val;
        }
        if max_val > draw_width as u32 {
            proof {
                vstd::arithmetic::mul::lemma_mul_upper_bound(
                    draw_size as int,
                    0xffff_ffff,
                    draw_width as int,
                    0xffff,
                );
            }
            let scaled: u64 = (draw_size as u64) * (draw_width as u64) / (max_val as u64);
            proof {
                let c = clamped(size, max_val) as int;
                let d = draw_width as int;
                let m = max_val as int;
                vstd::arithmetic::mul::lemma_mul_inequality(c, m, d);
                vstd::arithmetic::div_mod::lemma_div_is_ordered(c * d, m * d, m);
                vstd::arithmetic::div_mod::lemma_div_multiples_vanish(d, m);
                assert(c * d / m <= d);
            }
            draw_size = scaled as u32;
        }
        proof {
            assert(draw_size as nat == drawn_length(size, max_val, draw_width as nat));
        }
        out.append(fg.as_str());
        let bar = self.generate_bar(draw_size);
        out.append(bar.as_str());
        out.append(" ");
        let num = u32_decimal(size);
        out.append(num.as_str());
        let rc = ansi_reset_color();
        out.append(rc.as_str());
        proof {
            reveal_strlit(" ");
            assert((" ")@ =~= seq![' ']);
            assert(final(out)@ =~= old(out)@ + fg@ + char_run(
                '\u{2584}',
                drawn_length(size, max_val, draw_width as nat),
            ) + seq![' '] + decimal(size as nat) + reset_seq());
        }
    }

    /// Moves the cursor back up over a drawn region of the given height.
    fn reset_cursor(&self, height: u16, out: &mut String)
        ensures
            final(out)@ == old(out)@ + crate::term::prev_line_seq(height as nat),
    {
        let esc = ansi_move_to_previous_line(height);
        out.append(esc.as_str());
    }

    /// Overwrites the drawing region with `height` lines of spaces sized to
    /// the canvas width, then moves the cursor back to the region's top-left.
    fn clear_space(&self, height: u16, out: &mut String)
        ensures
            final(out)@ == old(out)@ + blank_lines(self@.width, height as nat)
                + crate::term::prev_line_seq(height as nat),
    {
        let blank = space_string(self.width as usize);
        let mut i: u16 = 0;
        proof {
            assert(out@ =~= out@ + blank_lines(self@.width, 0));
        }
        let ghost start = out@;
        while i < height
            invariant
                i <= height,
                blank@ == blanks(self@.width),
                out@ == start + blank_lines(self@.width, i as nat),
            decreases height - i,
        {
            out.append(blank.as_str());
            out.append("\n");
            proof {
                reveal_strlit("\n");
                assert(("\n")@ =~= seq!['\n']);
                assert(out@ =~= start + blank_lines(self@.width, (i + 1) as nat));
            }
            i = i + 1;
        }
        self.reset_cursor(height, out);
    }

    /// The terminal lines the current frame occupies.
    fn get_graph_height(&self) -> (r: u16)
        requires
            self@.data.len() > 0,
            frame_height(self@) <= 65535,
        ensures
            r as nat == frame_height(self@),
    {
        let mut height: usize = self.data[0].len() * self.data.len() + 1;
        if self.show_legend {
            height = height + 1;
        }
        height as u16
    }

    /// The maximum bar length the canvas leaves once labels and the numeric
    /// suffix are reserved; `None` where the canvas is too narrow.
    fn normalize_draw_space(&self, max_label_len: usize, max_col_len: usize, max_val: u32) -> (r:
        Option<u16>)
        requires
            max_label_len == longest_len(self@.labels),
            max_col_len == longest_len(self@.col_labels),
            max_val == scale_max(self@),
        ensures
            match r {
                Some(d) => self@.width >= width_needed(self@) && d as nat == drawable_width(self@),
                None => self@.width < width_needed(self@),
            },
    {
        let digits = count_digits(max_val) as usize;
        let mut rem: usize = self.width as usize;
        if rem < max_label_len {
            return None;
        }
        rem = rem - max_label_len;
        if rem < 2 {
            return None;
        }
        rem = rem - 2;
        if self.show_col_labels {
            if rem < max_col_len {
                return None;
            }
            rem = rem - max_col_len;
            if rem < 2 {
                return None;
            }
            rem = rem - 2;
        }
        if rem < digits {
            return None;
        }
        rem = rem - digits;
        if rem < 3 {
            return None;
        }
        rem = rem - 3;
        Some(rem as u16)
    }

    /// The structural check every draw makes before writing: the first
    /// violated precondition, or `None` where the draw goes ahead.
    fn check_draw(&self) -> (r: Option<PlotError>)
        ensures
            r == draw_error(self@),
    {
        if self.data.len() == 0 {
            return Some(PlotError::EmptyDataset);
        }
        let ncols = self.data[0].len();
        let mut i: usize = 0;
        while i < self.data.len()
            invariant
                i <= self.data.len(),
                self@.data.len() == self.data.len(),
                self@.data.len() > 0,
                ncols == self@.data[0].len(),
                forall|k: int| 0 <= k < i ==> #[trigger] self@.data[k].len() == self@.data[0].len(),
            decreases self.data.len() - i,
        {
            if self.data[i].len() != ncols {
                proof {
                    assert(self@.data[i as int] =~= self.data[i as int]@);
                    assert(self@.data[i as int].len() != self@.data[0].len());
                    assert(!rectangular(self@.data));
                }
                return Some(PlotError::JaggedRows);
            }
            i = i + 1;
        }
        proof {
            assert(rectangular(self@.data));
        }
        if self.color_palette.len() == 0 {
            return Some(PlotError::EmptyPalette);
        }
        if self.show_col_labels && self.col_labels.len() < ncols {
            return Some(PlotError::MissingColumnLabels);
        }
        let max_lab = longest_text_len(&self.labels);
        let max_col = longest_text_len(&self.col_labels);
        let max_val = self.find_max_val();
        match self.normalize_draw_space(max_lab, max_col, max_val) {
            Some(_) => None,
            None => Some(PlotError::InsufficientWidth),
        }
    }

    /// Appends one row group: the row-label prefix for a non-empty label, the
    /// row's bar cells in palette-cycled colors, and the move to the line
    /// below the group.
    #[verifier::rlimit(60)]
    fn print_label_group(
        &self,
        label: &str,
        row_idx: usize,
        max_label_len: usize,
        max_col_len: usize,
        max_val: u32,
        draw_width: u16,
        out: &mut String,
    )
        requires
            wf(self@),
            self@.palette.len() > 0,
            row_idx < self@.data.len(),
            label@ == row_label(self@, row_idx as int),
            max_label_len == longest_len(self@.labels),
            max_col_len == longest_len(self@.col_labels),
            max_val == scale_max(self@),
            draw_width as nat == drawable_width(self@),
            self@.show_col_labels ==> self@.col_labels.len() >= self@.data[row_idx as int].len(),
        ensures
            final(out)@ == old(out)@ + row_group(self@, row_idx as int),
    {
        let ghost head = old(out)@ + (if row_label(self@, row_idx as int).len() > 0 {
            label_chunk(
                self@.label_fg,
                row_label(self@, row_idx as int),
                longest_len(self@.labels),
            )
        } else {
            Seq::<char>::empty()
        });
        if !label.is_empty() {
            proof {
                lemma_longest_len_bounds(self@.labels, row_idx as int);
            }
            let padded_label = self.norm_label(label, max_label_len);
            self.print_label(padded_label.as_str(), &self.label_fg, out);
        }
        proof {
            assert(out@ =~= head);
        }
        let cols = self.data[row_idx].len();
        proof {
            assert(self@.data[row_idx as int] =~= self.data[row_idx as int]@);
        }
        let mut i: usize = 0;
        while i < cols
            invariant
                i <= cols,
                wf(self@),
                self@.palette.len() > 0,
                self@.palette_fg.len() == self.palette_fg.len(),
                self@.palette.len() == self.color_palette.len(),
                row_idx < self@.data.len(),
                row_idx < self.data.len(),
                cols == self@.data[row_idx as int].len(),
                cols == self.data[row_idx as int]@.len(),
                max_col_len == longest_len(self@.col_labels),
                max_val == scale_max(self@),
                draw_width as nat == drawable_width(self@),
                self@.show_col_labels ==> self@.col_labels.len() >= cols,
                self@.col_labels.len() == self.col_labels.len(),
                out@ == head + bar_cells(self@, row_idx as int, i as int),
            decreases cols - i,
        {
            let esc_save = ansi_save_position();
            out.append(esc_save.as_str());
            if self.show_col_labels {
                proof {
                    lemma_longest_len_bounds(self@.col_labels, i as int);
                    assert(self@.col_labels[i as int] == self.col_labels[i as int]@);
                }
                let padded_col = self.norm_label(self.col_labels[i].as_str(), max_col_len);
                self.print_label(padded_col.as_str(), &self.label_fg, out);
            }
            let ci = i % self.color_palette.len();
            let v = self.data[row_idx][i];
            self.print_bar(v, &self.palette_fg[ci], draw_width, max_val, out);
            out.append("\n");
            let esc_restore = ansi_restore_position();
            out.append(esc_restore.as_str());
            let esc_down = ansi_move_down(1);
            out.append(esc_down.as_str());
            proof {
                reveal_strlit("\n");
                assert(("\n")@ =~= seq!['\n']);
                assert(self@.palette_fg[ci as int] == self.palette_fg[ci as int]@);
                assert(ci as int == palette_index(self@, i as int));
                assert(v == self@.data[row_idx as int][i as int]);
                assert(out@ =~= head + bar_cells(self@, row_idx as int, i as int) + bar_cell(
                    self@,
                    row_idx as int,
                    i as int,
                ));
                assert(out@ =~= head + bar_cells(self@, row_idx as int, i + 1));
            }
            i = i + 1;
        }
        let esc_next = ansi_move_to_next_line(0);
        out.append(esc_next.as_str());
        proof {
            assert(out@ =~= old(out)@ + row_group(self@, row_idx as int));
        }
    }

    /// Performs a full static draw of the current dataset: the legend line
    /// where the legend is shown, then one row group per dataset row. On
    /// success the buffer is extended by exactly the frame's characters; a
    /// violated structural precondition is reported without writing anything.
    pub fn print_static(&self, out: &mut String) -> (r: Result<(), PlotError>)
        requires
            wf(self@),
        ensures
            match r {
                Ok(()) => draw_error(self@) is None && final(out)@ == old(out)@ + frame_chars(
                    self@,
                ),
                Err(e) => draw_error(self@) == Some(e) && final(out)@ == old(out)@,
            },
    {
        match self.check_draw() {
            Some(e) => {
                return Err(e);
            },
            None => {},
        }
        let max_lab = longest_text_len(&self.labels);
        let max_col = longest_text_len(&self.col_labels);
        let max_val = self.find_max_val();
        let draw_width: u16 = match self.normalize_draw_space(max_lab, max_col, max_val) {
            Some(d) => d,
            None => {
                proof {
                    assert(false);
                }
                0
            },
        };
        let ghost o0 = out@;
        if self.show_legend {
            let mut offset = max_lab + 2;
            if self.show_col_labels {
                offset = offset + max_col + 2;
            }
            proof {
                assert(offset as nat == reserved_width(self@));
            }
            let sp = space_string(offset);
            out.append(sp.as_str());
            proof {
                assert(out@ =~= o0 + blanks(reserved_width(self@)) + legend_cells(self@, 0));
            }
            let mut j: usize = 0;
            while j < self.col_labels.len()
                invariant
                    j <= self.col_labels.len(),
                    wf(self@),
                    self@.palette.len() > 0,
                    self@.palette.len() == self.color_palette.len(),
                    self@.palette_fg.len() == self.palette_fg.len(),
                    self@.col_labels.len() == self.col_labels.len(),
                    out@ == o0 + blanks(reserved_width(self@)) + legend_cells(self@, j as int),
                decreases self.col_labels.len() - j,
            {
                out.append(self.col_labels[j].as_str());
                out.append(" ");
                let ci = j % self.color_palette.len();
                out.append(self.palette_fg[ci].as_str());
                let sample = self.generate_bar(1);
                out.append(sample.as_str());
                let gap = space_string(4);
                out.append(gap.as_str());
                let rc = ansi_reset_color();
                out.append(rc.as_str());
                proof {
                    reveal_strlit(" ");
                    assert((" ")@ =~= seq![' ']);
                    assert(self@.col_labels[j as int] == self.col_labels[j as int]@);
                    assert(self@.palette_fg[ci as int] == self.palette_fg[ci as int]@);
                    assert(ci as int == palette_index(self@, j as int));
                    assert(out@ =~= o0 + blanks(reserved_width(self@)) + legend_cells(
                        self@,
                        j as int,
                    ) + legend_cell(self@, j as int));
                    assert(out@ =~= o0 + blanks(reserved_width(self@)) + legend_cells(
                        self@,
                        j + 1,
                    ));
                }
                j = j + 1;
            }
            out.append("\n");
            proof {
                reveal_strlit("\n");
                assert(("\n")@ =~= seq!['\n']);
                assert(out@ =~= o0 + legend_line(self@));
            }
        }
        let ghost lhead = o0 + (if self@.show_legend {
            legend_line(self@)
        } else {
            Seq::<char>::empty()
        });
        proof {
            assert(out@ =~= lhead);
            assert(out@ =~= lhead + row_groups(self@, 0));
        }
        let mut ri: usize = 0;
        while ri < self.data.len()
            invariant
                ri <= self.data.len(),
                wf(self@),
                self@.palette.len() > 0,
                self@.data.len() == self.data.len(),
                self@.labels.len() == self.labels.len(),
                rectangular(self@.data),
                self@.data.len() > 0,
                self@.show_col_labels ==> self@.col_labels.len() >= self@.data[0].len(),
                max_lab == longest_len(self@.labels),
                max_col == longest_len(self@.col_labels),
                max_val == scale_max(self@),
                draw_width as nat == drawable_width(self@),
                out@ == lhead + row_groups(self@, ri as int),
            decreases self.data.len() - ri,
        {
            if ri < self.labels.len() {
                proof {
                    assert(self@.labels[ri as int] == self.labels[ri as int]@);
                }
                self.print_label_group(
                    self.labels[ri].as_str(),
                    ri,
                    max_lab,
                    max_col,
                    max_val,
                    draw_width,
                    out,
                );
            } else {
                proof {
                    reveal_strlit("");
                    assert(("")@ =~= row_label(self@, ri as int));
                }
                self.print_label_group("", ri, max_lab, max_col, max_val, draw_width, out);
            }
            proof {
                assert(out@ =~= lhead + row_groups(self@, ri + 1));
            }
            ri = ri + 1;
        }
        proof {
            assert(out@ =~= o0 + frame_chars(self@));
        }
        Ok(())
    }

    /// Replaces the held dataset with a new two-dimensional one, then redraws
    /// in place: the cursor steps back over the previous frame, the previous
    /// region is blanked to the canvas width, and the new frame is drawn in
    /// full, so a shrinking dataset leaves no residue. The dataset is replaced
    /// whether or not the redraw goes ahead.
    pub fn refresh_2d_data(&mut self, new_data: Vec<Vec<u32>>, out: &mut String) -> (r: Result<
        (),
        PlotError,
    >)
        requires
            wf(old(self)@),
        ensures
            final(self)@ == (PlotView { data: new_data.deep_view(), ..old(self)@ }),
            wf(final(self)@),
            match r {
                Ok(()) => redraw_error(old(self)@, final(self)@) is None && final(out)@ == old(
                    out,
                )@ + redraw_chars(frame_height(old(self)@), final(self)@),
                Err(e) => redraw_error(old(self)@, final(self)@) == Some(e) && final(out)@ == old(
                    out,
                )@,
            },
    {
        if self.data.len() == 0 {
            self.data = new_data;
            return Err(PlotError::EmptyDataset);
        }
        let rows = self.data.len();
        let cols = self.data[0].len();
        proof {
            assert(self@.data[0] =~= self.data[0 as int]@);
        }
        let too_tall: bool;
        if cols == 0 {
            too_tall = false;
        } else if rows > 65535 || cols > 65535 {
            proof {
                vstd::arithmetic::mul::lemma_mul_inequality(1, cols as int, rows as int);
                vstd::arithmetic::mul::lemma_mul_inequality(1, rows as int, cols as int);
                vstd::arithmetic::mul::lemma_mul_is_commutative(rows as int, cols as int);
            }
            too_tall = true;
        } else {
            proof {
                vstd::arithmetic::mul::lemma_mul_upper_bound(rows as int, 65535, cols as int, 65535);
                vstd::arithmetic::mul::lemma_mul_is_commutative(rows as int, cols as int);
            }
            let mut h: u64 = (rows as u64) * (cols as u64) + 1;
            if self.show_legend {
                h = h + 1;
            }
            too_tall = h > 65535;
        }
        if too_tall {
            self.data = new_data;
            return Err(PlotError::FrameTooTall);
        }
        let height = self.get_graph_height();
        self.data = new_data;
        match self.check_draw() {
            Some(e) => {
                return Err(e);
            },
            None => {},
        }
        self.reset_cursor(height, out);
        self.clear_space(height, out);
        match self.print_static(out) {
            Ok(()) => {
                proof {
                    assert(final(out)@ =~= old(out)@ + redraw_chars(
                        frame_height(old(self)@),
                        final(self)@,
                    ));
                }
                Ok(())
            },
            Err(e) => {
                proof {
                    assert(false);
                }
                Err(e)
            },
        }
    }

    /// Replaces the held dataset with a single row and redraws in place, as
    /// `refresh_2d_data` does.
    pub fn refresh_1d_data(&mut self, new_data: Vec<u32>, out: &mut String) -> (r: Result<
        (),
        PlotError,
    >)
        requires
            wf(old(self)@),
        ensures
            final(self)@ == (PlotView { data: seq![new_data@], ..old(self)@ }),
            wf(final(self)@),
            match r {
                Ok(()) => redraw_error(old(self)@, final(self)@) is None && final(out)@ == old(
                    out,
                )@ + redraw_chars(frame_height(old(self)@), final(self)@),
                Err(e) => redraw_error(old(self)@, final(self)@) == Some(e) && final(out)@ == old(
                    out,
                )@,
            },
    {
        let mut wrapped: Vec<Vec<u32>> = Vec::new();
        wrapped.push(new_data);
        proof {
            assert(new_data.deep_view() =~= new_data@);
            assert(wrapped.deep_view() =~= seq![new_data@]);
        }
        self.refresh_2d_data(wrapped, out)
    }
}

/// The abstract state of a configuration chain: what the builder has
/// accumulated so far.
pub ghost struct BuilderView {
    pub data: Seq<Seq<u32>>,
    pub labels: Seq<Seq<char>>,
    pub col_labels: Seq<Seq<char>>,
    pub show_col_labels: bool,
    pub show_legend: bool,
    pub palette: Seq<Color>,
    pub width: nat,
    pub val_cap: Option<u32>,
}

/// The canvas width the builder defaults to: the terminal's column count
/// minus a fixed 5-column margin (room for borders and scrollbars), or a
/// conventional 80-column canvas where no terminal can be queried.
pub open spec fn default_width(columns: Option<u16>) -> nat {
    match columns {
        Some(c) => if c >= 5 {
            (c - 5) as nat
        } else {
            0 as nat
        },
        None => 80,
    }
}

/// A requested width held down to the terminal's current column count; an
/// unavailable column count leaves the request as it is.
pub open spec fn clamped_width(requested: nat, columns: Option<u16>) -> nat {
    match columns {
        Some(c) => if requested > c as nat {
            c as nat
        } else {
            requested
        },
        None => requested,
    }
}

/// Computes the default canvas width for a reported terminal column count.
pub fn resolve_default_width(columns: Option<u16>) -> (r: usize)
    ensures
        r as nat == default_width(columns),
{
    match columns {
        Some(c) => if c >= 5 {
            (c - 5) as usize
        } else {
            0
        },
        None => 80,
    }
}

/// Clamps a requested canvas width to a reported terminal column count.
pub fn clamp_requested_width(requested: usize, columns: Option<u16>) -> (r: usize)
    ensures
        r as nat == clamped_width(requested as nat, columns),
{
    match columns {
        Some(c) => if requested > c as usize {
            c as usize
        } else {
            requested
        },
        None => requested,
    }
}

/// The configuration builder: accumulates the dataset, labels, visibility
/// flags, palette, canvas width and optional value cap through a fluent
/// chain, and finalizes them into a `StaticPlot`.
pub struct GraphBuilder {
    data: Vec<Vec<u32>>,
    labels: Vec<String>,
    col_labels: Vec<String>,
    show_col_labels: bool,
    show_legend: bool,
    color_palette: Vec<Color>,
    width: usize,
    val_cap: Option<u32>,
}

impl View for GraphBuilder {
    type V = BuilderView;

    closed spec fn view(&self) -> BuilderView {
        BuilderView {
            data: self.data.deep_view(),
            labels: self.labels.deep_view(),
            col_labels: self.col_labels.deep_view(),
            show_col_labels: self.show_col_labels,
            show_legend: self.show_legend,
            palette: self.color_palette@,
            width: self.width as nat,
            val_cap: self.val_cap,
        }
    }
}

impl GraphBuilder {
    /// Creates a builder with everything empty or off and the default width:
    /// the terminal's current column count minus a 5-column margin.
    pub fn new() -> (r: GraphBuilder)
        ensures
            r@.data == Seq::<Seq<u32>>::empty(),
            r@.labels == Seq::<Seq<char>>::empty(),
            r@.col_labels == Seq::<Seq<char>>::empty(),
            !r@.show_col_labels,
            !r@.show_legend,
            r@.palette == Seq::<Color>::empty(),
            r@.val_cap is None,
            r@.width <= 65535,
            exists|columns: Option<u16>| r@.width == default_width(columns),
    {
        let columns = terminal_columns();
        let width = resolve_default_width(columns);
        let builder = GraphBuilder {
            data: Vec::new(),
            labels: Vec::new(),
            col_labels: Vec::new(),
            show_col_labels: false,
            show_legend: false,
            color_palette: Vec::new(),
            width,
            val_cap: None,
        };
        proof {
            assert(builder@.data =~= Seq::<Seq<u32>>::empty());
            assert(builder@.labels =~= Seq::<Seq<char>>::empty());
            assert(builder@.col_labels =~= Seq::<Seq<char>>::empty());
        }
        builder
    }

    /// Installs the palette the given color names configure: recognized names
    /// in order, unrecognized names silently dropped.
    pub fn set_colors(self, colors: &Vec<String>) -> (r: Self)
        ensures
            r@ == (BuilderView { palette: palette_of_names(colors.deep_view()), ..self@ }),
    {
        let color_palette = palette_from_names(colors);
        GraphBuilder { color_palette, ..self }
    }

    /// Installs an explicit scaling ceiling for bar lengths.
    pub fn set_max_val(self, val: u32) -> (r: Self)
        ensures
            r@ == (BuilderView { val_cap: Some(val), ..self@ }),
    {
        GraphBuilder { val_cap: Some(val), ..self }
    }

    /// Sets the visibility of the legend line.
    pub fn view_legend(self, visible: bool) -> (r: Self)
        ensures
            r@ == (BuilderView { show_legend: visible, ..self@ }),
    {
        GraphBuilder { show_legend: visible, ..self }
    }

    /// Sets the visibility of the per-bar column labels.
    pub fn view_col_labels(self, visible: bool) -> (r: Self)
        ensures
            r@ == (BuilderView { show_col_labels: visible, ..self@ }),
    {
        GraphBuilder { show_col_labels: visible, ..self }
    }

    /// Overrides the canvas width; the request is held down to the terminal's
    /// current column count.
    pub fn set_width(self, width: usize) -> (r: Self)
        ensures
            r@ == (BuilderView { width: r@.width, ..self@ }),
            r@.width <= width,
            exists|columns: Option<u16>| r@.width == clamped_width(width as nat, columns),
    {
        let columns = terminal_columns();
        let clamped_w = clamp_requested_width(width, columns);
        let updated = GraphBuilder { width: clamped_w, ..self };
        proof {
            assert(updated@.width == clamped_width(width as nat, columns));
        }
        updated
    }

    /// Loads the dataset from a two-dimensional vector: one inner vector per
    /// row.
    pub fn load_2d_vec(self, vec: Vec<Vec<u32>>) -> (r: Self)
        ensures
            r@ == (BuilderView { data: vec.deep_view(), ..self@ }),
    {
        GraphBuilder { data: vec, ..self }
    }

    /// Loads the row labels.
    pub fn load_labels(self, labels: Vec<String>) -> (r: Self)
        ensures
            r@ == (BuilderView { labels: labels.deep_view(), ..self@ }),
    {
        GraphBuilder { labels, ..self }
    }

    /// Loads the column labels.
    pub fn load_col_labels(self, col_labels: Vec<String>) -> (r: Self)
        ensures
            r@ == (BuilderView { col_labels: col_labels.deep_view(), ..self@ }),
    {
        GraphBuilder { col_labels, ..self }
    }

    /// Loads the dataset from a one-dimensional vector, as a single row.
    pub fn load_1d_array(self, array: Vec<u32>) -> (r: Self)
        ensures
            r@ == (BuilderView { data: seq![array@], ..self@ }),
    {
        let mut wrapped: Vec<Vec<u32>> = Vec::new();
        wrapped.push(array);
        proof {
            assert(wrapped.deep_view()[0] =~= wrapped@[0]@);
            assert(wrapped.deep_view() =~= seq![wrapped@[0]@]);
        }
        GraphBuilder { data: wrapped, ..self }
    }

    /// Finalizes the accumulated parameters into a render engine, fetching
    /// one foreground escape per palette entry (and the one labels use) so
    /// that every later draw is a function of the plot state alone. The width
    /// saturates at the tallest count the cursor protocol addresses.
    pub fn build(self) -> (r: StaticPlot)
        ensures
            r@.data == self@.data,
            r@.labels == self@.labels,
            r@.col_labels == self@.col_labels,
            r@.show_col_labels == self@.show_col_labels,
            r@.show_legend == self@.show_legend,
            r@.palette == self@.palette,
            r@.val_cap == self@.val_cap,
            r@.width == if self@.width > 65535 {
                65535 as nat
            } else {
                self@.width
            },
            wf(r@),
    {
        let mut palette_fg: Vec<String> = Vec::new();
        let mut i: usize = 0;
        while i < self.color_palette.len()
            invariant
                i <= self.color_palette.len(),
                palette_fg.len() == i,
                forall|k: int|
                    0 <= k < i ==> is_fg_token(
                        #[trigger] palette_fg.deep_view()[k],
                        self.color_palette@[k],
                    ),
            decreases self.color_palette.len() - i,
        {
            let ghost before = palette_fg.deep_view();
            let tok = ansi_set_foreground(self.color_palette[i]);
            palette_fg.push(tok);
            proof {
                assert forall|k: int| 0 <= k < i + 1 implies is_fg_token(
                    #[trigger] palette_fg.deep_view()[k],
                    self.color_palette@[k],
                ) by {
                    if k < i {
                        assert(palette_fg.deep_view()[k] == before[k]);
                    } else {
                        assert(palette_fg.deep_view()[k] == tok@);
                    }
                }
            }
            i = i + 1;
        }
        let label_fg = ansi_set_foreground(Color::White);
        let width: u16 = if self.width > 65535 {
            65535
        } else {
            self.width as u16
        };
        let plot = StaticPlot {
            data: self.data,
            labels: self.labels,
            col_labels: self.col_labels,
            width,
            show_col_labels: self.show_col_labels,
            show_legend: self.show_legend,
            color_palette: self.color_palette,
            palette_fg,
            label_fg,
            val_cap: self.val_cap,
        };
        plot
    }
}

} // verus!
