use rusty_bar::graph_builder::GraphBuilder;

fn enable_colors() {
    crossterm::style::Colored::set_ansi_color_disabled(false);
}

fn strings(names: &[&str]) -> Vec<String> {
    names.iter().map(|s| s.to_string()).collect()
}

fn fg(code: u32) -> String {
    format!("\x1b[38;5;{}m", code)
}

fn reset() -> String {
    "\x1b[0m".to_string()
}

fn bar(n: usize) -> String {
    "\u{2584}".repeat(n)
}

/// One bar cell without a column-label prefix.
fn cell(code: u32, drawn: usize, value: u32) -> String {
    format!(
        "\x1b7{}{} {}{}\n\x1b8\x1b[1B",
        fg(code),
        bar(drawn),
        value,
        reset()
    )
}

/// One bar cell with a column-label prefix padded to the widest column label.
fn labeled_cell(label_padded: &str, code: u32, drawn: usize, value: u32) -> String {
    format!(
        "\x1b7{}{}: {}{}{} {}{}\n\x1b8\x1b[1B",
        fg(15),
        label_padded,
        reset(),
        fg(code),
        bar(drawn),
        value,
        reset()
    )
}

fn row_label(label_padded: &str) -> String {
    format!("{}{}: {}", fg(15), label_padded, reset())
}

fn group_end() -> String {
    "\x1b[0E".to_string()
}

fn legend_entry(label: &str, code: u32) -> String {
    format!("{} {}{}    {}", label, fg(code), bar(1), reset())
}

#[test]
fn station_scenario_renders_exactly() {
    enable_colors();
    // Canvas 80, row labels 8 wide, ceiling 250 (3 digits):
    // drawable = 80 - 10 - 3 - 3 = 64, and each value v draws v * 64 / 250.
    let plot = GraphBuilder::new()
        .set_colors(&strings(&["red", "green", "cyan"]))
        .load_2d_vec(vec![vec![100, 250, 170], vec![200, 100, 150]])
        .load_labels(strings(&["Station1", "Station2"]))
        .load_col_labels(strings(&["CPU", "GPU", "MEMORY"]))
        .view_legend(true)
        .set_width(80)
        .build();
    let mut out = String::new();
    assert_eq!(plot.print_static(&mut out), Ok(()));

    let mut expected = String::new();
    expected.push_str(&" ".repeat(10));
    expected.push_str(&legend_entry("CPU", 9));
    expected.push_str(&legend_entry("GPU", 10));
    expected.push_str(&legend_entry("MEMORY", 14));
    expected.push('\n');
    expected.push_str(&row_label("Station1"));
    expected.push_str(&cell(9, 25, 100));
    expected.push_str(&cell(10, 64, 250));
    expected.push_str(&cell(14, 43, 170));
    expected.push_str(&group_end());
    expected.push_str(&row_label("Station2"));
    expected.push_str(&cell(9, 51, 200));
    expected.push_str(&cell(10, 25, 100));
    expected.push_str(&cell(14, 38, 150));
    expected.push_str(&group_end());
    assert_eq!(out, expected);
}

#[test]
fn rendering_twice_is_byte_identical() {
    enable_colors();
    let plot = GraphBuilder::new()
        .set_colors(&strings(&["red", "green", "cyan"]))
        .load_2d_vec(vec![vec![100, 250, 170], vec![200, 100, 150]])
        .load_labels(strings(&["Station1", "Station2"]))
        .view_legend(true)
        .load_col_labels(strings(&["CPU", "GPU", "MEMORY"]))
        .set_width(80)
        .build();
    let mut first = String::new();
    let mut second = String::new();
    assert_eq!(plot.print_static(&mut first), Ok(()));
    assert_eq!(plot.print_static(&mut second), Ok(()));
    assert_eq!(first, second);
}

#[test]
fn capped_value_draws_as_ceiling_with_true_suffix() {
    enable_colors();
    // Canvas 30, no labels, ceiling 200 (3 digits): drawable = 30 - 2 - 3 - 3
    // = 22. The cell 250 exceeds the cap, so it draws as 200 does: a full
    // 22-glyph bar; the suffix still reads 250.
    let capped = GraphBuilder::new()
        .set_colors(&strings(&["red"]))
        .set_max_val(200)
        .load_2d_vec(vec![vec![250]])
        .set_width(30)
        .build();
    let mut out = String::new();
    assert_eq!(capped.print_static(&mut out), Ok(()));
    let mut expected = cell(9, 22, 250);
    expected.push_str(&group_end());
    assert_eq!(out, expected);

    let at_ceiling = GraphBuilder::new()
        .set_colors(&strings(&["red"]))
        .set_max_val(200)
        .load_2d_vec(vec![vec![200]])
        .set_width(30)
        .build();
    let mut ceiling_out = String::new();
    assert_eq!(at_ceiling.print_static(&mut ceiling_out), Ok(()));
    assert_eq!(
        ceiling_out.matches('\u{2584}').count(),
        out.matches('\u{2584}').count()
    );
    assert!(out.contains(" 250"));
    assert!(!out.contains(" 200"));
}

fn drawn_glyphs(value: u32, cap: u32, width: usize) -> usize {
    let plot = GraphBuilder::new()
        .set_colors(&strings(&["white"]))
        .set_max_val(cap)
        .load_2d_vec(vec![vec![value]])
        .set_width(width)
        .build();
    let mut out = String::new();
    assert_eq!(plot.print_static(&mut out), Ok(()));
    out.matches('\u{2584}').count()
}

#[test]
fn bars_fit_the_drawable_width_and_scale_monotonically() {
    enable_colors();
    // Canvas 20, ceiling 1000 (4 digits): drawable = 20 - 2 - 4 - 3 = 11.
    let lengths: Vec<usize> = [0u32, 1, 90, 500, 999, 1000, 4000000]
        .iter()
        .map(|v| drawn_glyphs(*v, 1000, 20))
        .collect();
    assert_eq!(lengths, vec![0, 0, 0, 5, 10, 11, 11]);
    for pair in lengths.windows(2) {
        assert!(pair[0] <= pair[1]);
    }
    for l in lengths {
        assert!(l <= 11);
    }
}

#[test]
fn palette_cycles_over_columns_and_legend() {
    enable_colors();
    // Four columns, two palette entries: colors must go yellow, blue,
    // yellow, blue (codes 11 and 12) in the legend and in the bars.
    // Canvas 40, col labels 2 wide, ceiling 8 (1 digit):
    // drawable = 40 - 2 - 4 - 1 - 3 = 30, no scaling.
    let plot = GraphBuilder::new()
        .set_colors(&strings(&["yellow", "blue"]))
        .load_2d_vec(vec![vec![5, 8, 3, 1]])
        .load_col_labels(strings(&["A", "BB", "C", "D"]))
        .view_col_labels(true)
        .view_legend(true)
        .set_width(40)
        .build();
    let mut out = String::new();
    assert_eq!(plot.print_static(&mut out), Ok(()));

    let mut expected = String::new();
    expected.push_str(&" ".repeat(6));
    expected.push_str(&legend_entry("A", 11));
    expected.push_str(&legend_entry("BB", 12));
    expected.push_str(&legend_entry("C", 11));
    expected.push_str(&legend_entry("D", 12));
    expected.push('\n');
    expected.push_str(&labeled_cell("A ", 11, 5, 5));
    expected.push_str(&labeled_cell("BB", 12, 8, 8));
    expected.push_str(&labeled_cell("C ", 11, 3, 3));
    expected.push_str(&labeled_cell("D ", 12, 1, 1));
    expected.push_str(&group_end());
    assert_eq!(out, expected);
}

#[test]
fn shrinking_redraw_blanks_the_previous_region() {
    enable_colors();
    // Two 1-column rows make a frame 3 lines tall; the redraw must step back
    // 3 lines, blank all 3 to the canvas width, step back again, and draw the
    // single remaining row.
    let mut plot = GraphBuilder::new()
        .set_colors(&strings(&["red"]))
        .load_2d_vec(vec![vec![4], vec![6]])
        .set_width(20)
        .build();
    let mut first = String::new();
    assert_eq!(plot.print_static(&mut first), Ok(()));

    let mut out = String::new();
    assert_eq!(plot.refresh_2d_data(vec![vec![2]], &mut out), Ok(()));

    let mut expected = String::new();
    expected.push_str("\x1b[3F");
    for _ in 0..3 {
        expected.push_str(&" ".repeat(20));
        expected.push('\n');
    }
    expected.push_str("\x1b[3F");
    // Ceiling 2 (1 digit): drawable = 20 - 2 - 1 - 3 = 14, no scaling.
    expected.push_str(&cell(9, 2, 2));
    expected.push_str(&group_end());
    assert_eq!(out, expected);
}

#[test]
fn one_dimensional_refresh_wraps_a_single_row() {
    enable_colors();
    let mut plot = GraphBuilder::new()
        .set_colors(&strings(&["green"]))
        .load_1d_array(vec![1, 2])
        .set_width(20)
        .build();
    let mut first = String::new();
    assert_eq!(plot.print_static(&mut first), Ok(()));

    let mut out = String::new();
    assert_eq!(plot.refresh_1d_data(vec![3, 4], &mut out), Ok(()));

    let mut expected = String::new();
    expected.push_str("\x1b[3F");
    for _ in 0..3 {
        expected.push_str(&" ".repeat(20));
        expected.push('\n');
    }
    expected.push_str("\x1b[3F");
    // Ceiling 4 (1 digit): drawable = 20 - 2 - 1 - 3 = 14, no scaling.
    expected.push_str(&cell(10, 3, 3));
    expected.push_str(&cell(10, 4, 4));
    expected.push_str(&group_end());
    assert_eq!(out, expected);
}

#[test]
fn disabled_colors_degenerate_to_a_bare_escape() {
    // With ANSI colors disabled, a foreground change writes only CSI `m`; the
    // escapes are cached at build time, so re-enabling colors afterwards does
    // not change what this plot draws.
    crossterm::style::Colored::set_ansi_color_disabled(true);
    let plot = GraphBuilder::new()
        .set_colors(&strings(&["red"]))
        .load_2d_vec(vec![vec![1]])
        .set_width(20)
        .build();
    crossterm::style::Colored::set_ansi_color_disabled(false);
    let mut out = String::new();
    assert_eq!(plot.print_static(&mut out), Ok(()));
    // Ceiling 1 (1 digit): drawable = 20 - 2 - 1 - 3 = 14, no scaling.
    let mut expected = String::new();
    expected.push_str("\x1b7\x1b[m");
    expected.push_str(&bar(1));
    expected.push_str(" 1");
    expected.push_str(&reset());
    expected.push_str("\n\x1b8\x1b[1B");
    expected.push_str(&group_end());
    assert_eq!(out, expected);
}

#[test]
fn legend_lists_every_column_label() {
    enable_colors();
    // More column labels than data columns: the legend still lists them all,
    // cycling the palette; the single bar uses the first color.
    let plot = GraphBuilder::new()
        .set_colors(&strings(&["magenta"]))
        .load_2d_vec(vec![vec![3]])
        .load_col_labels(strings(&["X", "Y"]))
        .view_legend(true)
        .set_width(20)
        .build();
    let mut out = String::new();
    assert_eq!(plot.print_static(&mut out), Ok(()));
    let mut expected = String::new();
    expected.push_str(&" ".repeat(2));
    expected.push_str(&legend_entry("X", 13));
    expected.push_str(&legend_entry("Y", 13));
    expected.push('\n');
    // Ceiling 3 (1 digit): drawable = 20 - 2 - 1 - 3 = 14, no scaling.
    expected.push_str(&cell(13, 3, 3));
    expected.push_str(&group_end());
    assert_eq!(out, expected);
}

#[test]
fn labels_pad_to_the_widest_label() {
    enable_colors();
    // Labels "A" and "BBB": both prefixes pad to 3 characters.
    let plot = GraphBuilder::new()
        .set_colors(&strings(&["cyan"]))
        .load_2d_vec(vec![vec![1], vec![2]])
        .load_labels(strings(&["A", "BBB"]))
        .set_width(20)
        .build();
    let mut out = String::new();
    assert_eq!(plot.print_static(&mut out), Ok(()));

    let mut expected = String::new();
    // Ceiling 2 (1 digit): drawable = 20 - 5 - 1 - 3 = 11, no scaling.
    expected.push_str(&row_label("A  "));
    expected.push_str(&cell(14, 1, 1));
    expected.push_str(&group_end());
    expected.push_str(&row_label("BBB"));
    expected.push_str(&cell(14, 2, 2));
    expected.push_str(&group_end());
    assert_eq!(out, expected);
}

#[test]
fn missing_row_labels_render_unprefixed() {
    enable_colors();
    // One label for two rows: the second row starts directly with its bar.
    let plot = GraphBuilder::new()
        .set_colors(&strings(&["red"]))
        .load_2d_vec(vec![vec![1], vec![2]])
        .load_labels(strings(&["Only"]))
        .set_width(20)
        .build();
    let mut out = String::new();
    assert_eq!(plot.print_static(&mut out), Ok(()));

    let mut expected = String::new();
    // Ceiling 2 (1 digit): drawable = 20 - 6 - 1 - 3 = 10, no scaling.
    expected.push_str(&row_label("Only"));
    expected.push_str(&cell(9, 1, 1));
    expected.push_str(&group_end());
    expected.push_str(&cell(9, 2, 2));
    expected.push_str(&group_end());
    assert_eq!(out, expected);
}
