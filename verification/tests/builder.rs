use rusty_bar::color::{color_from_name, palette_from_names, Color};
use rusty_bar::frame::PlotError;
use rusty_bar::graph_builder::{clamp_requested_width, resolve_default_width, GraphBuilder};
use rusty_bar::text::{count_digits, u32_decimal};

fn strings(names: &[&str]) -> Vec<String> {
    names.iter().map(|s| s.to_string()).collect()
}

#[test]
fn recognized_color_names_resolve() {
    assert_eq!(color_from_name(&"red".to_string()), Some(Color::Red));
    assert_eq!(color_from_name(&"green".to_string()), Some(Color::Green));
    assert_eq!(color_from_name(&"yellow".to_string()), Some(Color::Yellow));
    assert_eq!(color_from_name(&"blue".to_string()), Some(Color::Blue));
    assert_eq!(color_from_name(&"magenta".to_string()), Some(Color::Magenta));
    assert_eq!(color_from_name(&"cyan".to_string()), Some(Color::Cyan));
    assert_eq!(color_from_name(&"white".to_string()), Some(Color::White));
}

#[test]
fn unrecognized_color_names_are_dropped() {
    assert_eq!(color_from_name(&"RED".to_string()), None);
    assert_eq!(color_from_name(&"sparkly".to_string()), None);
    assert_eq!(color_from_name(&"".to_string()), None);
    let palette = palette_from_names(&strings(&["red", "sparkly", "cyan", ""]));
    assert_eq!(palette, vec![Color::Red, Color::Cyan]);
}

#[test]
fn default_width_subtracts_margin() {
    assert_eq!(resolve_default_width(Some(80)), 75);
    assert_eq!(resolve_default_width(Some(5)), 0);
    assert_eq!(resolve_default_width(Some(3)), 0);
    assert_eq!(resolve_default_width(None), 80);
}

#[test]
fn requested_width_is_clamped_to_terminal() {
    assert_eq!(clamp_requested_width(100, Some(80)), 80);
    assert_eq!(clamp_requested_width(50, Some(80)), 50);
    assert_eq!(clamp_requested_width(50, None), 50);
}

#[test]
fn decimal_rendering_is_exact() {
    assert_eq!(u32_decimal(0), "0");
    assert_eq!(u32_decimal(7), "7");
    assert_eq!(u32_decimal(10), "10");
    assert_eq!(u32_decimal(250), "250");
    assert_eq!(u32_decimal(4294967295), "4294967295");
}

#[test]
fn digit_counts_are_exact() {
    assert_eq!(count_digits(0), 1);
    assert_eq!(count_digits(9), 1);
    assert_eq!(count_digits(10), 2);
    assert_eq!(count_digits(999), 3);
    assert_eq!(count_digits(1000), 4);
    assert_eq!(count_digits(4294967295), 10);
}

#[test]
fn empty_dataset_is_refused() {
    let plot = GraphBuilder::new().set_colors(&strings(&["red"])).build();
    let mut out = String::new();
    assert_eq!(plot.print_static(&mut out), Err(PlotError::EmptyDataset));
    assert_eq!(out, "");
}

#[test]
fn jagged_rows_are_refused() {
    let plot = GraphBuilder::new()
        .set_colors(&strings(&["red"]))
        .load_2d_vec(vec![vec![1, 2], vec![3]])
        .build();
    let mut out = String::new();
    assert_eq!(plot.print_static(&mut out), Err(PlotError::JaggedRows));
    assert_eq!(out, "");
}

#[test]
fn empty_palette_is_refused_at_draw_time() {
    let plot = GraphBuilder::new().load_2d_vec(vec![vec![1, 2]]).build();
    let mut out = String::new();
    assert_eq!(plot.print_static(&mut out), Err(PlotError::EmptyPalette));
    assert_eq!(out, "");
}

#[test]
fn missing_column_labels_are_refused() {
    let plot = GraphBuilder::new()
        .set_colors(&strings(&["red"]))
        .load_2d_vec(vec![vec![1, 2, 3]])
        .load_col_labels(strings(&["A", "B"]))
        .view_col_labels(true)
        .build();
    let mut out = String::new();
    assert_eq!(plot.print_static(&mut out), Err(PlotError::MissingColumnLabels));
    assert_eq!(out, "");
}

#[test]
fn insufficient_width_is_refused() {
    let plot = GraphBuilder::new()
        .set_colors(&strings(&["red"]))
        .load_2d_vec(vec![vec![1]])
        .set_width(5)
        .build();
    let mut out = String::new();
    assert_eq!(plot.print_static(&mut out), Err(PlotError::InsufficientWidth));
    assert_eq!(out, "");
}

#[test]
fn oversized_previous_frame_refuses_redraw() {
    let mut plot = GraphBuilder::new()
        .set_colors(&strings(&["red"]))
        .load_2d_vec(vec![vec![0; 256]; 257])
        .build();
    let mut out = String::new();
    assert_eq!(
        plot.refresh_2d_data(vec![vec![1]], &mut out),
        Err(PlotError::FrameTooTall)
    );
    assert_eq!(out, "");
}

#[test]
fn redraw_on_empty_previous_dataset_is_refused() {
    let mut plot = GraphBuilder::new().set_colors(&strings(&["red"])).build();
    let mut out = String::new();
    assert_eq!(
        plot.refresh_2d_data(vec![vec![1]], &mut out),
        Err(PlotError::EmptyDataset)
    );
    assert_eq!(out, "");
}
