//! The terminal-control vocabulary the renderer emits, and the trusted
//! wrappers around crossterm that supply it: the exact escape sequence of each
//! cursor or color command, and the terminal's current column count.
//!
//! Each escape is stated here as a spec function, so the rendered frame is a
//! known character sequence. Setting a foreground color is the one command
//! whose bytes depend on the environment (the NO_COLOR convention): its
//! wrapper promises only that the result is one of the two possible escapes,
//! and the render engine caches the escapes it was handed, which keeps every
//! draw a function of the plot state alone.

use vstd::prelude::*;
use crate::color::Color;
use crate::text::decimal;
use crossterm::Command;

verus! {

/// The control sequence introducer that starts most ANSI escapes.
pub open spec fn csi() -> Seq<char> {
    seq!['\u{1b}', '[']
}

/// The code crossterm writes for each palette color (the `38;5;{code}m` form).
pub open spec fn color_code(c: Color) -> nat {
    match c {
        Color::Red => 9,
        Color::Green => 10,
        Color::Yellow => 11,
        Color::Blue => 12,
        Color::Magenta => 13,
        Color::Cyan => 14,
        Color::White => 15,
    }
}

/// The escape that sets the foreground color, with ANSI colors enabled.
pub open spec fn fg_seq(c: Color) -> Seq<char> {
    csi() + seq!['3', '8', ';', '5', ';'] + decimal(color_code(c)) + seq!['m']
}

/// The escape a foreground change degenerates to when ANSI colors are
/// disabled: the color body is omitted.
pub open spec fn fg_disabled_seq() -> Seq<char> {
    csi() + seq!['m']
}

/// `s` is a foreground escape for `c`: the full form, or the disabled form.
pub open spec fn is_fg_token(s: Seq<char>, c: Color) -> bool {
    s == fg_seq(c) || s == fg_disabled_seq()
}

/// The escape that resets colors to the terminal's defaults.
pub open spec fn reset_seq() -> Seq<char> {
    csi() + seq!['0', 'm']
}

/// The escape that saves the cursor position.
pub open spec fn save_seq() -> Seq<char> {
    seq!['\u{1b}', '7']
}

/// The escape that restores the saved cursor position.
pub open spec fn restore_seq() -> Seq<char> {
    seq!['\u{1b}', '8']
}

/// The escape that moves the cursor `n` rows down.
pub open spec fn move_down_seq(n: nat) -> Seq<char> {
    csi() + decimal(n) + seq!['B']
}

/// The escape that moves the cursor `n` lines up, to the first column.
pub open spec fn prev_line_seq(n: nat) -> Seq<char> {
    csi() + decimal(n) + seq!['F']
}

/// The escape that moves the cursor `n` lines down, to the first column.
pub open spec fn next_line_seq(n: nat) -> Seq<char> {
    csi() + decimal(n) + seq!['E']
}

/// Relies on crossterm::style::SetForegroundColor's `Command::write_ansi`: for
/// these colors it writes CSI `38;5;{code}m`, except that with ANSI colors
/// disabled (the NO_COLOR convention, read once per process) the color body is
/// omitted, leaving CSI `m`.
#[verifier::external_body]
pub(crate) fn ansi_set_foreground(c: Color) -> (r: String)
    ensures
        is_fg_token(r@, c),
{
    let ct = match c {
        Color::Red => crossterm::style::Color::Red,
        Color::Green => crossterm::style::Color::Green,
        Color::Yellow => crossterm::style::Color::Yellow,
        Color::Blue => crossterm::style::Color::Blue,
        Color::Magenta => crossterm::style::Color::Magenta,
        Color::Cyan => crossterm::style::Color::Cyan,
        Color::White => crossterm::style::Color::White,
    };
    let mut s = String::new();
    let _ = crossterm::style::SetForegroundColor(ct).write_ansi(&mut s);
    s
}

/// Relies on crossterm::style::ResetColor's `Command::write_ansi`: it writes
/// CSI `0m`, unconditionally.
#[verifier::external_body]
pub(crate) fn ansi_reset_color() -> (r: String)
    ensures
        r@ == reset_seq(),
{
    let mut s = String::new();
    let _ = crossterm::style::ResetColor.write_ansi(&mut s);
    s
}

/// Relies on crossterm::cursor::SavePosition's `Command::write_ansi`: it
/// writes ESC `7`.
#[verifier::external_body]
pub(crate) fn ansi_save_position() -> (r: String)
    ensures
        r@ == save_seq(),
{
    let mut s = String::new();
    let _ = crossterm::cursor::SavePosition.write_ansi(&mut s);
    s
}

/// Relies on crossterm::cursor::RestorePosition's `Command::write_ansi`: it
/// writes ESC `8`.
#[verifier::external_body]
pub(crate) fn ansi_restore_position() -> (r: String)
    ensures
        r@ == restore_seq(),
{
    let mut s = String::new();
    let _ = crossterm::cursor::RestorePosition.write_ansi(&mut s);
    s
}

/// Relies on crossterm::cursor::MoveDown's `Command::write_ansi`: it writes
/// CSI `{n}B`, with `n` in decimal.
#[verifier::external_body]
pub(crate) fn ansi_move_down(n: u16) -> (r: String)
    ensures
        r@ == move_down_seq(n as nat),
{
    let mut s = String::new();
    let _ = crossterm::cursor::MoveDown(n).write_ansi(&mut s);
    s
}

/// Relies on crossterm::cursor::MoveToPreviousLine's `Command::write_ansi`:
/// it writes CSI `{n}F`, with `n` in decimal.
#[verifier::external_body]
pub(crate) fn ansi_move_to_previous_line(n: u16) -> (r: String)
    ensures
        r@ == prev_line_seq(n as nat),
{
    let mut s = String::new();
    let _ = crossterm::cursor::MoveToPreviousLine(n).write_ansi(&mut s);
    s
}

/// Relies on crossterm::cursor::MoveToNextLine's `Command::write_ansi`: it
/// writes CSI `{n}E`, with `n` in decimal.
#[verifier::external_body]
pub(crate) fn ansi_move_to_next_line(n: u16) -> (r: String)
    ensures
        r@ == next_line_seq(n as nat),
{
    let mut s = String::new();
    let _ = crossterm::cursor::MoveToNextLine(n).write_ansi(&mut s);
    s
}

/// Relies on crossterm::terminal::size: it reports the terminal's current
/// (columns, rows), or fails where no terminal can be queried. The result
/// depends on the environment, so nothing more is promised of it; only the
/// column count is used, at width-resolution time.
#[verifier::external_body]
pub(crate) fn terminal_columns() -> (r: Option<u16>) {
    match crossterm::terminal::size() {
        Ok((columns, _rows)) => Some(columns),
        Err(_) => None,
    }
}

} // verus!
