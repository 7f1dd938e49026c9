//! The texts and measures that the screen shows.
//!
//! Nothing here draws. Each function computes one value of the screen from
//! plain values; laying the values out and styling them is left to the
//! program.

use crate::api::Torrent;
use crate::text::str_eq;
use humansize::{format_size, BINARY};
use vstd::prelude::*;

verus! {

/// Least number of columns the screen needs.
pub const MIN_TERMINAL_WIDTH: u16 = 80;

/// Least number of rows the screen needs.
pub const MIN_TERMINAL_HEIGHT: u16 = 24;

/// Columns of a list row that are not the name: the other cells and the
/// blanks between them.
pub const FIXED_COLUMNS: u16 = 74;

/// Least number of columns the name of a torrent gets.
pub const MIN_NAME_WIDTH: usize = 20;

/// The character of a decimal digit.
pub open spec fn digit_char(digit: int) -> char {
    if digit == 0 {
        '0'
    } else if digit == 1 {
        '1'
    } else if digit == 2 {
        '2'
    } else if digit == 3 {
        '3'
    } else if digit == 4 {
        '4'
    } else if digit == 5 {
        '5'
    } else if digit == 6 {
        '6'
    } else if digit == 7 {
        '7'
    } else if digit == 8 {
        '8'
    } else {
        '9'
    }
}

/// A natural number written in decimal digits, without leading zeros.
pub open spec fn decimal_text(n: nat) -> Seq<char>
    decreases n,
{
    if n < 10 {
        seq![digit_char(n as int)]
    } else {
        decimal_text(n / 10).push(digit_char((n % 10) as int))
    }
}

/// The text that `humansize::format_size` gives for a number of bytes with
/// the `BINARY` options: the number scaled down by powers of 1024 and the
/// unit of that scale.
pub uninterp spec fn binary_size_text(bytes: u64) -> Seq<char>;

/// Writes a number of bytes for a reader.
///
/// Calls `format_size` of `humansize` with its `BINARY` options.
#[verifier::external_body]
pub(crate) fn format_bytes(bytes: u64) -> (text: String)
    ensures
        text@ == binary_size_text(bytes),
{
    format_size(bytes, BINARY)
}

/// The colour class of a state label.
#[derive(Debug, Clone, Copy, PartialEq, Eq, Structural)]
pub enum StateColor {
    Green,
    Blue,
    Yellow,
    Red,
    Cyan,
    White,
}

/// The colour class that a state label is shown in.
pub open spec fn state_color_of(label: Seq<char>) -> StateColor {
    if label == "downloading"@ {
        StateColor::Green
    } else if label == "uploading"@ || label == "stalledUP"@ {
        StateColor::Blue
    } else if label == "pausedDL"@ || label == "pausedUP"@ {
        StateColor::Yellow
    } else if label == "error"@ {
        StateColor::Red
    } else if label == "queuedDL"@ || label == "queuedUP"@ {
        StateColor::Cyan
    } else {
        StateColor::White
    }
}

/// The state labels of a torrent that still downloads, for which a time
/// remaining is shown.
pub open spec fn awaits_data(label: Seq<char>) -> bool {
    label == "downloading"@ || label == "stalledDL"@ || label == "queuedDL"@
}

/// A number of seconds as a reader wants it: in seconds below a minute, in
/// minutes below an hour, in hours and minutes below a day, in days and
/// hours from there on. No estimate, or a negative one, is shown as endless.
pub open spec fn duration_text(eta: Option<i64>) -> Seq<char> {
    match eta {
        None => "∞"@,
        Some(seconds) => if seconds < 0 {
            "∞"@
        } else if seconds < 60 {
            decimal_text(seconds as nat) + "s"@
        } else if seconds < 3600 {
            decimal_text((seconds / 60) as nat) + "m"@
        } else if seconds < 86400 {
            decimal_text((seconds / 3600) as nat) + "h"@ + decimal_text(
                ((seconds % 3600) / 60) as nat,
            ) + "m"@
        } else {
            decimal_text((seconds / 86400) as nat) + "d"@ + decimal_text(
                ((seconds % 86400) / 3600) as nat,
            ) + "h"@
        },
    }
}

/// The time remaining that is shown for a torrent in the given state.
pub open spec fn eta_text(label: Seq<char>, eta: Option<i64>) -> Seq<char> {
    if awaits_data(label) {
        duration_text(eta)
    } else {
        "-"@
    }
}

/// A transfer rate as shown: nothing for a rate that is not positive.
pub open spec fn rate_text(rate: i64) -> Seq<char> {
    if rate > 0 {
        binary_size_text(rate as u64) + "/s"@
    } else {
        Seq::<char>::empty()
    }
}

/// Columns that the name of a torrent gets in a list of this width.
pub open spec fn name_width_of(width: u16) -> usize {
    if width > FIXED_COLUMNS + MIN_NAME_WIDTH {
        (width - FIXED_COLUMNS) as usize
    } else {
        MIN_NAME_WIDTH
    }
}

/// A name cut to fit `width` characters: a longer name keeps its first
/// `width - 3` characters and ends in three dots.
pub open spec fn shortened(name: Seq<char>, width: int) -> Seq<char> {
    if name.len() > width {
        name.subrange(
            0,
            if width > 3 {
                width - 3
            } else {
                0
            },
        ) + "..."@
    } else {
        name
    }
}

/// The note on which rows of a list are shown: nothing while all rows fit,
/// else the first and the last row shown, counted from 1, and the length.
pub open spec fn scroll_text(offset: usize, rows: usize, len: usize) -> Seq<char> {
    if len > rows {
        " ["@ + decimal_text((offset + 1) as nat) + "-"@ + decimal_text(
            if offset + rows < len {
                (offset + rows) as nat
            } else {
                len as nat
            },
        ) + "/"@ + decimal_text(len as nat) + "]"@
    } else {
        Seq::<char>::empty()
    }
}

/// A share of `size` in percent, kept between `least` and `most`.
pub open spec fn popup_extent_of(size: u16, percent: u16, least: u16, most: u16) -> int {
    let share = size * percent / 100;
    if share < least {
        least as int
    } else if share > most {
        most as int
    } else {
        share
    }
}

/// The cells of one list row, not yet padded or styled.
#[derive(Debug)]
pub struct TorrentRow {
    pub name: String,
    pub progress: String,
    pub size: String,
    pub down: String,
    pub up: String,
    pub state: String,
    pub state_color: StateColor,
    pub eta: String,
}

/// The character of a decimal digit.
fn digit(value: u8) -> (ch: char)
    requires
        value < 10,
    ensures
        ch == digit_char(value as int),
{
    if value == 0 {
        '0'
    } else if value == 1 {
        '1'
    } else if value == 2 {
        '2'
    } else if value == 3 {
        '3'
    } else if value == 4 {
        '4'
    } else if value == 5 {
        '5'
    } else if value == 6 {
        '6'
    } else if value == 7 {
        '7'
    } else if value == 8 {
        '8'
    } else {
        '9'
    }
}

/// Appends a number in decimal digits to a text.
pub fn push_decimal(text: &mut String, n: u128)
    ensures
        final(text)@ == old(text)@ + decimal_text(n as nat),
    decreases n,
{
    if n >= 10 {
        push_decimal(text, n / 10);
    }
    text.push(digit((n % 10) as u8));
    proof {
        assert(text@ =~= old(text)@ + decimal_text(n as nat));
    }
}

/// A number in decimal digits.
pub fn decimal(n: u128) -> (text: String)
    ensures
        text@ == decimal_text(n as nat),
{
    let mut text = String::new();
    push_decimal(&mut text, n);
    proof {
        assert(text@ =~= decimal_text(n as nat));
    }
    text
}

/// Whether the screen is too small to show the session.
pub fn terminal_too_small(width: u16, height: u16) -> (small: bool)
    ensures
        small == (width < MIN_TERMINAL_WIDTH || height < MIN_TERMINAL_HEIGHT),
{
    width < MIN_TERMINAL_WIDTH || height < MIN_TERMINAL_HEIGHT
}

/// Extent of a popup along one side of the screen: `percent` of `size`,
/// kept between `least` and `most`.
pub fn popup_extent(size: u16, percent: u16, least: u16, most: u16) -> (extent: u16)
    ensures
        extent == popup_extent_of(size, percent, least, most),
        least <= most ==> least <= extent <= most,
{
    assert(size * percent <= 0xffff * 0xffff) by (nonlinear_arith)
        requires
            size <= 0xffff,
            percent <= 0xffff,
    ;
    let share: u64 = size as u64 * percent as u64 / 100;
    if share < least as u64 {
        least
    } else if share > most as u64 {
        most
    } else {
        share as u16
    }
}

/// The colour class of a state label.
pub fn state_color(label: &str) -> (color: StateColor)
    ensures
        color == state_color_of(label@),
{
    if str_eq(label, "downloading") {
        StateColor::Green
    } else if str_eq(label, "uploading") || str_eq(label, "stalledUP") {
        StateColor::Blue
    } else if str_eq(label, "pausedDL") || str_eq(label, "pausedUP") {
        StateColor::Yellow
    } else if str_eq(label, "error") {
        StateColor::Red
    } else if str_eq(label, "queuedDL") || str_eq(label, "queuedUP") {
        StateColor::Cyan
    } else {
        StateColor::White
    }
}

/// A number of seconds as a reader wants it.
pub fn format_duration(eta: Option<i64>) -> (text: String)
    ensures
        text@ == duration_text(eta),
{
    match eta {
        None => "∞".to_owned(),
        Some(seconds) => {
            if seconds < 0 {
                "∞".to_owned()
            } else if seconds < 60 {
                let mut text = decimal(seconds as u128);
                text.append("s");
                text
            } else if seconds < 3600 {
                let mut text = decimal((seconds / 60) as u128);
                text.append("m");
                text
            } else if seconds < 86400 {
                let mut text = decimal((seconds / 3600) as u128);
                text.append("h");
                push_decimal(&mut text, ((seconds % 3600) / 60) as u128);
                text.append("m");
                text
            } else {
                let mut text = decimal((seconds / 86400) as u128);
                text.append("d");
                push_decimal(&mut text, ((seconds % 86400) / 3600) as u128);
                text.append("h");
                text
            }
        },
    }
}

/// The time remaining that is shown for a torrent in the given state.
pub fn format_eta(label: &str, eta: Option<i64>) -> (text: String)
    ensures
        text@ == eta_text(label@, eta),
{
    if str_eq(label, "downloading") || str_eq(label, "stalledDL") || str_eq(label, "queuedDL") {
        format_duration(eta)
    } else {
        "-".to_owned()
    }
}

/// A size in bytes as shown. The size is read as an unsigned number.
pub fn size_text(size: i64) -> (text: String)
    ensures
        text@ == binary_size_text(size as u64),
{
    format_bytes(#[verifier::truncate] (size as u64))
}

/// A transfer rate as shown: nothing for a rate that is not positive.
pub fn speed_text(rate: i64) -> (text: String)
    ensures
        text@ == rate_text(rate),
{
    if rate > 0 {
        let mut text = format_bytes(rate as u64);
        text.append("/s");
        text
    } else {
        String::new()
    }
}

/// Completion in percent, as shown.
pub fn progress_text(progress: u8) -> (text: String)
    ensures
        text@ == decimal_text(progress as nat) + "%"@,
{
    let mut text = decimal(progress as u128);
    text.append("%");
    text
}

/// Columns that the name of a torrent gets in a list of this width.
pub fn name_width(width: u16) -> (columns: usize)
    ensures
        columns == name_width_of(width),
        columns >= MIN_NAME_WIDTH,
{
    if width > FIXED_COLUMNS + MIN_NAME_WIDTH as u16 {
        (width - FIXED_COLUMNS) as usize
    } else {
        MIN_NAME_WIDTH
    }
}

/// A name cut to fit `width` characters.
pub fn display_name(name: &str, width: usize) -> (shown: String)
    ensures
        shown@ == shortened(name@, width as int),
{
    let len = name.unicode_len();
    if len > width {
        let keep = if width > 3 {
            width - 3
        } else {
            0
        };
        name.substring_char(0, keep).to_owned().concat("...")
    } else {
        name.to_owned()
    }
}

/// The note on which rows of a list are shown.
pub fn scroll_info(offset: usize, rows: usize, len: usize) -> (text: String)
    ensures
        text@ == scroll_text(offset, rows, len),
{
    if len > rows {
        let last: u128 = if offset as u128 + (rows as u128) < len as u128 {
            offset as u128 + rows as u128
        } else {
            len as u128
        };
        let mut text = " [".to_owned();
        push_decimal(&mut text, offset as u128 + 1);
        text.append("-");
        push_decimal(&mut text, last);
        text.append("/");
        push_decimal(&mut text, len as u128);
        text.append("]");
        text
    } else {
        String::new()
    }
}

/// The cells of the list row of a torrent, with the name cut to `width`
/// characters.
pub fn torrent_row(torrent: &Torrent, width: usize) -> (row: TorrentRow)
    ensures
        row.name@ == shortened(torrent.name@, width as int),
        row.progress@ == decimal_text(torrent.progress as nat) + "%"@,
        row.size@ == binary_size_text(torrent.size as u64),
        row.down@ == rate_text(torrent.dlspeed),
        row.up@ == rate_text(torrent.upspeed),
        row.state == torrent.state,
        row.state_color == state_color_of(torrent.state@),
        row.eta@ == eta_text(torrent.state@, torrent.eta),
{
    TorrentRow {
        name: display_name(torrent.name.as_str(), width),
        progress: progress_text(torrent.progress),
        size: size_text(torrent.size),
        down: speed_text(torrent.dlspeed),
        up: speed_text(torrent.upspeed),
        state: torrent.state.clone(),
        state_color: state_color(torrent.state.as_str()),
        eta: format_eta(torrent.state.as_str(), torrent.eta),
    }
}

} // verus!
