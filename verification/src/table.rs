//! The text of the table of hosts: the heading and the cells of a row. What is
//! written here has no colour yet; each piece of a row says in which tone it is
//! to be shown.

use crate::host::{millis, time_view, to_sec, HostInfo, HostStats, LossLevel};
use vstd::prelude::*;
use vstd::string::{StrSliceExecFns, StringExecFns};

verus! {

/// `count` spaces; none where `count` is not positive.
pub open spec fn spaces(count: int) -> Seq<char> {
    Seq::new(
        if count > 0 {
            count as nat
        } else {
            0
        },
        |i: int| ' ',
    )
}

/// `text`, with spaces behind it where it has fewer than `width` characters.
pub open spec fn padded_end(text: Seq<char>, width: int) -> Seq<char> {
    text + spaces(width - text.len())
}

/// `text`, with spaces before it where it has fewer than `width` characters.
pub open spec fn padded_start(text: Seq<char>, width: int) -> Seq<char> {
    spaces(width - text.len()) + text
}

/// The character of the digit `d`.
pub open spec fn digit(d: int) -> char
    recommends
        0 <= d < 10,
{
    if d == 0 {
        '0'
    } else if d == 1 {
        '1'
    } else if d == 2 {
        '2'
    } else if d == 3 {
        '3'
    } else if d == 4 {
        '4'
    } else if d == 5 {
        '5'
    } else if d == 6 {
        '6'
    } else if d == 7 {
        '7'
    } else if d == 8 {
        '8'
    } else {
        '9'
    }
}

/// The decimal digits of `n`, the most significant first.
pub open spec fn decimal(n: nat) -> Seq<char>
    decreases n,
{
    if n < 10 {
        seq![digit(n as int)]
    } else {
        decimal(n / 10).push(digit((n % 10) as int))
    }
}

/// Appends `count` spaces to `line`.
fn push_spaces(line: &mut String, count: usize)
    ensures
        final(line)@ == old(line)@ + spaces(count as int),
{
    let mut done: usize = 0;
    while done < count
        invariant
            done <= count,
            line@ == old(line)@ + spaces(done as int),
        decreases count - done,
    {
        proof {
            reveal_strlit(" ");
        }
        line.append(" ");
        assert(line@ =~= old(line)@ + spaces(done + 1));
        done = done + 1;
    }
    assert(line@ =~= old(line)@ + spaces(count as int));
}

/// Left-aligns `text` in a cell of `width` characters; a longer text is kept
/// whole.
pub fn pad_end(text: &str, width: usize) -> (cell: String)
    ensures
        cell@ == padded_end(text@, width as int),
{
    let mut cell = String::from_str(text);
    let len: usize = text.unicode_len();
    if len < width {
        push_spaces(&mut cell, width - len);
    }
    assert(cell@ =~= padded_end(text@, width as int));
    cell
}

/// Right-aligns `text` in a cell of `width` characters; a longer text is kept
/// whole.
pub fn pad_start(text: &str, width: usize) -> (cell: String)
    ensures
        cell@ == padded_start(text@, width as int),
{
    let mut cell = String::new();
    let len: usize = text.unicode_len();
    if len < width {
        push_spaces(&mut cell, width - len);
    }
    cell.append(text);
    assert(cell@ =~= padded_start(text@, width as int));
    cell
}

/// The text of one digit.
fn digit_text(d: u64) -> (text: &'static str)
    requires
        d < 10,
    ensures
        text@ == seq![digit(d as int)],
{
    proof {
        reveal_strlit("0");
        reveal_strlit("1");
        reveal_strlit("2");
        reveal_strlit("3");
        reveal_strlit("4");
        reveal_strlit("5");
        reveal_strlit("6");
        reveal_strlit("7");
        reveal_strlit("8");
        reveal_strlit("9");
    }
    let text = match d {
        0 => "0",
        1 => "1",
        2 => "2",
        3 => "3",
        4 => "4",
        5 => "5",
        6 => "6",
        7 => "7",
        8 => "8",
        _ => "9",
    };
    assert(text@ =~= seq![digit(d as int)]);
    text
}

/// Appends the decimal digits of `n` to `line`.
fn push_decimal(line: &mut String, n: u64)
    ensures
        final(line)@ == old(line)@ + decimal(n as nat),
    decreases n,
{
    if n >= 10 {
        push_decimal(line, n / 10);
    }
    line.append(digit_text(n % 10));
    assert(line@ =~= old(line)@ + decimal(n as nat));
}

/// Writes `n` in decimal digits.
pub fn decimal_text(n: u64) -> (text: String)
    ensures
        text@ == decimal(n as nat),
{
    let mut text = String::new();
    push_decimal(&mut text, n);
    assert(text@ =~= decimal(n as nat));
    text
}

// ---------------------------------------------------------------------------
// The heading
// ---------------------------------------------------------------------------

/// What stands between two cells.
pub const SEPARATOR: &'static str = " | ";

/// A heading, left-aligned in a cell of `width` characters and followed by the
/// separator.
pub open spec fn heading_cell(heading: Seq<char>, width: int) -> Seq<char> {
    padded_end(heading, width) + " | "@
}

/// The heading line of the table: the column of the hosts, `host_spaces` wide,
/// and six columns of statistics, each `stat_spaces` wide.
pub open spec fn header_text(host_spaces: int, stat_spaces: int) -> Seq<char> {
    heading_cell("Host"@, host_spaces) + heading_cell("Time"@, stat_spaces) + heading_cell(
        "Minimum"@,
        stat_spaces,
    ) + heading_cell("Average"@, stat_spaces) + heading_cell("Maximum"@, stat_spaces)
        + heading_cell("Jitter"@, stat_spaces) + heading_cell("Loss"@, stat_spaces)
}

/// Appends one heading and the separator to `line`.
fn push_heading(line: &mut String, heading: &str, width: usize)
    ensures
        final(line)@ == old(line)@ + heading_cell(heading@, width as int),
{
    let cell = pad_end(heading, width);
    line.append(cell.as_str());
    line.append(SEPARATOR);
    assert(line@ =~= old(line)@ + heading_cell(heading@, width as int));
}

/// Writes the heading line of the table.
pub fn format_header(host_spaces: usize, stat_spaces: usize) -> (s: String)
    ensures
        s@ == header_text(host_spaces as int, stat_spaces as int),
{
    let mut s = String::new();
    push_heading(&mut s, "Host", host_spaces);
    push_heading(&mut s, "Time", stat_spaces);
    push_heading(&mut s, "Minimum", stat_spaces);
    push_heading(&mut s, "Average", stat_spaces);
    push_heading(&mut s, "Maximum", stat_spaces);
    push_heading(&mut s, "Jitter", stat_spaces);
    push_heading(&mut s, "Loss", stat_spaces);
    assert(s@ =~= header_text(host_spaces as int, stat_spaces as int));
    s
}

// ---------------------------------------------------------------------------
// The cells of a row
// ---------------------------------------------------------------------------

/// How a piece of text is to be shown where colours are in use.
#[derive(Debug, Clone, Copy, PartialEq, Eq, Structural)]
pub enum Tone {
    /// Without colour.
    Plain,
    /// A measured value.
    Value,
    /// All is well.
    Good,
    /// Something is amiss.
    Warning,
    /// An error, or a value that is missing.
    Bad,
}

/// A piece of a row: its text and its tone.
#[derive(Debug, Clone, PartialEq, Eq)]
pub struct Piece {
    pub text: String,
    pub tone: Tone,
}

/// The mathematical content of a [`Piece`].
#[verifier::ext_equal]
pub struct PieceView {
    pub text: Seq<char>,
    pub tone: Tone,
}

impl View for Piece {
    type V = PieceView;

    open spec fn view(&self) -> PieceView {
        PieceView { text: self.text@, tone: self.tone }
    }
}

/// The views of the pieces of a row, in order.
pub open spec fn row_view(row: Seq<Piece>) -> Seq<PieceView> {
    Seq::new(row.len(), |i: int| row[i]@)
}

/// A piece without colour.
pub open spec fn plain(text: Seq<char>) -> PieceView {
    PieceView { text, tone: Tone::Plain }
}

/// The cell of a time in milliseconds: the number, right-aligned, and its unit;
/// a dash where there is no time.
pub open spec fn time_cell(stat_spaces: int, stat: Option<nat>) -> PieceView {
    match stat {
        Some(ms) => PieceView {
            text: padded_start(decimal(ms), stat_spaces - 3) + " ms"@,
            tone: Tone::Value,
        },
        None => PieceView { text: padded_start("- "@, stat_spaces), tone: Tone::Bad },
    }
}

/// The text of the loss cell: the percentage, right-aligned, and its sign; a
/// dash where there is no percentage.
pub open spec fn percent_text(stat_spaces: int, loss: Option<nat>) -> Seq<char> {
    match loss {
        Some(percent) => padded_start(decimal(percent), stat_spaces - 2) + " %"@,
        None => padded_start("- "@, stat_spaces),
    }
}

/// The tone of the loss cell.
pub open spec fn loss_tone(level: LossLevel) -> Tone {
    match level {
        LossLevel::NoData => Tone::Bad,
        LossLevel::Low => Tone::Good,
        LossLevel::Moderate => Tone::Warning,
        LossLevel::High => Tone::Bad,
    }
}

/// Writes the cell of a time in milliseconds.
pub fn format_time_cell(stat_spaces: usize, stat: Option<u64>) -> (cell: Piece)
    requires
        stat_spaces >= 3,
    ensures
        cell@ == time_cell(stat_spaces as int, time_view(stat)),
{
    match stat {
        Some(ms) => {
            let number = decimal_text(ms);
            let mut text = pad_start(number.as_str(), stat_spaces - 3);
            text.append(" ms");
            Piece { text, tone: Tone::Value }
        },
        None => Piece { text: pad_start("- ", stat_spaces), tone: Tone::Bad },
    }
}

/// Writes the text of the loss cell of a host.
pub fn format_percent_cell(stat_spaces: usize, host: &HostInfo) -> (text: String)
    requires
        stat_spaces >= 2,
    ensures
        text@ == percent_text(stat_spaces as int, host@.loss_percent()),
{
    match host.loss_percent() {
        Some(percent) => {
            let number = decimal_text(percent as u64);
            let mut text = pad_start(number.as_str(), stat_spaces - 2);
            text.append(" %");
            text
        },
        None => pad_start("- ", stat_spaces),
    }
}

/// Writes the loss cell of a host, in the tone of its loss.
pub fn format_colour_percent(stat_spaces: usize, host: &HostInfo) -> (cell: Piece)
    requires
        stat_spaces >= 2,
    ensures
        cell@ == (PieceView {
            text: percent_text(stat_spaces as int, host@.loss_percent()),
            tone: loss_tone(host@.loss_level()),
        }),
{
    let text = format_percent_cell(stat_spaces, host);
    let tone = match host.loss_level() {
        LossLevel::NoData => Tone::Bad,
        LossLevel::Low => Tone::Good,
        LossLevel::Moderate => Tone::Warning,
        LossLevel::High => Tone::Bad,
    };
    Piece { text, tone }
}

// ---------------------------------------------------------------------------
// A row
// ---------------------------------------------------------------------------

/// The pieces of the row of a host. The name comes first, left-aligned. A host
/// whose last attempt failed shows the error, in the words `error_words`, and
/// no statistics; any other host shows the latest, least, mean and greatest
/// latency and the jitter, in whole milliseconds, and then the loss.
pub open spec fn host_row(
    host: HostStats,
    error_words: Seq<char>,
    host_spaces: int,
    stat_spaces: int,
) -> Seq<PieceView> {
    let name = seq![plain(padded_end(host.host_str, host_spaces)), plain(" | "@)];
    match host.last_error {
        Some(_) => name + seq![
            plain(spaces(stat_spaces - 5)),
            PieceView { text: "Error"@, tone: Tone::Bad },
            plain(": "@),
            plain(error_words),
        ],
        None => name + seq![
            time_cell(stat_spaces, millis(host.latest_time)),
            plain(" | "@),
            time_cell(stat_spaces, millis(host.min_time)),
            plain(" | "@),
            time_cell(stat_spaces, millis(host.average())),
            plain(" | "@),
            time_cell(stat_spaces, millis(host.max_time)),
            plain(" | "@),
            time_cell(stat_spaces, millis(host.jitter())),
            plain(" | "@),
            PieceView {
                text: percent_text(stat_spaces, host.loss_percent()),
                tone: loss_tone(host.loss_level()),
            },
            plain(" | "@),
        ],
    }
}

/// A piece without colour.
fn plain_piece(text: String) -> (piece: Piece)
    ensures
        piece@ == plain(text@),
{
    Piece { text, tone: Tone::Plain }
}

/// The separator as a piece.
fn separator_piece() -> (piece: Piece)
    ensures
        piece@ == plain(" | "@),
{
    plain_piece(String::from_str(SEPARATOR))
}

/// Writes the pieces of the row of a host. `error_words` says what went wrong
/// at the host's last error; it is not read where there was none.
pub fn format_host_info(
    host: &HostInfo,
    error_words: &str,
    host_spaces: usize,
    stat_spaces: usize,
) -> (row: Vec<Piece>)
    requires
        stat_spaces >= 3,
        host.last_error is Some ==> stat_spaces >= 6,
    ensures
        row_view(row@) == host_row(host@, error_words@, host_spaces as int, stat_spaces as int),
{
    let mut row: Vec<Piece> = Vec::new();
    row.push(plain_piece(pad_end(host.host_str.as_str(), host_spaces)));
    row.push(separator_piece());
    match host.last_error {
        Some(_) => {
            let mut gap = String::new();
            push_spaces(&mut gap, stat_spaces - 5);
            row.push(plain_piece(gap));
            row.push(Piece { text: String::from_str("Error"), tone: Tone::Bad });
            row.push(plain_piece(String::from_str(": ")));
            row.push(plain_piece(String::from_str(error_words)));
        },
        None => {
            row.push(format_time_cell(stat_spaces, to_sec(host.latest_time)));
            row.push(separator_piece());
            row.push(format_time_cell(stat_spaces, to_sec(host.min_time)));
            row.push(separator_piece());
            row.push(format_time_cell(stat_spaces, to_sec(host.average())));
            row.push(separator_piece());
            row.push(format_time_cell(stat_spaces, to_sec(host.max_time)));
            row.push(separator_piece());
            row.push(format_time_cell(stat_spaces, to_sec(host.jitter())));
            row.push(separator_piece());
            row.push(format_colour_percent(stat_spaces, host));
            row.push(separator_piece());
        },
    }
    assert(row_view(row@) =~= host_row(
        host@,
        error_words@,
        host_spaces as int,
        stat_spaces as int,
    ));
    row
}

/// The text of a row without colours: the texts of its pieces, one after
/// another.
pub open spec fn joined(row: Seq<PieceView>) -> Seq<char>
    decreases row.len(),
{
    if row.len() == 0 {
        Seq::empty()
    } else {
        joined(row.drop_last()) + row.last().text
    }
}

/// Writes a row without colours.
pub fn join_pieces(row: &[Piece]) -> (line: String)
    ensures
        line@ == joined(row_view(row@)),
{
    let mut line = String::new();
    let mut i: usize = 0;
    while i < row.len()
        invariant
            i <= row@.len(),
            line@ == joined(row_view(row@).take(i as int)),
        decreases row@.len() - i,
    {
        line.append(row[i].text.as_str());
        assert(row_view(row@).take(i + 1).drop_last() =~= row_view(row@).take(i as int));
        i = i + 1;
    }
    assert(row_view(row@).take(i as int) =~= row_view(row@));
    line
}

} // verus!
