//! Text tables, drawn by the `ascii_table` crate, and times written by `chrono`.

use vstd::prelude::*;

verus! {

/// How a column lays out its cells.
#[derive(Clone, Copy, Debug, PartialEq, Eq, Structural)]
pub enum CellAlign {
    Left,
    Center,
    Right,
}

/// The text that `ascii_table` draws for a table of at most `max_width` characters whose
/// columns have these headers and alignments, holding these rows of cells.
pub uninterp spec fn drawn_table(
    max_width: nat,
    headers: Seq<Seq<char>>,
    aligns: Seq<CellAlign>,
    rows: Seq<Seq<Seq<char>>>,
) -> Seq<char>;

/// The headers of a table's columns, as texts.
pub open spec fn header_texts(headers: Seq<&str>) -> Seq<Seq<char>> {
    headers.map_values(|h: &str| h@)
}

/// The cells of a table's rows, as texts.
pub open spec fn row_texts(rows: Seq<Vec<String>>) -> Seq<Seq<Seq<char>>> {
    rows.map_values(|r: Vec<String>| r@.map_values(|c: String| c@))
}

/// Draws a table with `ascii_table::AsciiTable`: a default table whose maximum width is
/// set, whose column `i` gets header `headers[i]` and alignment `aligns[i]`, formatted
/// with `AsciiTable::format` over the rows. What the drawing is, is named by
/// `drawn_table`; of it the source plainly shows that a table without rows is the empty
/// frame `format_empty` draws.
#[verifier::external_body]
pub(crate) fn draw_table(
    max_width: usize,
    headers: &Vec<&str>,
    aligns: &Vec<CellAlign>,
    rows: &Vec<Vec<String>>,
) -> (s: String)
    ensures
        s@ == drawn_table(max_width as nat, header_texts(headers@), aligns@, row_texts(rows@)),
        rows@.len() == 0 ==> s@ == "\u{250c}\u{2500}\u{2500}\u{2510}\n\u{2502}  \u{2502}\n\u{2514}\u{2500}\u{2500}\u{2518}\n"@,
{
    let mut table = ascii_table::AsciiTable::default();
    table.set_max_width(max_width);
    for (i, (header, align)) in headers.iter().zip(aligns.iter()).enumerate() {
        let align = match align {
            CellAlign::Left => ascii_table::Align::Left,
            CellAlign::Center => ascii_table::Align::Center,
            CellAlign::Right => ascii_table::Align::Right,
        };
        table.column(i).set_header(*header).set_align(align);
    }
    table.format(rows)
}

/// The earliest second relative to the Unix epoch that `chrono` can place in a calendar:
/// the first second of 1 January of the year -262143.
pub const FIRST_UTC_SECOND: i64 = -8_334_601_228_800;

/// The latest second relative to the Unix epoch that `chrono` can place in a calendar:
/// the last second of 31 December 262142.
pub const LAST_UTC_SECOND: i64 = 8_210_266_876_799;

/// The format pattern the bot writes ticket times with.
pub open spec fn time_pattern() -> Seq<char> {
    "%Y-%m-%d %H:%M:%S UTC"@
}

/// The text that `chrono` writes for the UTC time `secs` seconds from the Unix epoch with
/// the format pattern `pattern`.
pub uninterp spec fn formatted_utc_time(secs: int, pattern: Seq<char>) -> Seq<char>;

/// Writes a UTC time with `chrono`: `DateTime::<Utc>::from_timestamp(secs, 0)`, the same
/// conversion `NaiveDateTime::from_timestamp` makes, formatted with `DateTime::format`.
/// `from_timestamp` refuses (and `NaiveDateTime::from_timestamp` panics on) seconds
/// outside the days `chrono` represents, and formatting fails on a malformed pattern;
/// `requires` admits only calendar seconds and the bot's own pattern.
#[verifier::external_body]
pub(crate) fn utc_time_text(secs: i64, pattern: &str) -> (s: String)
    requires
        FIRST_UTC_SECOND <= secs <= LAST_UTC_SECOND,
        pattern@ == time_pattern(),
    ensures
        s@ == formatted_utc_time(secs as int, pattern@),
{
    match chrono::DateTime::<chrono::Utc>::from_timestamp(secs, 0) {
        Some(time) => time.format(pattern).to_string(),
        None => String::new(),
    }
}

} // verus!
