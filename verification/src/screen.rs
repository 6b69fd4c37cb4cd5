//! What the screen shows of a session: the rows of the two lists, the status
//! line, the help overlay and where it goes. Drawing them is the caller's work.

use crate::tools::base::texts;
use crate::ui::{App, AppView, EntryView};
use vstd::prelude::*;
use vstd::string::StringExecFns;
use vstd::utf8::encode_utf8;

verus! {

/// The rows of the tool list: each tool's name, and whether the row is the
/// selected one.
pub open spec fn tool_rows_of(state: AppView) -> Seq<(Seq<char>, bool)> {
    Seq::new(state.tools.len(), |i: int| (state.tools[i].name, i == state.selected_tool))
}

/// The mathematical values of the rows of the tool list.
pub open spec fn row_views(rows: Seq<(String, bool)>) -> Seq<(Seq<char>, bool)> {
    rows.map_values(|row: (String, bool)| (row.0@, row.1))
}

/// The row of the results list for one log entry: the tool's name in square
/// brackets, a line break, and the output.
pub open spec fn result_row_of(entry: EntryView) -> Seq<char> {
    "["@ + entry.0 + "]\n"@ + entry.1
}

/// The rows of the results list, one for each log entry, in the order of the
/// log.
pub open spec fn result_rows_of(state: AppView) -> Seq<Seq<char>> {
    state.results.map_values(|entry: EntryView| result_row_of(entry))
}

/// The text of the status line: how to hide the help while it is shown, the
/// key hints while it is not.
pub open spec fn status_text_of(show_help: bool) -> Seq<char> {
    if show_help {
        "Press ? to hide help"@
    } else {
        "Press ? for help | ↑/↓: Navigate | r: Run | a: Run All | q: Quit"@
    }
}

/// The lines of the help overlay.
pub open spec fn help_lines() -> Seq<Seq<char>> {
    seq![
        "Key Bindings:"@,
        "  ↑/↓    - Navigate tools"@,
        "  r      - Run selected tool"@,
        "  a      - Run all tools"@,
        "  ?      - Toggle this help menu"@,
        "  q      - Quit"@,
    ]
}

/// The number of bytes that a text takes in UTF-8.
pub open spec fn byte_len(text: Seq<char>) -> nat {
    encode_utf8(text).len()
}

/// The greatest byte length among the first `count` lines; 0 for none.
pub open spec fn longest(lines: Seq<Seq<char>>, count: int) -> nat
    decreases count,
{
    if count <= 0 {
        0
    } else {
        let before = longest(lines, count - 1);
        if byte_len(lines[count - 1]) > before {
            byte_len(lines[count - 1])
        } else {
            before
        }
    }
}

/// The share of the available extent, in percent, that is left on either side
/// of a centred part of the given size: half of what the part does not take,
/// all divisions rounding down.
pub open spec fn margin_percent(size: int, available: int) -> int {
    (100 - size * 100 / available) / 2
}

/// The rows of the tool list.
pub fn tool_rows(app: &App) -> (rows: Vec<(String, bool)>)
    ensures
        row_views(rows@) == tool_rows_of(app@),
{
    let mut rows: Vec<(String, bool)> = Vec::new();
    let mut i: usize = 0;
    while i < app.tools.len()
        invariant
            i <= app.tools.len(),
            rows.len() == i,
            forall|j: int|
                0 <= j < i ==> (#[trigger] rows[j]).0@ == app.tools[j].name@ && rows[j].1 == (j
                    == app.selected_tool),
        decreases app.tools.len() - i,
    {
        rows.push((app.tools[i].name.clone(), i == app.selected_tool));
        i += 1;
    }
    assert(row_views(rows@) =~= tool_rows_of(app@));
    rows
}

/// The rows of the results list.
pub fn result_rows(app: &App) -> (rows: Vec<String>)
    ensures
        texts(rows@) == result_rows_of(app@),
{
    let mut rows: Vec<String> = Vec::new();
    let mut i: usize = 0;
    while i < app.results.len()
        invariant
            i <= app.results.len(),
            rows.len() == i,
            forall|j: int|
                0 <= j < i ==> (#[trigger] rows[j])@ == result_row_of(
                    (app.results[j].0@, app.results[j].1@),
                ),
        decreases app.results.len() - i,
    {
        let entry = &app.results[i];
        let mut row = "[".to_string();
        row.append(entry.0.as_str());
        row.append("]\n");
        row.append(entry.1.as_str());
        rows.push(row);
        i += 1;
    }
    assert(texts(rows@) =~= result_rows_of(app@));
    rows
}

/// The text of the status line.
pub fn status_text(app: &App) -> (text: String)
    ensures
        text@ == status_text_of(app@.show_help),
{
    if app.show_help {
        "Press ? to hide help".to_string()
    } else {
        "Press ? for help | ↑/↓: Navigate | r: Run | a: Run All | q: Quit".to_string()
    }
}

/// The lines of the help overlay.
pub fn help_text() -> (lines: Vec<String>)
    ensures
        texts(lines@) == help_lines(),
{
    let lines = vec![
        "Key Bindings:".to_string(),
        "  ↑/↓    - Navigate tools".to_string(),
        "  r      - Run selected tool".to_string(),
        "  a      - Run all tools".to_string(),
        "  ?      - Toggle this help menu".to_string(),
        "  q      - Quit".to_string(),
    ];
    assert(texts(lines@) =~= help_lines());
    lines
}

/// The width and the height of a bordered box around the given lines: the
/// longest line, in bytes, and two columns on either side; the number of
/// lines and one row above and below.
pub fn box_size(lines: &Vec<String>) -> (size: (u16, u16))
    requires
        lines.len() + 2 <= u16::MAX,
        forall|i: int| 0 <= i < lines.len() ==> byte_len(#[trigger] lines[i]@) + 4 <= u16::MAX,
    ensures
        size.0 == longest(texts(lines@), lines.len() as int) + 4,
        size.1 == lines.len() + 2,
{
    let mut widest: usize = 0;
    let mut i: usize = 0;
    while i < lines.len()
        invariant
            i <= lines.len(),
            widest == longest(texts(lines@), i as int),
            widest + 4 <= u16::MAX,
            forall|j: int| 0 <= j < lines.len() ==> byte_len(#[trigger] lines[j]@) + 4 <= u16::MAX,
        decreases lines.len() - i,
    {
        let length = lines[i].as_str().len();
        assert(texts(lines@)[i as int] == lines[i as int]@);
        if length > widest {
            widest = length;
        }
        i += 1;
    }
    (widest as u16 + 4, lines.len() as u16 + 2)
}

/// The percentage to leave on either side of a part of the given size so that
/// it stands centred in the available extent. The part may not take more than
/// the whole of it, in whole percent.
pub fn centered_margin(size: u16, available: u16) -> (percent: u16)
    requires
        available > 0,
        size * 100 <= u16::MAX,
        size * 100 / (available as int) <= 100,
    ensures
        percent == margin_percent(size as int, available as int),
        percent <= 50,
{
    let taken = size * 100 / available;
    (100 - taken) / 2
}

} // verus!
