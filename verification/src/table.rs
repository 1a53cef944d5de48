//! The table that presents the runners: one row per runner, in the order of
//! the sequence, under a fixed set of columns and inside a titled frame.
//!
//! A table is described as plain values. Drawing it is left to whoever owns
//! the terminal.

use vstd::prelude::*;
use crate::model::{detail_views, texts, RunnerDetails, RunnerDetailsView};
use crate::style::{plain_style, row_style, style_for, style_of, Color, Style, UnrecognizedStatus};
use crate::text::{decimal, decimal_string, join, joined};

verus! {

/// Where a title stands on its line.
#[derive(Clone, Copy, Debug, PartialEq, Eq, Structural)]
pub enum Alignment {
    Left,
    Center,
    Right,
}

/// One row of the table.
#[derive(Clone, Debug, PartialEq, Eq)]
pub struct RowDescription {
    /// The text of each cell, in the order of the columns.
    pub cells: Vec<String>,
    /// The style of the whole row.
    pub style: Style,
    /// The status of the row's runner, where it is not a recognized one. Such
    /// a row has the plain style.
    pub unrecognized: Option<UnrecognizedStatus>,
}

/// What a row shows.
#[verifier::ext_equal]
pub struct RowView {
    pub cells: Seq<Seq<char>>,
    pub style: Style,
    pub unrecognized: Option<Seq<char>>,
}

impl View for RowDescription {
    type V = RowView;

    open spec fn view(&self) -> RowView {
        RowView {
            cells: texts(self.cells@),
            style: self.style,
            unrecognized: match self.unrecognized {
                Some(u) => Some(u.status@),
                None => None,
            },
        }
    }
}

/// A table of runners, ready to be drawn.
#[derive(Clone, Debug, PartialEq, Eq)]
pub struct TableDescription {
    /// The title of the frame around the table.
    pub title: String,
    pub title_alignment: Alignment,
    /// Whether the frame is drawn on all four sides.
    pub bordered: bool,
    /// The text of each column's header.
    pub header: Vec<String>,
    pub header_style: Style,
    pub rows: Vec<RowDescription>,
    /// The width of each column, in character cells.
    pub widths: Vec<u16>,
    /// The style of whatever has none of its own.
    pub style: Style,
    /// The style laid over the highlighted row.
    pub highlight_style: Style,
    /// The index of the highlighted row, if one is.
    pub highlighted: Option<usize>,
}

/// What a table shows.
#[verifier::ext_equal]
pub struct TableView {
    pub title: Seq<char>,
    pub title_alignment: Alignment,
    pub bordered: bool,
    pub header: Seq<Seq<char>>,
    pub header_style: Style,
    pub rows: Seq<RowView>,
    pub widths: Seq<u16>,
    pub style: Style,
    pub highlight_style: Style,
    pub highlighted: Option<usize>,
}

impl View for TableDescription {
    type V = TableView;

    open spec fn view(&self) -> TableView {
        TableView {
            title: self.title@,
            title_alignment: self.title_alignment,
            bordered: self.bordered,
            header: texts(self.header@),
            header_style: self.header_style,
            rows: self.rows@.map_values(|r: RowDescription| r@),
            widths: self.widths@,
            style: self.style,
            highlight_style: self.highlight_style,
            highlighted: self.highlighted,
        }
    }
}

/// The text of a boolean cell: a check mark when the flag is set, nothing
/// when it is not.
pub open spec fn flag_text(flag: bool) -> Seq<char> {
    if flag {
        seq!['\u{2714}']
    } else {
        Seq::empty()
    }
}

/// The text of the name cell: the name, or a placeholder where the runner
/// has none.
pub open spec fn name_text(name: Option<Seq<char>>) -> Seq<char> {
    match name {
        Some(n) => n,
        None => "<unknown>"@,
    }
}

/// The headers of the columns, in order.
pub open spec fn header_texts() -> Seq<Seq<char>> {
    seq![
        "ID"@,
        "NAME"@,
        "DESCRIPTION"@,
        "IP"@,
        "SHARED"@,
        "ACTIVE"@,
        "ONLINE"@,
        "STATUS"@,
        "TAGS"@,
    ]
}

/// The widths of the columns, in order.
pub open spec fn column_widths() -> Seq<u16> {
    seq![5u16, 15u16, 40u16, 15u16, 10u16, 8u16, 8u16, 10u16, 40u16]
}

/// The cells of a runner's row, in the order of the columns: id, name,
/// description, address, the three flags, status, and the tags separated by
/// commas.
pub open spec fn row_cells(runner: RunnerDetailsView) -> Seq<Seq<char>> {
    seq![
        decimal(runner.id),
        name_text(runner.name),
        runner.description,
        runner.ip_address,
        flag_text(runner.is_shared),
        flag_text(runner.active),
        flag_text(runner.online),
        runner.status,
        joined(runner.tag_list, ","@),
    ]
}

/// The row of a runner. Its style depends on the runner's status alone; a
/// status that is not recognized is reported on the row.
pub open spec fn row_of(runner: RunnerDetailsView) -> RowView {
    RowView {
        cells: row_cells(runner),
        style: row_style(runner.status),
        unrecognized: if style_of(runner.status) is None {
            Some(runner.status)
        } else {
            None
        },
    }
}

/// The title of the frame around a table of `count` rows.
pub open spec fn title_of(count: nat) -> Seq<char> {
    " Runners ["@ + decimal(count) + "] "@
}

/// The row that a cursor highlights in a table of `count` rows: the row at
/// the cursor where there is one, and none otherwise.
pub open spec fn highlight_of(cursor: Option<usize>, count: nat) -> Option<usize> {
    match cursor {
        Some(c) => if c < count {
            Some(c)
        } else {
            None
        },
        None => None,
    }
}

/// The table of a sequence of runners under a cursor.
pub open spec fn table_of(runners: Seq<RunnerDetailsView>, cursor: Option<usize>) -> TableView {
    TableView {
        title: title_of(runners.len()),
        title_alignment: Alignment::Center,
        bordered: true,
        header: header_texts(),
        header_style: Style { fg: Some(Color::Black), bg: None, bold: true },
        rows: runners.map_values(|r: RunnerDetailsView| row_of(r)),
        widths: column_widths(),
        style: Style { fg: Some(Color::White), bg: None, bold: false },
        highlight_style: Style { fg: None, bg: Some(Color::DarkGray), bold: false },
        highlighted: highlight_of(cursor, runners.len()),
    }
}

/// Renders a boolean column: a single check mark for `true`, an empty cell
/// for `false`.
pub fn convert_str_flag(flag: &bool) -> (text: &str)
    ensures
        text@ == flag_text(*flag),
{
    if *flag {
        proof {
            reveal_strlit("\u{2714}");
        }
        "\u{2714}"
    } else {
        proof {
            reveal_strlit("");
        }
        ""
    }
}

/// Builds the row of one runner.
pub fn build_detailed_row(runner: &RunnerDetails) -> (row: RowDescription)
    ensures
        row@ == row_of(runner@),
{
    let name = match &runner.name {
        Some(n) => n.clone(),
        None => "<unknown>".to_owned(),
    };
    let mut cells: Vec<String> = Vec::new();
    cells.push(decimal_string(runner.id));
    cells.push(name);
    cells.push(runner.description.clone());
    cells.push(runner.ip_address.clone());
    cells.push(convert_str_flag(&runner.is_shared).to_owned());
    cells.push(convert_str_flag(&runner.active).to_owned());
    cells.push(convert_str_flag(&runner.online).to_owned());
    cells.push(runner.status.clone());
    cells.push(join(&runner.tag_list, ","));
    assert(texts(cells@) =~= row_cells(runner@));
    match style_for(runner.status.as_str()) {
        Ok(tag) => RowDescription { cells, style: tag.style(), unrecognized: None },
        Err(unrecognized) => RowDescription {
            cells,
            style: Style::plain(),
            unrecognized: Some(unrecognized),
        },
    }
}

/// Builds the table of the runners, in their order, with the row under the
/// cursor highlighted. The result depends on the runners and the cursor
/// alone.
pub fn create_table(runners: &Vec<RunnerDetails>, cursor: Option<usize>) -> (table:
    TableDescription)
    ensures
        table@ == table_of(detail_views(runners@), cursor),
{
    let mut header: Vec<String> = Vec::new();
    header.push("ID".to_owned());
    header.push("NAME".to_owned());
    header.push("DESCRIPTION".to_owned());
    header.push("IP".to_owned());
    header.push("SHARED".to_owned());
    header.push("ACTIVE".to_owned());
    header.push("ONLINE".to_owned());
    header.push("STATUS".to_owned());
    header.push("TAGS".to_owned());
    assert(texts(header@) =~= header_texts());

    let mut rows: Vec<RowDescription> = Vec::new();
    let mut i: usize = 0;
    while i < runners.len()
        invariant
            i <= runners.len(),
            rows@.len() == i,
            forall|j: int| 0 <= j < i ==> (#[trigger] rows@[j])@ == row_of(runners@[j]@),
        decreases runners.len() - i,
    {
        rows.push(build_detailed_row(&runners[i]));
        i += 1;
    }

    let mut title = " Runners [".to_owned();
    title.append(decimal_string(runners.len()).as_str());
    title.append("] ");

    let mut widths: Vec<u16> = Vec::new();
    widths.push(5);
    widths.push(15);
    widths.push(40);
    widths.push(15);
    widths.push(10);
    widths.push(8);
    widths.push(8);
    widths.push(10);
    widths.push(40);
    assert(widths@ =~= column_widths());

    let highlighted = match cursor {
        Some(c) => if c < runners.len() {
            Some(c)
        } else {
            None
        },
        None => None,
    };
    let table = TableDescription {
        title,
        title_alignment: Alignment::Center,
        bordered: true,
        header,
        header_style: Style { fg: Some(Color::Black), bg: None, bold: true },
        rows,
        widths,
        style: Style { fg: Some(Color::White), bg: None, bold: false },
        highlight_style: Style { fg: None, bg: Some(Color::DarkGray), bold: false },
        highlighted,
    };
    assert(table@.rows =~= table_of(detail_views(runners@), cursor).rows);
    table
}

/// Rendering is deterministic: whatever tables are built from runners that
/// say the same, under the same cursor, are one and the same table, cell for
/// cell, style for style, and with the same row highlighted.
pub proof fn lemma_rendering_is_deterministic(
    first_runners: Seq<RunnerDetails>,
    second_runners: Seq<RunnerDetails>,
    cursor: Option<usize>,
    first_table: TableView,
    second_table: TableView,
)
    requires
        detail_views(first_runners) == detail_views(second_runners),
        first_table == table_of(detail_views(first_runners), cursor),
        second_table == table_of(detail_views(second_runners), cursor),
    ensures
        first_table == second_table,
{
}

} // verus!
