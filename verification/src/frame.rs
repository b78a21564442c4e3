//! One frame of the dashboard: the header line and the peer table, with everything
//! that decides how they look.

use crate::address::IpAddress;
use crate::layout::{regions_of, split_surface, Area, Regions};
use crate::peer::Peer;
use crate::rows::{are_rows_of, gen_rows, rows_text, DisplayRow, RowText};
use crate::selection::{clamp_index, clamped, in_range, Selection};
use crate::text::{decimal, push_numeral};
use vstd::prelude::*;

verus! {

/// The colours that the dashboard uses.
#[derive(Clone, Copy, Debug, PartialEq, Eq, Structural)]
pub enum Color {
    Cyan,
    Yellow,
}

/// How a piece of text is drawn.
#[derive(Clone, Copy, Debug, PartialEq, Eq)]
pub struct Style {
    /// The colour of the text; none leaves the terminal's own.
    pub foreground: Option<Color>,
    pub bold: bool,
    /// Foreground and background change places.
    pub reversed: bool,
}

/// A column of the table: its title and its share of the table's width, in percent.
#[derive(Clone, Copy, Debug, PartialEq, Eq)]
pub struct Column {
    pub title: &'static str,
    pub width_percent: u16,
}

/// A column as text.
pub struct ColumnText {
    pub title: Seq<char>,
    pub width_percent: u16,
}

impl View for Column {
    type V = ColumnText;

    open spec fn view(&self) -> ColumnText {
        ColumnText { title: self.title@, width_percent: self.width_percent }
    }
}

/// The peer table as it is handed to the terminal.
#[derive(Debug, PartialEq, Eq)]
pub struct PeerTable {
    /// Whether a border is drawn around the table.
    pub bordered: bool,
    /// The title on the table's border.
    pub title: &'static str,
    pub columns: Vec<Column>,
    /// The style of the column titles.
    pub title_style: Style,
    /// The style of the line that holds the column titles.
    pub header_style: Style,
    /// The blank lines between the column titles and the first row.
    pub header_gap: u16,
    pub rows: Vec<DisplayRow>,
    /// The row that is highlighted, if any.
    pub highlight: Option<usize>,
    /// The style of the highlighted row.
    pub highlight_style: Style,
}

/// The peer table as text.
pub struct PeerTableText {
    pub bordered: bool,
    pub title: Seq<char>,
    pub columns: Seq<ColumnText>,
    pub title_style: Style,
    pub header_style: Style,
    pub header_gap: u16,
    pub rows: Seq<RowText>,
    pub highlight: Option<usize>,
    pub highlight_style: Style,
}

impl View for PeerTable {
    type V = PeerTableText;

    open spec fn view(&self) -> PeerTableText {
        PeerTableText {
            bordered: self.bordered,
            title: self.title@,
            columns: Seq::new(self.columns@.len(), |i: int| self.columns@[i]@),
            title_style: self.title_style,
            header_style: self.header_style,
            header_gap: self.header_gap,
            rows: rows_text(self.rows@),
            highlight: self.highlight,
            highlight_style: self.highlight_style,
        }
    }
}

/// Everything that one draw call shows.
#[derive(Debug, PartialEq, Eq)]
pub struct Frame {
    /// Where the header and the table go.
    pub regions: Regions,
    /// The line that names the process and counts its peers.
    pub header: String,
    pub header_style: Style,
    pub table: PeerTable,
}

/// A frame as text.
pub struct FrameText {
    pub regions: Regions,
    pub header: Seq<char>,
    pub header_style: Style,
    pub table: PeerTableText,
}

impl View for Frame {
    type V = FrameText;

    open spec fn view(&self) -> FrameText {
        FrameText {
            regions: self.regions,
            header: self.header@,
            header_style: self.header_style,
            table: self.table@,
        }
    }
}

/// The header line for a process with `peers` peers.
pub open spec fn header_text(process_name: Seq<char>, peers: nat) -> Seq<char> {
    "Process: "@ + process_name + " ["@ + decimal(peers) + " peers]"@
}

/// The header line stands out in bold cyan.
pub open spec fn header_style() -> Style {
    Style { foreground: Some(Color::Cyan), bold: true, reversed: false }
}

/// The column titles are yellow.
pub open spec fn column_title_style() -> Style {
    Style { foreground: Some(Color::Yellow), bold: false, reversed: false }
}

/// The line of column titles is bold.
pub open spec fn table_header_style() -> Style {
    Style { foreground: None, bold: true, reversed: false }
}

/// The selected row is drawn reversed.
pub open spec fn selected_style() -> Style {
    Style { foreground: None, bold: false, reversed: true }
}

/// The four columns of the table with their shares of its width.
pub open spec fn table_columns() -> Seq<ColumnText> {
    seq![
        ColumnText { title: "Peer"@, width_percent: 20 },
        ColumnText { title: "Name"@, width_percent: 40 },
        ColumnText { title: "Total received"@, width_percent: 20 },
        ColumnText { title: "Total sent"@, width_percent: 20 },
    ]
}

/// The table that shows the given rows with the given selection: the selection is
/// forced into the rows, so that the highlighted row always exists.
pub open spec fn table_of(rows: Seq<RowText>, index: Option<usize>) -> PeerTableText {
    PeerTableText {
        bordered: true,
        title: "Peer utilization"@,
        columns: table_columns(),
        title_style: column_title_style(),
        header_style: table_header_style(),
        header_gap: 1,
        rows,
        highlight: clamped(index, rows.len()),
        highlight_style: selected_style(),
    }
}

/// The frame that shows the given rows of a process on a surface.
pub open spec fn frame_of(
    surface: Area,
    process_name: Seq<char>,
    rows: Seq<RowText>,
    index: Option<usize>,
) -> FrameText {
    FrameText {
        regions: regions_of(surface),
        header: header_text(process_name, rows.len()),
        header_style: header_style(),
        table: table_of(rows, index),
    }
}

/// Builds the four columns.
fn columns() -> (columns: Vec<Column>)
    ensures
        Seq::new(columns@.len(), |i: int| columns@[i]@) == table_columns(),
{
    let mut columns: Vec<Column> = Vec::new();
    columns.push(Column { title: "Peer", width_percent: 20 });
    columns.push(Column { title: "Name", width_percent: 40 });
    columns.push(Column { title: "Total received", width_percent: 20 });
    columns.push(Column { title: "Total sent", width_percent: 20 });
    columns
}

/// Writes the header line.
pub fn gen_header(process_name: &str, peers: usize) -> (header: String)
    ensures
        header@ == header_text(process_name@, peers as nat),
{
    let mut header = String::from_str("Process: ");
    header.append(process_name);
    header.append(" [");
    push_numeral(&mut header, peers as u128, 10);
    header.append(" peers]");
    header
}

/// Puts a frame together from rows that are already built.
pub fn compose_frame(
    surface: Area,
    process_name: &str,
    rows: Vec<DisplayRow>,
    selection: &Selection,
) -> (frame: Frame)
    ensures
        frame.table.rows == rows,
        frame@ == frame_of(surface, process_name@, rows_text(rows@), selection.index),
        in_range(frame.table.highlight, rows@.len()),
{
    let header = gen_header(process_name, rows.len());
    let highlight = clamp_index(selection.index, rows.len());
    let frame = Frame {
        regions: split_surface(surface),
        header,
        header_style: Style { foreground: Some(Color::Cyan), bold: true, reversed: false },
        table: PeerTable {
            bordered: true,
            title: "Peer utilization",
            columns: columns(),
            title_style: Style { foreground: Some(Color::Yellow), bold: false, reversed: false },
            header_style: Style { foreground: None, bold: true, reversed: false },
            header_gap: 1,
            rows,
            highlight,
            highlight_style: Style { foreground: None, bold: false, reversed: true },
        },
    };
    frame
}

/// Whether `frame` shows the peers of a process on a surface under the given resolver
/// and selection: its rows are the rows of the peers, and all the rest follows from
/// them.
pub open spec fn is_frame_of<R: Fn(IpAddress) -> String>(
    frame: Frame,
    surface: Area,
    process_name: Seq<char>,
    peers: Seq<Peer>,
    resolver: R,
    index: Option<usize>,
) -> bool {
    &&& are_rows_of(frame.table.rows@, peers, resolver)
    &&& frame@ == frame_of(surface, process_name, rows_text(frame.table.rows@), index)
}

/// Builds the frame that shows the current peers of a process: the header line with
/// the peer count, and the table with one row per peer, in the order given. The
/// selection is read, not changed; the frame highlights the selected row, or the
/// last row where the selection lies beyond it.
pub fn render_frame<R: Fn(IpAddress) -> String>(
    surface: Area,
    process_name: &str,
    peers: &Vec<Peer>,
    resolver: &R,
    selection: &Selection,
) -> (frame: Frame)
    requires
        forall|i: int|
            0 <= i < peers@.len() ==> call_requires(*resolver, (#[trigger] peers@[i].address,)),
    ensures
        is_frame_of(frame, surface, process_name@, peers@, *resolver, selection.index),
        frame.table.rows@.len() == peers@.len(),
        in_range(frame.table.highlight, peers@.len()),
{
    let rows = gen_rows(peers, resolver);
    compose_frame(surface, process_name, rows, selection)
}

/// A resolver is pure where every address has one name: whatever it returns for an
/// address, it returns the same text.
pub open spec fn is_pure<R: Fn(IpAddress) -> String>(resolver: R) -> bool {
    forall|address: IpAddress, first: String, second: String|
        call_ensures(resolver, (address,), first) && call_ensures(resolver, (address,), second)
            ==> first@ == second@
}

/// Rendering is idempotent: two frames of the same peers, process, surface and
/// selection, under a pure resolver, show the same.
pub proof fn lemma_render_is_idempotent<R: Fn(IpAddress) -> String>(
    first: Frame,
    second: Frame,
    surface: Area,
    process_name: Seq<char>,
    peers: Seq<Peer>,
    resolver: R,
    index: Option<usize>,
)
    requires
        is_pure(resolver),
        is_frame_of(first, surface, process_name, peers, resolver, index),
        is_frame_of(second, surface, process_name, peers, resolver, index),
    ensures
        first@ == second@,
{
    let a = rows_text(first.table.rows@);
    let b = rows_text(second.table.rows@);
    assert forall|i: int| 0 <= i < a.len() implies a[i] == b[i] by {
        assert(first.table.rows@[i].name@ == second.table.rows@[i].name@);
    }
    assert(a =~= b);
}

/// Whatever the selection was, the frame highlights a row that exists, or none; a
/// selection that is in range is shown as it is.
pub proof fn lemma_highlight_in_range(rows: Seq<RowText>, index: Option<usize>)
    ensures
        in_range(table_of(rows, index).highlight, rows.len()),
        rows.len() == 0 ==> table_of(rows, index).highlight is None,
        in_range(index, rows.len()) ==> table_of(rows, index).highlight == index,
{
}

} // verus!
