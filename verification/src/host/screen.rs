//! The visible grid of a terminal emulator, as cells that can be drawn and
//! text that can be copied.

use vstd::prelude::*;
use vstd::string::*;

use super::colors::{drawn_color, terminal_color, CellColor, EmulatedColor};
use crate::text::{joined, push_character, trim_end, trimmed_end, views};

verus! {

/// A position in the visible grid: column, then row.
pub type GridPosition = (u16, u16);

/// A cell as a terminal emulator reports it.
#[derive(Debug)]
pub struct EmulatedCell {
    pub character: char,
    /// Combining characters on top of the cell's own.
    pub zerowidth: Vec<char>,
    pub foreground: EmulatedColor,
    pub background: EmulatedColor,
}

/// A cell that can be drawn.
#[derive(Debug, PartialEq, Eq)]
pub struct ResourceShellCell {
    pub text: String,
    pub foreground: Option<CellColor>,
    pub background: Option<CellColor>,
    pub cursor: bool,
    pub selected: bool,
}

/// What a [`ResourceShellCell`] shows.
#[verifier::ext_equal]
pub struct CellModel {
    pub text: Seq<char>,
    pub foreground: Option<CellColor>,
    pub background: Option<CellColor>,
    pub cursor: bool,
    pub selected: bool,
}

impl View for ResourceShellCell {
    type V = CellModel;

    open spec fn view(&self) -> CellModel {
        CellModel {
            text: self.text@,
            foreground: self.foreground,
            background: self.background,
            cursor: self.cursor,
            selected: self.selected,
        }
    }
}

/// The visible grid of a session.
#[derive(Debug, PartialEq, Eq)]
pub struct ResourceShellScreen {
    pub lines: Vec<Vec<ResourceShellCell>>,
}

impl View for ResourceShellScreen {
    type V = Seq<Seq<CellModel>>;

    open spec fn view(&self) -> Seq<Seq<CellModel>> {
        self.lines@.map_values(|line: Vec<ResourceShellCell>| views(line@))
    }
}

/// Whether a position comes no later than another: columns first, then rows.
pub open spec fn not_after(first: GridPosition, second: GridPosition) -> bool {
    first.0 < second.0 || (first.0 == second.0 && first.1 <= second.1)
}

/// Whether a position lies between the ends of a selection, whichever of the
/// two comes first.
pub open spec fn is_selected(
    selection: Option<(GridPosition, GridPosition)>,
    position: GridPosition,
) -> bool {
    match selection {
        Some((start, end)) => if not_after(start, end) {
            not_after(start, position) && not_after(position, end)
        } else {
            not_after(end, position) && not_after(position, start)
        },
        None => false,
    }
}

/// A count as a coordinate.
pub open spec fn coordinate(value: int) -> u16 {
    (value % 0x10000) as u16
}

/// Whether the cursor stands on a cell. A cursor above the visible grid stands
/// on none.
pub open spec fn under_cursor(
    cursor_line: int,
    cursor_column: int,
    columns: int,
    index: int,
) -> bool {
    cursor_line >= 0 && cursor_line * columns + cursor_column == index
}

/// The drawn form of the cell at an index of the grid.
pub open spec fn drawn_cell(
    cell: EmulatedCell,
    row: int,
    column: int,
    columns: int,
    cursor: (int, int),
    selection: Option<(GridPosition, GridPosition)>,
) -> CellModel {
    CellModel {
        text: seq![cell.character] + cell.zerowidth@,
        foreground: drawn_color(cell.foreground),
        background: drawn_color(cell.background),
        cursor: under_cursor(cursor.0, cursor.1, columns, row * columns + column),
        selected: is_selected(selection, (coordinate(column), coordinate(row))),
    }
}

/// One row of the grid.
pub open spec fn drawn_row(
    cells: Seq<EmulatedCell>,
    row: int,
    columns: int,
    cursor: (int, int),
    selection: Option<(GridPosition, GridPosition)>,
) -> Seq<CellModel> {
    Seq::new(
        columns as nat,
        |column: int|
            drawn_cell(cells[row * columns + column], row, column, columns, cursor, selection),
    )
}

/// The whole rows of the grid.
pub open spec fn drawn_rows(
    cells: Seq<EmulatedCell>,
    columns: int,
    cursor: (int, int),
    selection: Option<(GridPosition, GridPosition)>,
) -> Seq<Seq<CellModel>> {
    Seq::new(
        (cells.len() as int / columns) as nat,
        |row: int| drawn_row(cells, row, columns, cursor, selection),
    )
}

/// The selected text of a row.
pub open spec fn selected_cells(line: Seq<CellModel>) -> Seq<char>
    decreases line.len(),
{
    if line.len() == 0 {
        Seq::empty()
    } else if line.last().selected {
        selected_cells(line.drop_last()) + line.last().text
    } else {
        selected_cells(line.drop_last())
    }
}

/// The selected text of each row that has any, without trailing white space.
pub open spec fn selected_lines(lines: Seq<Seq<CellModel>>) -> Seq<Seq<char>>
    decreases lines.len(),
{
    if lines.len() == 0 {
        Seq::empty()
    } else {
        let text = trimmed_end(selected_cells(lines.last()));
        if text.len() == 0 {
            selected_lines(lines.drop_last())
        } else {
            selected_lines(lines.drop_last()).push(text)
        }
    }
}

/// The text that the user selected.
pub open spec fn selected_text_of(lines: Seq<Seq<CellModel>>) -> Option<Seq<char>> {
    if selected_lines(lines).len() == 0 {
        None
    } else {
        Some(joined(selected_lines(lines), "\n"@))
    }
}

fn comes_no_later(first: GridPosition, second: GridPosition) -> (answer: bool)
    ensures
        answer == not_after(first, second),
{
    first.0 < second.0 || (first.0 == second.0 && first.1 <= second.1)
}

/// Whether a position lies between the ends of a selection.
pub fn selects(selection: Option<(GridPosition, GridPosition)>, position: GridPosition) -> (answer:
    bool)
    ensures
        answer == is_selected(selection, position),
{
    match selection {
        Some((start, end)) => {
            if comes_no_later(start, end) {
                comes_no_later(start, position) && comes_no_later(position, end)
            } else {
                comes_no_later(end, position) && comes_no_later(position, start)
            }
        },
        None => false,
    }
}

fn on_cursor(cursor_line: i32, cursor_column: usize, columns: usize, index: usize) -> (answer: bool)
    ensures
        answer == under_cursor(
            cursor_line as int,
            cursor_column as int,
            columns as int,
            index as int,
        ),
{
    if cursor_line < 0 {
        return false;
    }
    let line: u128 = cursor_line as u128;
    let width: u128 = columns as u128;
    assert(line * width <= 0x7fff_ffff * 0xffff_ffff_ffff_ffff) by (nonlinear_arith)
        requires
            line <= 0x7fff_ffff,
            width <= 0xffff_ffff_ffff_ffff,
    ;
    assert(line * width >= 0) by (nonlinear_arith);
    line * width + cursor_column as u128 == index as u128
}

/// A character with the combining characters on top of it.
pub fn cell_text(character: char, zerowidth: &Vec<char>) -> (text: String)
    ensures
        text@ == seq![character] + zerowidth@,
{
    let mut text = String::new();
    push_character(&mut text, character);
    let mut i: usize = 0;
    assert(text@ =~= seq![character] + zerowidth@.take(0));
    while i < zerowidth.len()
        invariant
            i <= zerowidth.len(),
            text@ == seq![character] + zerowidth@.take(i as int),
        decreases zerowidth.len() - i,
    {
        push_character(&mut text, zerowidth[i]);
        assert(text@ =~= seq![character] + zerowidth@.take(i + 1));
        i = i + 1;
    }
    assert(zerowidth@.take(i as int) =~= zerowidth@);
    text
}

fn draw_cell(
    cell: &EmulatedCell,
    row: usize,
    column: usize,
    cursor: bool,
    selection: Option<(GridPosition, GridPosition)>,
) -> (drawn: ResourceShellCell)
    ensures
        drawn@ == (CellModel {
            text: seq![cell.character] + cell.zerowidth@,
            foreground: drawn_color(cell.foreground),
            background: drawn_color(cell.background),
            cursor,
            selected: is_selected(selection, (coordinate(column as int), coordinate(row as int))),
        }),
{
    let text = cell_text(cell.character, &cell.zerowidth);
    let position: GridPosition = ((column % 0x10000) as u16, (row % 0x10000) as u16);
    ResourceShellCell {
        text,
        foreground: terminal_color(cell.foreground),
        background: terminal_color(cell.background),
        cursor,
        selected: selects(selection, position),
    }
}

proof fn lemma_row_fits(len: int, columns: int, row: int)
    requires
        columns > 0,
        0 <= row < len / columns,
    ensures
        0 <= row * columns,
        row * columns + columns <= len,
{
    assert(row * columns + columns <= len) by (nonlinear_arith)
        requires
            columns > 0,
            0 <= row < len / columns,
    ;
    assert(0 <= row * columns) by (nonlinear_arith)
        requires
            columns > 0,
            0 <= row,
    ;
}

fn draw_row(
    cells: &Vec<EmulatedCell>,
    row: usize,
    columns: usize,
    cursor_line: i32,
    cursor_column: usize,
    selection: Option<(GridPosition, GridPosition)>,
) -> (line: Vec<ResourceShellCell>)
    requires
        columns > 0,
        row < cells.len() / columns,
    ensures
        views(line@) == drawn_row(
            cells@,
            row as int,
            columns as int,
            (cursor_line as int, cursor_column as int),
            selection,
        ),
{
    proof {
        lemma_row_fits(cells.len() as int, columns as int, row as int);
    }
    let start: usize = row * columns;
    let ghost all = drawn_row(
        cells@,
        row as int,
        columns as int,
        (cursor_line as int, cursor_column as int),
        selection,
    );
    let mut line: Vec<ResourceShellCell> = Vec::new();
    let mut column: usize = 0;
    assert(views(line@) =~= all.take(0));
    while column < columns
        invariant
            column <= columns,
            start == row * columns,
            start + columns <= cells.len(),
            all == drawn_row(
                cells@,
                row as int,
                columns as int,
                (cursor_line as int, cursor_column as int),
                selection,
            ),
            views(line@) == all.take(column as int),
        decreases columns - column,
    {
        let index: usize = start + column;
        let cursor = on_cursor(cursor_line, cursor_column, columns, index);
        let ghost before = line@;
        let cell = draw_cell(&cells[index], row, column, cursor, selection);
        assert(cell@ == all[column as int]);
        line.push(cell);
        proof {
            assert(views(line@) =~= views(before).push(all[column as int]));
            assert(all.take(column + 1) =~= all.take(column as int).push(all[column as int]));
        }
        column = column + 1;
    }
    assert(all.take(column as int) =~= all);
    line
}

/// Adapts an emulator's visible grid, given row by row, into
/// presentation-neutral cells.
pub fn screen(
    cells: &Vec<EmulatedCell>,
    columns: usize,
    cursor_line: i32,
    cursor_column: usize,
    selection: Option<(GridPosition, GridPosition)>,
) -> (screen: ResourceShellScreen)
    requires
        columns > 0,
    ensures
        screen@ == drawn_rows(
            cells@,
            columns as int,
            (cursor_line as int, cursor_column as int),
            selection,
        ),
{
    let ghost all = drawn_rows(
        cells@,
        columns as int,
        (cursor_line as int, cursor_column as int),
        selection,
    );
    let mut screen = ResourceShellScreen { lines: Vec::new() };
    let rows: usize = cells.len() / columns;
    let mut row: usize = 0;
    assert(screen@ =~= all.take(0));
    while row < rows
        invariant
            row <= rows,
            columns > 0,
            rows == cells.len() / columns,
            all == drawn_rows(
                cells@,
                columns as int,
                (cursor_line as int, cursor_column as int),
                selection,
            ),
            screen@ == all.take(row as int),
        decreases rows - row,
    {
        let line = draw_row(cells, row, columns, cursor_line, cursor_column, selection);
        let ghost before = screen@;
        assert(views(line@) == all[row as int]);
        screen.lines.push(line);
        proof {
            assert(screen@ =~= before.push(all[row as int]));
            assert(all.take(row + 1) =~= all.take(row as int).push(all[row as int]));
        }
        row = row + 1;
    }
    assert(all.take(row as int) =~= all);
    screen
}

fn selected_line(line: &Vec<ResourceShellCell>) -> (text: String)
    ensures
        text@ == trimmed_end(selected_cells(views(line@))),
{
    let ghost all = views(line@);
    let mut text = String::new();
    let mut i: usize = 0;
    assert(text@ =~= Seq::<char>::empty());
    while i < line.len()
        invariant
            i <= line.len(),
            all == views(line@),
            text@ == selected_cells(all.take(i as int)),
        decreases line.len() - i,
    {
        proof {
            assert(all.take(i + 1).drop_last() =~= all.take(i as int));
            assert(all.take(i + 1).last() == line@[i as int]@);
        }
        if line[i].selected {
            text.append(line[i].text.as_str());
        }
        i = i + 1;
    }
    assert(all.take(i as int) =~= all);
    trim_end(text.as_str())
}

proof fn lemma_joining_one_more(parts: Seq<Seq<char>>, text: Seq<char>, separator: Seq<char>)
    ensures
        joined(parts.push(text), separator) == (if parts.len() == 0 {
            text
        } else {
            joined(parts, separator) + separator + text
        }),
{
    assert(parts.push(text).drop_last() =~= parts);
}

impl ResourceShellScreen {
    /// The text that the user selected, without accepting terminal-originated
    /// clipboard requests.
    pub fn selected_text(&self) -> (text: Option<String>)
        ensures
            text is Some <==> selected_text_of(self@) is Some,
            text matches Some(text) ==> Some(text@) == selected_text_of(self@),
    {
        let ghost all = self@;
        let mut text = String::new();
        let mut found = false;
        let mut i: usize = 0;
        assert(text@ =~= joined(Seq::empty(), "\n"@));
        while i < self.lines.len()
            invariant
                i <= self.lines.len(),
                all == self@,
                found == (selected_lines(all.take(i as int)).len() > 0),
                text@ == joined(selected_lines(all.take(i as int)), "\n"@),
            decreases self.lines.len() - i,
        {
            proof {
                assert(all.take(i + 1).drop_last() =~= all.take(i as int));
                assert(all.take(i + 1).last() == views(self.lines@[i as int]@));
            }
            let line = selected_line(&self.lines[i]);
            let filled = line.as_str().unicode_len() > 0;
            if filled {
                proof {
                    lemma_joining_one_more(selected_lines(all.take(i as int)), line@, "\n"@);
                }
                if found {
                    text.append("\n");
                    text.append(line.as_str());
                } else {
                    text = line;
                }
                found = true;
            }
            i = i + 1;
        }
        assert(all.take(i as int) =~= all);
        if found {
            Some(text)
        } else {
            None
        }
    }
}

/// A selection holds the same cells whichever of its ends the drag began at.
pub proof fn law_selections_have_no_direction(
    start: GridPosition,
    end: GridPosition,
    position: GridPosition,
)
    ensures
        is_selected(Some((start, end)), position) == is_selected(Some((end, start)), position),
        is_selected(Some((start, end)), start),
        is_selected(Some((start, end)), end),
{
}

/// Nothing is copied where nothing is selected.
pub proof fn law_nothing_selected_is_nothing_copied(lines: Seq<Seq<CellModel>>)
    requires
        forall|i: int, j: int|
            0 <= i < lines.len() && 0 <= j < lines[i].len() ==> !(#[trigger] lines[i][j]).selected,
    ensures
        selected_text_of(lines) is None,
    decreases lines.len(),
{
    if lines.len() > 0 {
        let last = lines.last();
        assert forall|j: int| 0 <= j < last.len() implies !(#[trigger] last[j]).selected by {
            assert(!lines[lines.len() - 1][j].selected);
        }
        lemma_no_cells(last);
        assert(lines.drop_last().len() == lines.len() - 1);
        assert forall|i: int, j: int|
            0 <= i < lines.drop_last().len() && 0 <= j < lines.drop_last()[i].len() implies !(
        #[trigger] lines.drop_last()[i][j]).selected by {
            assert(!lines[i][j].selected);
        }
        law_nothing_selected_is_nothing_copied(lines.drop_last());
    }
}

proof fn lemma_no_cells(line: Seq<CellModel>)
    requires
        forall|j: int| 0 <= j < line.len() ==> !(#[trigger] line[j]).selected,
    ensures
        selected_cells(line).len() == 0,
    decreases line.len(),
{
    if line.len() > 0 {
        assert(forall|j: int| 0 <= j < line.drop_last().len() ==> line.drop_last()[j] == line[j]);
        lemma_no_cells(line.drop_last());
    }
}

} // verus!
