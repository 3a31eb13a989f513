//! How a session's cells look and what is copied of them.

use vstd::prelude::*;

use super::colors::{
    drawn_color, palette, resolved_shares, CellColor, EmulatedColor, NamedColor, Rgb,
};
use super::screen::{
    drawn_rows, is_selected, selected_cells, selected_lines, selected_text_of, CellModel,
    EmulatedCell, GridPosition,
};
use crate::text::{joined, trimmed_end};

verus! {

/// Every whole row of the grid is drawn, cell by cell: its character with what
/// combines with it, its colours, whether the cursor stands there and whether
/// it is selected.
pub proof fn law_every_cell_is_drawn(
    cells: Seq<EmulatedCell>,
    columns: int,
    cursor: (int, int),
    selection: Option<(GridPosition, GridPosition)>,
    row: int,
    column: int,
)
    requires
        0 < columns <= 65535,
        cells.len() / (columns as nat) <= 65535,
        0 <= row < cells.len() as int / columns,
        0 <= column < columns,
        0 <= cursor.1 < columns,
    ensures
        ({
            let rows = drawn_rows(cells, columns, cursor, selection);
            let cell = cells[row * columns + column];
            &&& rows.len() == cells.len() as int / columns
            &&& rows[row].len() == columns
            &&& rows[row][column].text == seq![cell.character] + cell.zerowidth@
            &&& rows[row][column].foreground == drawn_color(cell.foreground)
            &&& rows[row][column].background == drawn_color(cell.background)
            &&& cursor.0 == row && cursor.1 == column ==> rows[row][column].cursor
            &&& rows[row][column].cursor ==> cursor.0 == row && cursor.1 == column
            &&& rows[row][column].selected == is_selected(
                selection,
                (column as u16, row as u16),
            )
        }),
{
    let rows = drawn_rows(cells, columns, cursor, selection);
    assert(column % 0x10000 == column);
    assert(row % 0x10000 == row);
    if rows[row][column].cursor {
        assert(cursor.0 == row && cursor.1 == column) by (nonlinear_arith)
            requires
                cursor.0 * columns + cursor.1 == row * columns + column,
                0 <= column < columns,
                0 <= cursor.1 < columns,
        ;
    }
}

/// Columns are compared first, then rows; a selection covers both its ends and
/// what lies between them, whichever was set first.
pub proof fn law_a_selection_covers_its_ends(
    start: GridPosition,
    end: GridPosition,
    position: GridPosition,
)
    ensures
        is_selected(Some((start, end)), start),
        is_selected(Some((start, end)), end),
        !is_selected(None, position),
        start.0 < position.0 < end.0 ==> is_selected(Some((start, end)), position),
        start.0 <= end.0 && position.0 < start.0 ==> !is_selected(Some((start, end)), position),
        start.0 <= end.0 && end.0 < position.0 ==> !is_selected(Some((start, end)), position),
        start.0 == position.0 && end.0 == position.0 && start.1 <= end.1 ==> (is_selected(
            Some((start, end)),
            position,
        ) <==> start.1 <= position.1 <= end.1),
{
}

/// What is copied of a row is the text of its selected cells, in order.
pub proof fn law_a_row_is_copied_cell_by_cell(line: Seq<CellModel>, cell: CellModel)
    ensures
        selected_cells(Seq::empty()) == Seq::<char>::empty(),
        selected_cells(line.push(cell)) == (if cell.selected {
            selected_cells(line) + cell.text
        } else {
            selected_cells(line)
        }),
{
    assert(line.push(cell).drop_last() =~= line);
}

/// Rows with something selected are copied one to a line, without the blanks at
/// their ends; rows without leave no line.
pub proof fn law_rows_are_copied_one_to_a_line(lines: Seq<Seq<CellModel>>, line: Seq<CellModel>)
    ensures
        ({
            let text = trimmed_end(selected_cells(line));
            &&& text.len() == 0 ==> selected_lines(lines.push(line)) == selected_lines(lines)
            &&& text.len() > 0 ==> selected_lines(lines.push(line)) == selected_lines(lines).push(
                text,
            )
            &&& selected_lines(lines).len() > 0 ==> selected_text_of(lines) == Some(
                joined(selected_lines(lines), "\n"@),
            )
            &&& selected_lines(lines).len() == 0 ==> selected_text_of(lines) is None
        }),
        selected_lines(Seq::empty()) == Seq::<Seq<char>>::empty(),
{
    assert(lines.push(line).drop_last() =~= lines);
}

/// The colours by name are drawn by the outer terminal's own names for them;
/// its foreground, background and dimmed ones are left alone; numbers and
/// shares are passed on.
pub proof fn law_colours_are_drawn_by_name(rgb: Rgb, index: u8)
    ensures
        drawn_color(EmulatedColor::Spec(rgb)) == Some(CellColor::Rgb(rgb)),
        drawn_color(EmulatedColor::Indexed(index)) == Some(CellColor::Indexed(index)),
        drawn_color(EmulatedColor::Named(NamedColor::Black)) == Some(CellColor::Black),
        drawn_color(EmulatedColor::Named(NamedColor::Red)) == Some(CellColor::Red),
        drawn_color(EmulatedColor::Named(NamedColor::Green)) == Some(CellColor::Green),
        drawn_color(EmulatedColor::Named(NamedColor::Yellow)) == Some(CellColor::Yellow),
        drawn_color(EmulatedColor::Named(NamedColor::Blue)) == Some(CellColor::Blue),
        drawn_color(EmulatedColor::Named(NamedColor::Magenta)) == Some(CellColor::Magenta),
        drawn_color(EmulatedColor::Named(NamedColor::Cyan)) == Some(CellColor::Cyan),
        drawn_color(EmulatedColor::Named(NamedColor::White)) == Some(CellColor::Gray),
        drawn_color(EmulatedColor::Named(NamedColor::BrightBlack)) == Some(CellColor::DarkGray),
        drawn_color(EmulatedColor::Named(NamedColor::BrightRed)) == Some(CellColor::LightRed),
        drawn_color(EmulatedColor::Named(NamedColor::BrightGreen)) == Some(CellColor::LightGreen),
        drawn_color(EmulatedColor::Named(NamedColor::BrightYellow)) == Some(CellColor::LightYellow),
        drawn_color(EmulatedColor::Named(NamedColor::BrightBlue)) == Some(CellColor::LightBlue),
        drawn_color(EmulatedColor::Named(NamedColor::BrightMagenta)) == Some(
            CellColor::LightMagenta,
        ),
        drawn_color(EmulatedColor::Named(NamedColor::BrightCyan)) == Some(CellColor::LightCyan),
        drawn_color(EmulatedColor::Named(NamedColor::BrightWhite)) == Some(CellColor::White),
        drawn_color(EmulatedColor::Named(NamedColor::Foreground)) is None,
        drawn_color(EmulatedColor::Named(NamedColor::Background)) is None,
        drawn_color(EmulatedColor::Named(NamedColor::Cursor)) is None,
        drawn_color(EmulatedColor::Named(NamedColor::DimRed)) is None,
        drawn_color(EmulatedColor::Named(NamedColor::BrightForeground)) is None,
        drawn_color(EmulatedColor::Named(NamedColor::DimForeground)) is None,
{
}

/// The shares of numbered colours: six steps a side of a cube, from sixteen on,
/// red first and blue last, and a ramp of greys ten apart.
pub proof fn law_numbered_colours_have_their_shares(red: int, green: int, blue: int, grey: int)
    requires
        0 <= red < 6,
        0 <= green < 6,
        0 <= blue < 6,
        0 <= grey < 24,
    ensures
        ({
            let share = |step: int|
                if step == 0 {
                    0
                } else {
                    55 + 40 * step
                };
            palette(16 + 36 * red + 6 * green + blue) == (share(red), share(green), share(blue))
        }),
        palette(232 + grey) == (8 + 10 * grey, 8 + 10 * grey, 8 + 10 * grey),
        palette(0) == (0int, 0int, 0int),
        palette(1) == (205int, 49int, 49int),
        palette(2) == (13int, 188int, 121int),
        palette(3) == (229int, 229int, 16int),
        palette(4) == (36int, 114int, 200int),
        palette(5) == (188int, 63int, 188int),
        palette(6) == (17int, 168int, 205int),
        palette(7) == (229int, 229int, 229int),
        palette(8) == (102int, 102int, 102int),
        palette(9) == (241int, 76int, 76int),
        palette(10) == (35int, 209int, 139int),
        palette(11) == (245int, 245int, 67int),
        palette(12) == (59int, 142int, 234int),
        palette(13) == (214int, 112int, 214int),
        palette(14) == (41int, 184int, 219int),
        palette(15) == (255int, 255int, 255int),
{
    let index = 36 * red + 6 * green + blue;
    assert(index / 36 == red);
    assert(index / 6 == 6 * red + green);
    assert((6 * red + green) % 6 == green);
    assert(index % 6 == blue);
}

/// A colour that a program gave shares to has those; a number has its own, and
/// a name that of its number.
pub proof fn law_a_redefined_colour_has_its_new_shares(
    rgb: Rgb,
    redefined: Rgb,
    index: u8,
    name: NamedColor,
)
    ensures
        resolved_shares(EmulatedColor::Spec(rgb), Some(redefined)) == (
            rgb.r as int,
            rgb.g as int,
            rgb.b as int,
        ),
        resolved_shares(EmulatedColor::Indexed(index), Some(redefined)) == (
            redefined.r as int,
            redefined.g as int,
            redefined.b as int,
        ),
        resolved_shares(EmulatedColor::Named(name), Some(redefined)) == (
            redefined.r as int,
            redefined.g as int,
            redefined.b as int,
        ),
        resolved_shares(EmulatedColor::Indexed(index), None) == palette(index as int),
        resolved_shares(EmulatedColor::Named(NamedColor::Black), None) == palette(0),
        resolved_shares(EmulatedColor::Named(NamedColor::Red), None) == palette(1),
        resolved_shares(EmulatedColor::Named(NamedColor::Green), None) == palette(2),
        resolved_shares(EmulatedColor::Named(NamedColor::Yellow), None) == palette(3),
        resolved_shares(EmulatedColor::Named(NamedColor::Blue), None) == palette(4),
        resolved_shares(EmulatedColor::Named(NamedColor::Magenta), None) == palette(5),
        resolved_shares(EmulatedColor::Named(NamedColor::Cyan), None) == palette(6),
        resolved_shares(EmulatedColor::Named(NamedColor::White), None) == palette(7),
        resolved_shares(EmulatedColor::Named(NamedColor::BrightBlack), None) == palette(8),
        resolved_shares(EmulatedColor::Named(NamedColor::BrightRed), None) == palette(9),
        resolved_shares(EmulatedColor::Named(NamedColor::BrightGreen), None) == palette(10),
        resolved_shares(EmulatedColor::Named(NamedColor::BrightYellow), None) == palette(11),
        resolved_shares(EmulatedColor::Named(NamedColor::BrightBlue), None) == palette(12),
        resolved_shares(EmulatedColor::Named(NamedColor::BrightMagenta), None) == palette(13),
        resolved_shares(EmulatedColor::Named(NamedColor::BrightCyan), None) == palette(14),
        resolved_shares(EmulatedColor::Named(NamedColor::BrightWhite), None) == palette(15),
        resolved_shares(EmulatedColor::Named(NamedColor::Foreground), None) == palette(7),
        resolved_shares(EmulatedColor::Named(NamedColor::Background), None) == palette(0),
        resolved_shares(EmulatedColor::Named(NamedColor::Cursor), None) == palette(7),
        resolved_shares(EmulatedColor::Named(NamedColor::DimBlack), None) == palette(0),
        resolved_shares(EmulatedColor::Named(NamedColor::DimRed), None) == palette(1),
        resolved_shares(EmulatedColor::Named(NamedColor::DimGreen), None) == palette(2),
        resolved_shares(EmulatedColor::Named(NamedColor::DimYellow), None) == palette(3),
        resolved_shares(EmulatedColor::Named(NamedColor::DimBlue), None) == palette(4),
        resolved_shares(EmulatedColor::Named(NamedColor::DimMagenta), None) == palette(5),
        resolved_shares(EmulatedColor::Named(NamedColor::DimCyan), None) == palette(6),
        resolved_shares(EmulatedColor::Named(NamedColor::DimWhite), None) == palette(7),
        resolved_shares(EmulatedColor::Named(NamedColor::BrightForeground), None) == palette(7),
        resolved_shares(EmulatedColor::Named(NamedColor::DimForeground), None) == palette(8),
{
}

} // verus!
