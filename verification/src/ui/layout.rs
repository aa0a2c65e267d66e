//! Where things go on the screen, and what the lines around the grid say.
//!
//! Lengths are cells of the terminal.

use vstd::prelude::*;
use vstd::string::StringExecFns;
use crate::config::{Config, GridPosition, Widget};
use crate::text::{decimal, decimal_text};
use crate::ui::ConnectionStatus;

verus! {

/// The height of a row of the grid.
pub const ROW_HEIGHT: u16 = 3;

/// The last row that the area of a widget of several cells reaches.
pub const LAST_SPAN_ROW: usize = 9;

/// The last column that the area of a widget of several cells reaches.
pub const LAST_SPAN_COL: usize = 4;

/// A rectangle of the screen.
#[derive(Debug, Clone, Copy, PartialEq, Eq, Structural)]
pub struct Area {
    /// The column of the left edge.
    pub x: u16,
    /// The row of the top edge.
    pub y: u16,
    /// The number of columns.
    pub width: u16,
    /// The number of rows.
    pub height: u16,
}

/// A colour of the status line.
#[derive(Debug, Clone, Copy, PartialEq, Eq, Structural)]
pub enum StatusColor {
    /// All is well.
    Green,
    /// Something is pending or held back.
    Yellow,
    /// There is no connection.
    Red,
}

/// The number of rows of the grid that fit into `height`.
pub fn rows_that_fit(height: u16) -> (rows: usize)
    ensures
        rows == height / ROW_HEIGHT,
{
    (height / ROW_HEIGHT) as usize
}

/// The greatest row at which one of `widgets` begins; the first row if
/// there is no widget.
pub open spec fn lowest_row(widgets: Seq<Widget>) -> nat
    decreases widgets.len(),
{
    if widgets.len() == 0 {
        0
    } else {
        let before = lowest_row(widgets.drop_last());
        if widgets.last().position.row > before {
            widgets.last().position.row as nat
        } else {
            before
        }
    }
}

/// What is said where the grid has fewer rows than the widgets need.
pub open spec fn space_warning_text(rows_needed: nat) -> Seq<char> {
    "Warning: Not enough space for all widgets! ("@ + decimal(rows_needed) + " rows needed)"@
}

/// The warning that is due where a grid of `max_rows` rows does not reach
/// the lowest of the widgets.
pub fn space_warning(config: &Config, max_rows: usize) -> (warning: Option<String>)
    ensures
        match warning {
            Some(text) => lowest_row(config.widgets@) >= max_rows && text@ == space_warning_text(
                lowest_row(config.widgets@) + 1,
            ),
            None => lowest_row(config.widgets@) < max_rows,
        },
{
    let mut lowest: usize = 0;
    let mut i: usize = 0;
    assert(config.widgets@.take(0) =~= Seq::<Widget>::empty());
    while i < config.widgets.len()
        invariant
            i <= config.widgets@.len(),
            lowest == lowest_row(config.widgets@.take(i as int)),
        decreases config.widgets@.len() - i,
    {
        assert(config.widgets@.take(i as int + 1).drop_last() =~= config.widgets@.take(i as int));
        if config.widgets[i].position.row > lowest {
            lowest = config.widgets[i].position.row;
        }
        i += 1;
    }
    assert(config.widgets@.take(i as int) =~= config.widgets@);
    if lowest >= max_rows {
        let needed = decimal_text(lowest as u128 + 1);
        Some(
            "Warning: Not enough space for all widgets! (".to_owned().concat(
                needed.as_str(),
            ).concat(" rows needed)"),
        )
    } else {
        None
    }
}

impl GridPosition {
    /// Whether a widget here shows on a grid of `max_rows` rows: it does if
    /// it begins on one of them.
    pub fn is_visible(&self, max_rows: usize) -> (visible: bool)
        ensures
            visible == (self.row < max_rows),
    {
        self.row < max_rows
    }

    /// Whether these are more cells than one in some direction.
    pub open spec fn spans(self) -> bool {
        self.row_span > 1 || self.col_span > 1
    }

    /// The last row of these cells, as far as the area of a widget reaches.
    pub open spec fn end_row(self) -> int {
        if self.row + self.row_span - 1 < LAST_SPAN_ROW {
            self.row + self.row_span - 1
        } else {
            LAST_SPAN_ROW as int
        }
    }

    /// The last column of these cells, as far as the area of a widget
    /// reaches.
    pub open spec fn end_col(self) -> int {
        if self.col + self.col_span - 1 < LAST_SPAN_COL {
            self.col + self.col_span - 1
        } else {
            LAST_SPAN_COL as int
        }
    }
}

/// Whether `grid` has a cell at `row` and `col`.
pub open spec fn has_cell(grid: Seq<Vec<Area>>, row: int, col: int) -> bool {
    0 <= row < grid.len() && 0 <= col < grid[row]@.len()
}

/// Whether the rectangle from the top left of `first` to the bottom right
/// of `last` can be told in whole lengths.
pub open spec fn can_join(first: Area, last: Area) -> bool {
    &&& first.x <= last.x + last.width <= u16::MAX
    &&& first.y <= last.y + last.height <= u16::MAX
}

/// The rectangle from the top left of `first` to the bottom right of `last`.
pub open spec fn joined(first: Area, last: Area) -> Area {
    Area {
        x: first.x,
        y: first.y,
        width: (last.x + last.width - first.x) as u16,
        height: (last.y + last.height - first.y) as u16,
    }
}

/// Whether the area of a widget at `position` can be told from the cells of
/// `grid`: the cells it reaches are there, and none of the sums leaves the
/// range of its type.
pub open spec fn has_area(grid: Seq<Vec<Area>>, position: GridPosition) -> bool {
    &&& has_cell(grid, position.row as int, position.col as int)
    &&& position.spans() ==> {
        &&& 1 <= position.row + position.row_span <= usize::MAX
        &&& 1 <= position.col + position.col_span <= usize::MAX
        &&& has_cell(grid, position.end_row(), position.end_col())
        &&& can_join(
            grid[position.row as int]@[position.col as int],
            grid[position.end_row()]@[position.end_col()],
        )
    }
}

/// The area of a widget at `position`: its cell, or, for a widget of several
/// cells, the rectangle from its first cell to its last.
pub fn get_widget_area(grid_cells: &Vec<Vec<Area>>, position: &GridPosition) -> (area: Area)
    requires
        has_area(grid_cells@, *position),
    ensures
        area == if position.spans() {
            joined(
                grid_cells@[position.row as int]@[position.col as int],
                grid_cells@[position.end_row()]@[position.end_col()],
            )
        } else {
            grid_cells@[position.row as int]@[position.col as int]
        },
{
    let first = grid_cells[position.row][position.col];
    if position.row_span > 1 || position.col_span > 1 {
        let mut end_row = position.row + position.row_span - 1;
        if end_row > LAST_SPAN_ROW {
            end_row = LAST_SPAN_ROW;
        }
        let mut end_col = position.col + position.col_span - 1;
        if end_col > LAST_SPAN_COL {
            end_col = LAST_SPAN_COL;
        }
        let last = grid_cells[end_row][end_col];
        Area {
            x: first.x,
            y: first.y,
            width: last.x + last.width - first.x,
            height: last.y + last.height - first.y,
        }
    } else {
        first
    }
}

/// `value`, but no less than `least`.
pub open spec fn at_least(value: int, least: int) -> int {
    if value < least {
        least
    } else {
        value
    }
}

/// `value`, but no more than `most`.
pub open spec fn at_most(value: int, most: int) -> int {
    if value > most {
        most
    } else {
        value
    }
}

/// A rectangle of `width` by `height` in the middle of a screen of
/// `screen_width` by `screen_height`.
pub open spec fn centered(screen_width: int, screen_height: int, width: int, height: int) -> Area {
    Area {
        x: ((screen_width - width) / 2) as u16,
        y: ((screen_height - height) / 2) as u16,
        width: width as u16,
        height: height as u16,
    }
}

/// A rectangle of `width` by `height` in the middle of the screen `size`.
fn center(size: Area, width: u16, height: u16) -> (area: Area)
    requires
        width <= size.width,
        height <= size.height,
    ensures
        area == centered(size.width as int, size.height as int, width as int, height as int),
{
    Area { x: (size.width - width) / 2, y: (size.height - height) / 2, width, height }
}

/// The window of the search: as wide as the screen between 70 and 100
/// columns, as high as the screen between 10 and 20 rows, in the middle.
pub fn search_popup(size: Area) -> (area: Area)
    requires
        size.width >= 70,
        size.height >= 10,
    ensures
        area == centered(
            size.width as int,
            size.height as int,
            at_least(at_most(size.width as int, 100), 70),
            at_least(at_most(size.height as int, 20), 10),
        ),
{
    let mut width = size.width;
    if width > 100 {
        width = 100;
    }
    if width < 70 {
        width = 70;
    }
    let mut height = size.height;
    if height > 20 {
        height = 20;
    }
    if height < 10 {
        height = 10;
    }
    center(size, width, height)
}

/// A window half as wide as the screen, but no less than 50 columns, and
/// `height` rows high, in the middle.
fn half_popup(size: Area, height: u16) -> (area: Area)
    requires
        size.width >= 50,
        size.height >= height,
    ensures
        area == centered(
            size.width as int,
            size.height as int,
            at_least(size.width as int / 2, 50),
            height as int,
        ),
{
    let mut width = size.width / 2;
    if width < 50 {
        width = 50;
    }
    center(size, width, height)
}

/// The window of a cell's settings: half as wide as the screen, but no less
/// than 50 columns, and 12 rows high, in the middle.
pub fn cell_config_popup(size: Area) -> (area: Area)
    requires
        size.width >= 50,
        size.height >= 12,
    ensures
        area == centered(
            size.width as int,
            size.height as int,
            at_least(size.width as int / 2, 50),
            12,
        ),
{
    half_popup(size, 12)
}

/// The window of the title's editor: half as wide as the screen, but no
/// less than 50 columns, and 10 rows high, in the middle.
pub fn label_edit_popup(size: Area) -> (area: Area)
    requires
        size.width >= 50,
        size.height >= 10,
    ensures
        area == centered(
            size.width as int,
            size.height as int,
            at_least(size.width as int / 2, 50),
            10,
        ),
{
    half_popup(size, 10)
}

/// The colour of the status line: yellow while values are held back, else
/// by the connection.
pub fn status_color(paused: bool, status: ConnectionStatus) -> (color: StatusColor)
    ensures
        color == if paused {
            StatusColor::Yellow
        } else {
            match status {
                ConnectionStatus::Connected => StatusColor::Green,
                ConnectionStatus::Connecting => StatusColor::Yellow,
                ConnectionStatus::Disconnected => StatusColor::Red,
            }
        },
{
    if paused {
        StatusColor::Yellow
    } else {
        match status {
            ConnectionStatus::Connected => StatusColor::Green,
            ConnectionStatus::Connecting => StatusColor::Yellow,
            ConnectionStatus::Disconnected => StatusColor::Red,
        }
    }
}

/// What the status line says of the connection.
pub open spec fn status_words(paused: bool, status: ConnectionStatus) -> Seq<char> {
    match status {
        ConnectionStatus::Connected => if paused {
            "Paused"@
        } else {
            "Connected"@
        },
        ConnectionStatus::Connecting => "Connecting..."@,
        ConnectionStatus::Disconnected => "Disconnected"@,
    }
}

/// What the status line says of the connection, and in which colour: a
/// connection that is held back is told as such.
pub fn status_text(paused: bool, status: ConnectionStatus) -> (said: (&'static str, StatusColor))
    ensures
        said.0@ == status_words(paused, status),
        said.1 == match status {
            ConnectionStatus::Connected => if paused {
                StatusColor::Yellow
            } else {
                StatusColor::Green
            },
            ConnectionStatus::Connecting => StatusColor::Yellow,
            ConnectionStatus::Disconnected => StatusColor::Red,
        },
{
    match status {
        ConnectionStatus::Connected => if paused {
            ("Paused", StatusColor::Yellow)
        } else {
            ("Connected", StatusColor::Green)
        },
        ConnectionStatus::Connecting => ("Connecting...", StatusColor::Yellow),
        ConnectionStatus::Disconnected => ("Disconnected", StatusColor::Red),
    }
}

/// What was typed in the search, with the cursor after it while it shows.
pub fn search_input_text(input: &str, cursor_visible: bool) -> (text: String)
    ensures
        text@ == if cursor_visible {
            input@ + "_"@
        } else {
            input@
        },
{
    if cursor_visible {
        input.to_owned().concat("_")
    } else {
        input.to_owned()
    }
}

/// The title in the editor, with the cursor after it while it shows and a
/// blank in its place while it does not.
pub fn label_input_text(label: &str, cursor_visible: bool) -> (text: String)
    ensures
        text@ == label@ + if cursor_visible {
            "_"@
        } else {
            " "@
        },
{
    label.to_owned().concat(
        if cursor_visible {
            "_"
        } else {
            " "
        },
    )
}

/// The heading of the list of matches.
pub open spec fn matches_title_text(found: nat) -> Seq<char> {
    "Available Topics ("@ + decimal(found) + " found)"@
}

/// The heading of the list of `found` matches.
pub fn matches_title(found: usize) -> (title: String)
    ensures
        title@ == matches_title_text(found as nat),
{
    "Available Topics (".to_owned().concat(decimal_text(found as u128).as_str()).concat(" found)")
}

} // verus!
