//! What the dashboard shows: its widgets and where each stands on the grid.

use vstd::prelude::*;

verus! {

/// The number of columns of the grid.
pub const GRID_COLS: usize = 5;

/// How a widget shows its topic's value.
#[derive(Debug, Clone, Copy, PartialEq, Eq, Structural)]
pub enum WidgetType {
    /// As text.
    Text,
    /// As a graph.
    Graph,
    /// As a gauge.
    Gauge,
}

/// The cells of the grid that a widget takes up.
#[derive(Debug, Clone, Copy, PartialEq, Eq, Structural)]
pub struct GridPosition {
    /// The first row.
    pub row: usize,
    /// The first column.
    pub col: usize,
    /// The number of rows.
    pub row_span: usize,
    /// The number of columns.
    pub col_span: usize,
}

/// One topic's value on the grid.
#[derive(Debug, Clone)]
pub struct Widget {
    /// The topic whose value is shown.
    pub topic: String,
    /// The title shown above the value.
    pub label: String,
    /// How the value is shown.
    pub widget_type: WidgetType,
    /// Where the widget stands.
    pub position: GridPosition,
}

/// The widgets of the dashboard, in the order they were added.
#[derive(Debug, Clone)]
pub struct Config {
    /// The widgets.
    pub widgets: Vec<Widget>,
}

impl GridPosition {
    /// The single cell at `row` and `col`.
    pub fn cell(row: usize, col: usize) -> (position: GridPosition)
        ensures
            position == (GridPosition { row, col, row_span: 1, col_span: 1 }),
    {
        GridPosition { row, col, row_span: 1, col_span: 1 }
    }

    /// Whether the cell at `row` and `col` is one of these cells.
    pub open spec fn spec_covers(self, row: int, col: int) -> bool {
        &&& self.row <= row < self.row + self.row_span
        &&& self.col <= col < self.col + self.col_span
    }

    /// Whether the cell at `row` and `col` is one of these cells.
    pub fn covers(&self, row: usize, col: usize) -> (covered: bool)
        ensures
            covered == self.spec_covers(row as int, col as int),
    {
        row >= self.row && row - self.row < self.row_span && col >= self.col && col - self.col
            < self.col_span
    }

    /// Whether these cells begin at `row` and `col`.
    pub open spec fn spec_starts_at(self, row: int, col: int) -> bool {
        self.row == row && self.col == col
    }
}

impl Config {
    /// A dashboard without widgets.
    pub fn new() -> (config: Config)
        ensures
            config.widgets@ == Seq::<Widget>::empty(),
    {
        Config { widgets: Vec::new() }
    }

    /// Whether some widget takes up the cell at `row` and `col`.
    pub open spec fn spec_occupied(self, row: int, col: int) -> bool {
        exists|i: int|
            0 <= i < self.widgets@.len() && (#[trigger] self.widgets@[i]).position.spec_covers(
                row,
                col,
            )
    }

    /// Whether the widget at the index `i` is the first that begins at `row`
    /// and `col`.
    pub open spec fn first_at(self, i: int, row: int, col: int) -> bool {
        &&& 0 <= i < self.widgets@.len()
        &&& self.widgets@[i].position.spec_starts_at(row, col)
        &&& forall|j: int| 0 <= j < i ==> !(#[trigger] self.widgets@[j]).position.spec_starts_at(row, col)
    }

    /// Whether no widget begins at `row` and `col`.
    pub open spec fn none_at(self, row: int, col: int) -> bool {
        forall|j: int|
            0 <= j < self.widgets@.len() ==> !(#[trigger] self.widgets@[j]).position.spec_starts_at(
                row,
                col,
            )
    }

    /// The index of the first widget that begins at `row` and `col`.
    pub fn widget_index_at(&self, row: usize, col: usize) -> (index: Option<usize>)
        ensures
            match index {
                Some(i) => self.first_at(i as int, row as int, col as int),
                None => self.none_at(row as int, col as int),
            },
    {
        let mut i: usize = 0;
        while i < self.widgets.len()
            invariant
                i <= self.widgets@.len(),
                forall|j: int|
                    0 <= j < i ==> !(#[trigger] self.widgets@[j]).position.spec_starts_at(
                        row as int,
                        col as int,
                    ),
            decreases self.widgets@.len() - i,
        {
            if self.widgets[i].position.row == row && self.widgets[i].position.col == col {
                return Some(i);
            }
            i += 1;
        }
        None
    }

    /// Adds `widget` after the widgets that are there.
    pub fn add_widget(&mut self, widget: Widget)
        ensures
            final(self).widgets@ == old(self).widgets@.push(widget),
    {
        self.widgets.push(widget);
    }

    /// Whether some widget takes up the cell at `row` and `col`.
    pub fn is_position_occupied(&self, row: usize, col: usize) -> (occupied: bool)
        ensures
            occupied == self.spec_occupied(row as int, col as int),
    {
        let mut i: usize = 0;
        while i < self.widgets.len()
            invariant
                i <= self.widgets@.len(),
                forall|j: int|
                    0 <= j < i ==> !(#[trigger] self.widgets@[j]).position.spec_covers(
                        row as int,
                        col as int,
                    ),
            decreases self.widgets@.len() - i,
        {
            if self.widgets[i].position.covers(row, col) {
                return true;
            }
            i += 1;
        }
        false
    }
}

} // verus!
