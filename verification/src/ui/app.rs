//! The dashboard's state, and the steps that change it.

use vstd::prelude::*;
use vstd::string::StringExecFns;
use crate::config::{Config, GridPosition, Widget, WidgetType, GRID_COLS};
use crate::nt::NtUpdate;
use crate::text::{pop_char, push_char};
use crate::topics::{ascending, TopicSet, TopicValues};
use crate::ui::fuzzy::FuzzySearch;
use crate::ui::{ConnectionStatus, Key, KeyPress, Outcome, Window};

verus! {

/// The number of rows the grid has before the screen was measured.
pub const DEFAULT_ROWS: usize = 8;

/// How long the selected cell stays highlighted after the last key, in
/// whole seconds.
pub const HIGHLIGHT_SECONDS: u128 = 5;

/// How long a note on a copied value stays, in nanoseconds.
pub const COPY_MESSAGE_NANOS: u128 = 1_000_000_000;

/// The nanoseconds of a second.
pub const NANOS_PER_SECOND: u128 = 1_000_000_000;

/// The time from one tick of the clock of the screen to the next, in
/// nanoseconds.
pub const TICK_NANOS: u128 = 5_000_000;

/// After how many ticks the cursor of the search blinks.
pub const BLINK_TICKS: i32 = 50;

/// The dashboard's state. Times are nanoseconds on a clock that never goes
/// back.
pub struct App {
    /// The last value of each topic, as text.
    pub values: TopicValues,
    /// Whether the server is in touch.
    pub connection_status: ConnectionStatus,
    /// The topics the server has announced.
    pub available_topics: TopicSet,
    /// The window that has the keyboard.
    pub mode: Window,
    /// The search for a topic.
    pub fuzzy_search: FuzzySearch,
    /// The widgets.
    pub config: Config,
    /// Whether new values are held back.
    pub paused: bool,
    /// The row and column of the selected cell, if one is selected.
    pub selected_cell: Option<(usize, usize)>,
    /// The title that is being edited.
    pub label_edit: String,
    /// The number of rows of the grid.
    pub max_rows: usize,
    /// When the last key was pressed.
    pub last_activity: u128,
    /// Whether the blinking cursor shows.
    pub cursor_visible: bool,
    /// Whether the selected cell is highlighted.
    pub highlight_visible: bool,
    /// The note on the value that was copied, while it shows.
    pub copy_message: Option<String>,
    /// When the value was copied.
    pub copy_message_timestamp: Option<u128>,
}

/// Whether the cell at `row` and `col` comes before the one at `other_row`
/// and `other_col` when the grid is read row by row.
pub open spec fn cell_before(row: int, col: int, other_row: int, other_col: int) -> bool {
    row < other_row || (row == other_row && col < other_col)
}

/// `value` kept between `low` and `high`.
pub open spec fn clamped(value: int, low: int, high: int) -> int
    recommends
        low <= high,
{
    if value < low {
        low
    } else if value > high {
        high
    } else {
        value
    }
}

/// The note that says `value` was copied.
pub open spec fn copied_note(value: Seq<char>) -> Seq<char> {
    "Copied: "@ + value
}

/// The time that has gone by from `since` to `now`; none if `now` is the
/// earlier.
pub open spec fn spec_elapsed(since: u128, now: u128) -> u128 {
    if now >= since {
        (now - since) as u128
    } else {
        0
    }
}

/// Whether, at the time `now`, more than [`HIGHLIGHT_SECONDS`] whole seconds
/// have gone by since `last_activity`.
pub open spec fn highlight_is_over(last_activity: u128, now: u128) -> bool {
    spec_elapsed(last_activity, now) / NANOS_PER_SECOND > HIGHLIGHT_SECONDS
}

/// `text` without its last character, if it has one.
pub open spec fn erased(text: Seq<char>) -> Seq<char> {
    if text.len() == 0 {
        text
    } else {
        text.drop_last()
    }
}

/// By how many rows and columns a key moves the selection on the grid, if
/// it moves it.
pub open spec fn selection_step(key: Key) -> Option<(int, int)> {
    match key {
        Key::Char(c) => if c == 'h' {
            Some((0, -1))
        } else if c == 'j' {
            Some((1, 0))
        } else if c == 'k' {
            Some((-1, 0))
        } else if c == 'l' {
            Some((0, 1))
        } else {
            None
        },
        _ => None,
    }
}

/// The time that has gone by from `since` to `now`; none if `now` is the
/// earlier.
pub fn elapsed(since: u128, now: u128) -> (time: u128)
    ensures
        time == spec_elapsed(since, now),
{
    if now >= since {
        now - since
    } else {
        0
    }
}

/// How long to wait for a key at the time `now`, when the last tick was at
/// `last_tick`: what is left of [`TICK_NANOS`].
pub fn poll_timeout(last_tick: u128, now: u128) -> (wait: u128)
    ensures
        wait == if spec_elapsed(last_tick, now) <= TICK_NANOS {
            TICK_NANOS - spec_elapsed(last_tick, now)
        } else {
            0
        },
{
    let gone = elapsed(last_tick, now);
    if gone <= TICK_NANOS {
        TICK_NANOS - gone
    } else {
        0
    }
}

/// Whether a tick is due at the time `now`, when the last one was at
/// `last_tick`.
pub fn tick_is_due(last_tick: u128, now: u128) -> (due: bool)
    ensures
        due == (spec_elapsed(last_tick, now) >= TICK_NANOS),
{
    elapsed(last_tick, now) >= TICK_NANOS
}

/// `value` kept between zero and `high`.
fn clamp(value: i128, high: usize) -> (kept: usize)
    ensures
        kept == clamped(value as int, 0, high as int),
{
    if value < 0 {
        0
    } else if value > high as i128 {
        high
    } else {
        value as usize
    }
}

impl App {
    /// Whether the cell at `row` and `col` is on the grid.
    pub open spec fn on_grid(self, row: int, col: int) -> bool {
        0 <= row < self.max_rows && 0 <= col < GRID_COLS
    }

    /// Whether the cell at `row` and `col` is the first cell of the grid, row
    /// by row, that no widget takes up.
    pub open spec fn first_free(self, row: int, col: int) -> bool {
        &&& self.on_grid(row, col)
        &&& !self.config.spec_occupied(row, col)
        &&& forall|r: int, c: int|
            self.on_grid(r, c) && cell_before(r, c, row, col)
                ==> #[trigger] self.config.spec_occupied(r, c)
    }

    /// Whether every cell of the grid is taken up.
    pub open spec fn grid_full(self) -> bool {
        forall|r: int, c: int| self.on_grid(r, c) ==> #[trigger] self.config.spec_occupied(r, c)
    }

    /// Whether `position` is where the next widget goes: the first cell that
    /// no widget takes up, or the top left cell if every cell is taken up.
    pub open spec fn next_position_is(self, position: GridPosition) -> bool {
        &&& position.row_span == 1
        &&& position.col_span == 1
        &&& self.grid_full() ==> position.row == 0 && position.col == 0
        &&& !self.grid_full() ==> self.first_free(position.row as int, position.col as int)
    }

    /// The row of the selected cell; the first row if nothing is selected.
    pub open spec fn selected_row(self) -> int {
        match self.selected_cell {
            Some((row, _)) => row as int,
            None => 0,
        }
    }

    /// The column of the selected cell; the first column if nothing is
    /// selected.
    pub open spec fn selected_col(self) -> int {
        match self.selected_cell {
            Some((_, col)) => col as int,
            None => 0,
        }
    }

    /// Whether the widget at the index `i` is the one at the selected cell:
    /// the first widget that begins there.
    pub open spec fn selected_widget_is(self, i: int) -> bool {
        match self.selected_cell {
            Some((row, col)) => self.config.first_at(i, row as int, col as int),
            None => false,
        }
    }

    /// Whether there is no widget at the selected cell, or no selected cell.
    pub open spec fn no_selected_widget(self) -> bool {
        match self.selected_cell {
            Some((row, col)) => self.config.none_at(row as int, col as int),
            None => true,
        }
    }

    /// Whether a note on a copied value has shown for too long at the time
    /// `now`.
    pub open spec fn copy_message_is_over(self, now: u128) -> bool {
        match self.copy_message_timestamp {
            Some(timestamp) => spec_elapsed(timestamp, now) > COPY_MESSAGE_NANOS,
            None => false,
        }
    }

    /// This state with the window `mode`.
    pub open spec fn with_mode(self, mode: Window) -> App {
        App { mode, ..self }
    }

    /// This state once a key was pressed at the time `now`.
    pub open spec fn with_activity(self, now: u128) -> App {
        App { last_activity: now, highlight_visible: true, ..self }
    }

    /// This state with new values held back if they were let in, and the
    /// other way round.
    pub open spec fn with_pause_toggled(self) -> App {
        App { paused: !self.paused, ..self }
    }

    /// This state once the selection was moved by `row_delta` rows and
    /// `col_delta` columns at the time `now`.
    pub open spec fn with_selection_moved(self, row_delta: int, col_delta: int, now: u128) -> App {
        App {
            selected_cell: Some(
                (
                    clamped(self.selected_row() + row_delta, 0, self.max_rows - 1) as usize,
                    clamped(self.selected_col() + col_delta, 0, GRID_COLS - 1) as usize,
                ),
            ),
            ..self.with_activity(now)
        }
    }

    /// This state once the settings of the selected cell were asked for.
    pub open spec fn with_cell_config_entered(self) -> App {
        if self.selected_cell is Some {
            self.with_mode(Window::CellConfig)
        } else {
            self
        }
    }

    /// This state at the time `now`, with the highlight taken off if it is
    /// over.
    pub open spec fn with_highlight_checked(self, now: u128) -> App {
        App {
            highlight_visible: self.highlight_visible && !highlight_is_over(
                self.last_activity,
                now,
            ),
            ..self
        }
    }

    /// This state at the time `now`, with the note on a copied value taken
    /// away if it is over.
    pub open spec fn with_copy_message_checked(self, now: u128) -> App {
        if self.copy_message_is_over(now) {
            App { copy_message: None, copy_message_timestamp: None, ..self }
        } else {
            self
        }
    }

    /// Whether `after` is this state once the editor of the selected
    /// widget's title was asked for.
    pub open spec fn label_edit_entered(self, after: App) -> bool {
        &&& forall|i: int|
            self.selected_widget_is(i) ==> after == (App {
                label_edit: self.config.widgets@[i].label,
                mode: Window::LabelEdit,
                ..self
            })
        &&& self.no_selected_widget() ==> after == self
    }

    /// Whether `after` is this state once the edited title was given to the
    /// selected widget, and `changed` says whether there was such a widget.
    pub open spec fn label_saved(self, after: App, changed: bool) -> bool {
        &&& forall|i: int|
            self.selected_widget_is(i) ==> changed && after.config.widgets@
                == self.config.widgets@.update(
                i,
                Widget { label: self.label_edit, ..self.config.widgets@[i] },
            )
        &&& self.no_selected_widget() ==> !changed && after.config == self.config
        &&& after == (App { config: after.config, mode: Window::CellConfig, ..self })
    }

    /// Whether `after` is this state once the search was opened.
    pub open spec fn search_entered(self, after: App) -> bool {
        &&& self.fuzzy_search.shows(
            self.fuzzy_search.input@,
            self.available_topics@,
            after.fuzzy_search,
        )
        &&& after.fuzzy_search.input == self.fuzzy_search.input
        &&& after == (App {
            mode: Window::FuzzySearch,
            fuzzy_search: after.fuzzy_search,
            ..self
        })
    }

    /// Whether `after` is this state once the search was left.
    pub open spec fn search_left(self, after: App) -> bool {
        &&& self.fuzzy_search.cleared(after.fuzzy_search)
        &&& after == (App { mode: Window::Main, fuzzy_search: after.fuzzy_search, ..self })
    }

    /// Whether `after` is this state once the chosen match of the search was
    /// taken, and `topic` is that match.
    ///
    /// Without a chosen match nothing happens. With one, the widget at the
    /// selected cell shows that topic from then on, if the settings of a cell
    /// are open and there is such a widget; else a new widget shows it, with
    /// the topic as its title, at the next position. Either way the search is
    /// left.
    pub open spec fn search_chosen(self, after: App, topic: Option<String>) -> bool {
        match self.fuzzy_search.spec_selected() {
            None => topic is None && after == self,
            Some(chosen) => {
                &&& topic == Some(chosen)
                &&& self.fuzzy_search.cleared(after.fuzzy_search)
                &&& after == (App {
                    mode: Window::Main,
                    fuzzy_search: after.fuzzy_search,
                    config: after.config,
                    ..self
                })
                &&& if self.mode == Window::CellConfig && !self.no_selected_widget() {
                    forall|i: int|
                        self.selected_widget_is(i) ==> after.config.widgets@
                            == self.config.widgets@.update(
                            i,
                            Widget { topic: chosen, ..self.config.widgets@[i] },
                        )
                } else {
                    exists|position: GridPosition|
                        self.next_position_is(position) && after.config.widgets@
                            == self.config.widgets@.push(
                            Widget {
                                topic: chosen,
                                label: chosen,
                                widget_type: WidgetType::Text,
                                position,
                            },
                        )
                }
            },
        }
    }

    /// Whether `after` is this state once `input` is what was typed in the
    /// search and the matches were looked up again.
    pub open spec fn search_typed(self, input: Seq<char>, after: App) -> bool {
        &&& self.fuzzy_search.shows(input, self.available_topics@, after.fuzzy_search)
        &&& after == (App { fuzzy_search: after.fuzzy_search, ..self })
    }

    /// This state with the choice of the search moved by `offset` matches.
    pub open spec fn with_choice_moved(self, offset: int) -> App {
        App { fuzzy_search: self.fuzzy_search.with_choice_moved(offset), ..self }
    }

    /// Whether this state can take the key `press`: a key that moves the
    /// selection needs a grid of at least one row.
    pub open spec fn can_handle(self, press: KeyPress) -> bool {
        self.mode == Window::Main && selection_step(press.key) is Some ==> self.max_rows >= 1
    }

    /// Whether `after` and `outcome` are what the key `press`, pressed at the
    /// time `now`, makes of this state.
    ///
    /// Whatever the key, the press is noted as activity. What else happens
    /// depends on the window that has the keyboard.
    pub open spec fn key_handled(
        self,
        press: KeyPress,
        now: u128,
        after: App,
        outcome: Outcome,
    ) -> bool {
        let noted = self.with_activity(now);
        match self.mode {
            Window::Main => match press.key {
                Key::Char(c) => if c == 'q' {
                    after == noted && outcome == (Outcome {
                        quit: true,
                        store: false,
                        chosen: None,
                    })
                } else if c == 'a' {
                    noted.search_entered(after) && outcome == Outcome::nothing()
                } else if c == ' ' {
                    after == noted.with_pause_toggled() && outcome == Outcome::nothing()
                } else {
                    match selection_step(press.key) {
                        Some((rows, cols)) => after == noted.with_selection_moved(rows, cols, now)
                            && outcome == Outcome::nothing(),
                        None => after == noted && outcome == Outcome::nothing(),
                    }
                },
                Key::Enter => after == noted.with_cell_config_entered() && outcome
                    == Outcome::nothing(),
                _ => after == noted && outcome == Outcome::nothing(),
            },
            Window::CellConfig => match press.key {
                Key::Esc => after == noted.with_mode(Window::Main) && outcome
                    == Outcome::nothing(),
                Key::Char(c) => if c == 's' {
                    noted.search_entered(after) && outcome == Outcome::nothing()
                } else if c == 'l' {
                    noted.label_edit_entered(after) && outcome == Outcome::nothing()
                } else {
                    after == noted && outcome == Outcome::nothing()
                },
                _ => after == noted && outcome == Outcome::nothing(),
            },
            Window::FuzzySearch => match press.key {
                Key::Esc => noted.search_left(after) && outcome == Outcome::nothing(),
                Key::Char(c) => if press.control && c == 'k' {
                    after == noted.with_choice_moved(-1) && outcome == Outcome::nothing()
                } else if press.control && c == 'j' {
                    after == noted.with_choice_moved(1) && outcome == Outcome::nothing()
                } else {
                    noted.search_typed(noted.fuzzy_search.input@.push(c), after) && outcome
                        == Outcome::nothing()
                },
                Key::Enter => noted.search_chosen(after, outcome.chosen) && outcome == (Outcome {
                    quit: false,
                    store: outcome.chosen is Some,
                    chosen: outcome.chosen,
                }),
                Key::Up => after == noted.with_choice_moved(-1) && outcome == Outcome::nothing(),
                Key::Down => after == noted.with_choice_moved(1) && outcome == Outcome::nothing(),
                Key::Backspace => noted.search_typed(erased(noted.fuzzy_search.input@), after)
                    && outcome == Outcome::nothing(),
                Key::Other => after == noted && outcome == Outcome::nothing(),
            },
            Window::LabelEdit => match press.key {
                Key::Esc => after == noted.with_mode(Window::CellConfig) && outcome
                    == Outcome::nothing(),
                Key::Enter => noted.label_saved(after, outcome.store) && outcome == (Outcome {
                    quit: false,
                    store: outcome.store,
                    chosen: None,
                }),
                Key::Backspace => noted.label_typed(erased(noted.label_edit@), after) && outcome
                    == Outcome::nothing(),
                Key::Char(c) => noted.label_typed(noted.label_edit@.push(c), after) && outcome
                    == Outcome::nothing(),
                _ => after == noted && outcome == Outcome::nothing(),
            },
        }
    }

    /// Whether `after` is this state once `update` came in from the
    /// connection.
    ///
    /// A topic with its value is taken note of: the value is kept unless
    /// values are held back, the server counts as in touch, the topic is
    /// known from then on, and an open search looks its matches up again.
    pub open spec fn update_applied(self, update: NtUpdate, after: App) -> bool {
        match update {
            NtUpdate::Subscribed(topic, value) => {
                &&& if self.paused {
                    after.values == self.values
                } else {
                    after.values@ == self.values@.insert(topic@, value@)
                }
                &&& after.available_topics@.to_set() == self.available_topics@.to_set().insert(
                    topic@,
                )
                &&& ascending(after.available_topics@)
                &&& if self.mode == Window::FuzzySearch {
                    self.fuzzy_search.shows(
                        self.fuzzy_search.input@,
                        after.available_topics@,
                        after.fuzzy_search,
                    )
                } else {
                    after.fuzzy_search == self.fuzzy_search
                }
                &&& after == (App {
                    values: after.values,
                    connection_status: ConnectionStatus::Connected,
                    available_topics: after.available_topics,
                    fuzzy_search: after.fuzzy_search,
                    ..self
                })
            },
            NtUpdate::Publish(_, _) => after == self,
            NtUpdate::ConnectionStatus(status) => after == (App {
                connection_status: status,
                ..self
            }),
        }
    }

    /// Whether the cursor of the search blinks at the tick `counter`.
    pub open spec fn blinks_at(self, counter: i32) -> bool {
        self.mode == Window::FuzzySearch && counter % BLINK_TICKS == 0
    }

    /// Whether `after` is this state with the title `label` in the editor.
    pub open spec fn label_typed(self, label: Seq<char>, after: App) -> bool {
        &&& after.label_edit@ == label
        &&& after == (App { label_edit: after.label_edit, ..self })
    }

    /// The state the dashboard starts in, with the widgets of `config`, at
    /// the time `now`.
    pub fn new(config: Config, now: u128) -> (app: App)
        ensures
            app.values@ == Map::<Seq<char>, Seq<char>>::empty(),
            app.connection_status == ConnectionStatus::Disconnected,
            app.available_topics@ == Seq::<Seq<char>>::empty(),
            app.mode == Window::Main,
            app.fuzzy_search.input@ == Seq::<char>::empty(),
            app.fuzzy_search.matches@ == Seq::<String>::empty(),
            app.fuzzy_search.selected_index == 0,
            app.fuzzy_search.list_selected == Some(0usize),
            app.config == config,
            !app.paused,
            app.selected_cell is None,
            app.label_edit@ == Seq::<char>::empty(),
            app.max_rows == DEFAULT_ROWS,
            app.last_activity == now,
            !app.cursor_visible,
            !app.highlight_visible,
            app.copy_message is None,
            app.copy_message_timestamp is None,
    {
        App {
            values: TopicValues::new(),
            connection_status: ConnectionStatus::Disconnected,
            available_topics: TopicSet::new(),
            mode: Window::Main,
            fuzzy_search: FuzzySearch::new(),
            config,
            paused: false,
            selected_cell: None,
            label_edit: String::new(),
            max_rows: DEFAULT_ROWS,
            last_activity: now,
            cursor_visible: false,
            highlight_visible: false,
            copy_message: None,
            copy_message_timestamp: None,
        }
    }

    /// Adds `widget` after the widgets that are there.
    pub fn add_widget(&mut self, widget: Widget)
        ensures
            final(self).config.widgets@ == old(self).config.widgets@.push(widget),
            *final(self) == (App { config: final(self).config, ..*old(self) }),
    {
        self.config.add_widget(widget);
    }

    /// Whether some widget takes up the cell at `row` and `col`.
    pub fn is_position_occupied(&self, row: usize, col: usize) -> (occupied: bool)
        ensures
            occupied == self.config.spec_occupied(row as int, col as int),
    {
        self.config.is_position_occupied(row, col)
    }

    /// The first cell of the grid, row by row, that no widget takes up; the
    /// top left cell if every cell is taken up.
    pub fn find_next_grid_position(&self) -> (position: GridPosition)
        ensures
            self.next_position_is(position),
    {
        let mut row: usize = 0;
        while row < self.max_rows
            invariant
                row <= self.max_rows,
                forall|r: int, c: int|
                    0 <= r < row && 0 <= c < GRID_COLS ==> #[trigger] self.config.spec_occupied(
                        r,
                        c,
                    ),
            decreases self.max_rows - row,
        {
            let mut col: usize = 0;
            while col < GRID_COLS
                invariant
                    row < self.max_rows,
                    col <= GRID_COLS,
                    forall|r: int, c: int|
                        0 <= r < row && 0 <= c < GRID_COLS
                            ==> #[trigger] self.config.spec_occupied(r, c),
                    forall|c: int|
                        0 <= c < col ==> #[trigger] self.config.spec_occupied(row as int, c),
                decreases GRID_COLS - col,
            {
                if !self.is_position_occupied(row, col) {
                    return GridPosition::cell(row, col);
                }
                col += 1;
            }
            row += 1;
        }
        GridPosition::cell(0, 0)
    }

    /// Holds new values back, or lets them in again.
    pub fn toggle_pause(&mut self)
        ensures
            *final(self) == old(self).with_pause_toggled(),
    {
        self.paused = !self.paused;
    }

    /// Moves the selection by `row_delta` rows and `col_delta` columns, as far
    /// as the grid goes, starting from the top left cell if nothing was
    /// selected; and notes the activity at the time `now`.
    pub fn move_selection(&mut self, row_delta: isize, col_delta: isize, now: u128)
        requires
            old(self).max_rows >= 1,
        ensures
            *final(self) == old(self).with_selection_moved(
                row_delta as int,
                col_delta as int,
                now,
            ),
    {
        let (row, col) = match self.selected_cell {
            Some(cell) => cell,
            None => (0, 0),
        };
        let new_row = clamp(row as i128 + row_delta as i128, self.max_rows - 1);
        let new_col = clamp(col as i128 + col_delta as i128, GRID_COLS - 1);
        self.selected_cell = Some((new_row, new_col));
        self.update_activity(now);
    }

    /// Opens the settings of the selected cell, if a cell is selected.
    pub fn enter_cell_config(&mut self)
        ensures
            *final(self) == old(self).with_cell_config_entered(),
    {
        if self.selected_cell.is_some() {
            self.mode = Window::CellConfig;
        }
    }

    /// Goes back from the settings of a cell to the grid.
    pub fn exit_cell_config(&mut self)
        ensures
            *final(self) == old(self).with_mode(Window::Main),
    {
        self.mode = Window::Main;
    }

    /// The index of the widget at the selected cell.
    pub fn selected_widget_index(&self) -> (index: Option<usize>)
        ensures
            match index {
                Some(i) => self.selected_widget_is(i as int),
                None => self.no_selected_widget(),
            },
    {
        match self.selected_cell {
            Some((row, col)) => self.config.widget_index_at(row, col),
            None => None,
        }
    }

    /// The widget at the selected cell.
    pub fn get_widget_at_selected_cell(&self) -> (widget: Option<&Widget>)
        ensures
            match widget {
                Some(widget) => exists|i: int|
                    self.selected_widget_is(i) && *widget == self.config.widgets@[i],
                None => self.no_selected_widget(),
            },
    {
        match self.selected_widget_index() {
            Some(i) => Some(&self.config.widgets[i]),
            None => None,
        }
    }

    /// The widget at the selected cell, to be changed.
    pub fn get_widget_at_selected_cell_mut(&mut self) -> (widget: Option<&mut Widget>)
        ensures
            match widget {
                Some(widget) => exists|i: int|
                    old(self).selected_widget_is(i) && *widget == old(self).config.widgets@[i]
                        && final(self).config.widgets@ == old(self).config.widgets@.update(
                        i,
                        *final(widget),
                    ),
                None => old(self).no_selected_widget() && final(self).config == old(self).config,
            },
            *final(self) == (App { config: final(self).config, ..*old(self) }),
    {
        match self.selected_widget_index() {
            Some(i) => Some(&mut self.config.widgets[i]),
            None => None,
        }
    }

    /// Opens the editor of the selected widget's title, with the title as it
    /// is. Without a widget at the selected cell nothing happens.
    pub fn enter_label_edit(&mut self)
        ensures
            old(self).label_edit_entered(*final(self)),
    {
        match self.selected_widget_index() {
            Some(i) => {
                self.label_edit = self.config.widgets[i].label.clone();
                self.mode = Window::LabelEdit;
            },
            None => {},
        }
    }

    /// Goes back from the editor of a title to the settings of the cell.
    pub fn exit_label_edit(&mut self)
        ensures
            *final(self) == old(self).with_mode(Window::CellConfig),
    {
        self.mode = Window::CellConfig;
    }

    /// Gives the selected widget the title that was edited, and goes back to
    /// the settings of the cell. Says whether a widget was changed, so that
    /// the widgets can be stored.
    pub fn save_label(&mut self) -> (changed: bool)
        ensures
            old(self).label_saved(*final(self), changed),
    {
        let new_label = self.label_edit.clone();
        let changed = match self.get_widget_at_selected_cell_mut() {
            Some(widget) => {
                widget.label = new_label;
                true
            },
            None => false,
        };
        self.exit_label_edit();
        changed
    }

    /// Notes that a key was pressed at the time `now`: the selected cell is
    /// highlighted from then on.
    pub fn update_activity(&mut self, now: u128)
        ensures
            *final(self) == old(self).with_activity(now),
    {
        self.last_activity = now;
        self.highlight_visible = true;
    }

    /// Takes the highlight off the selected cell once more than
    /// [`HIGHLIGHT_SECONDS`] whole seconds have gone by since the last key.
    pub fn check_highlight_timeout(&mut self, now: u128)
        ensures
            *final(self) == old(self).with_highlight_checked(now),
    {
        if elapsed(self.last_activity, now) / NANOS_PER_SECOND > HIGHLIGHT_SECONDS {
            self.highlight_visible = false;
        }
    }

    /// Shows `value` as the note on a copied value, from the time `now`.
    pub fn set_copy_message(&mut self, value: String, now: u128)
        ensures
            *final(self) == (App {
                copy_message: Some(value),
                copy_message_timestamp: Some(now),
                ..*old(self)
            }),
    {
        self.copy_message = Some(value);
        self.copy_message_timestamp = Some(now);
    }

    /// Takes the note on a copied value away once it has shown for more than
    /// [`COPY_MESSAGE_NANOS`].
    pub fn check_copy_message_timeout(&mut self, now: u128)
        ensures
            *final(self) == old(self).with_copy_message_checked(now),
    {
        match self.copy_message_timestamp {
            Some(timestamp) => {
                if elapsed(timestamp, now) > COPY_MESSAGE_NANOS {
                    self.copy_message = None;
                    self.copy_message_timestamp = None;
                }
            },
            None => {},
        }
    }

    /// The value that the selected widget shows, if there is a widget at the
    /// selected cell and a value of its topic.
    pub fn selected_value(&self) -> (value: Option<&String>)
        ensures
            forall|i: int|
                self.selected_widget_is(i) ==> match value {
                    Some(value) => self.values@.contains_key(self.config.widgets@[i].topic@)
                        && self.values@[self.config.widgets@[i].topic@] == value@,
                    None => !self.values@.contains_key(self.config.widgets@[i].topic@),
                },
            self.no_selected_widget() ==> value is None,
    {
        match self.selected_widget_index() {
            Some(i) => self.values.get(self.config.widgets[i].topic.as_str()),
            None => None,
        }
    }

    /// What a widget of `topic` shows: the last value of the topic, or that
    /// there is none; and whether there is one.
    pub fn shown_value(&self, topic: &str) -> (shown: (String, bool))
        ensures
            shown.1 == self.values@.contains_key(topic@),
            shown.0@ == if self.values@.contains_key(topic@) {
                self.values@[topic@]
            } else {
                "No value"@
            },
    {
        match self.values.get(topic) {
            Some(value) => (value.clone(), true),
            None => ("No value".to_owned(), false),
        }
    }

    /// The topic and the title of the widget at the selected cell, as the
    /// settings of the cell show them.
    pub fn selected_widget_info(&self) -> (info: (String, String))
        ensures
            forall|i: int|
                self.selected_widget_is(i) ==> info.0 == self.config.widgets@[i].topic && info.1
                    == self.config.widgets@[i].label,
            self.no_selected_widget() ==> info.0@ == "No widget selected"@ && info.1@
                == Seq::<char>::empty(),
    {
        match self.selected_widget_index() {
            Some(i) => (self.config.widgets[i].topic.clone(), self.config.widgets[i].label.clone()),
            None => ("No widget selected".to_owned(), String::new()),
        }
    }

    /// Notes at the time `now` that `value` was put on the clipboard.
    pub fn copy_selected_value(&mut self, value: &str, now: u128)
        ensures
            final(self).copy_message matches Some(message) && message@ == copied_note(value@),
            *final(self) == (App {
                copy_message: final(self).copy_message,
                copy_message_timestamp: Some(now),
                ..*old(self)
            }),
    {
        self.set_copy_message("Copied: ".to_owned().concat(value), now);
    }

    /// Opens the search, with the matches looked up among the topics that
    /// are known.
    pub fn enter_fuzzy_search(&mut self)
        ensures
            old(self).search_entered(*final(self)),
    {
        self.mode = Window::FuzzySearch;
        self.fuzzy_search.update_matches(&self.available_topics);
    }

    /// Leaves the search for the grid, and forgets what was typed.
    pub fn exit_fuzzy_search(&mut self)
        ensures
            old(self).search_left(*final(self)),
    {
        self.mode = Window::Main;
        self.fuzzy_search.input = String::new();
    }

    /// Takes the chosen match of the search. See [`App::search_chosen`].
    pub fn handle_search_selection(&mut self) -> (topic: Option<String>)
        ensures
            old(self).search_chosen(*final(self), topic),
    {
        let selected_topic = match self.fuzzy_search.get_selected() {
            Some(topic) => topic.clone(),
            None => {
                return None;
            },
        };
        if self.mode == Window::CellConfig {
            match self.get_widget_at_selected_cell_mut() {
                Some(widget) => {
                    widget.topic = selected_topic.clone();
                    self.exit_fuzzy_search();
                    self.exit_cell_config();
                    return Some(selected_topic);
                },
                None => {},
            }
        }
        let widget = Widget {
            topic: selected_topic.clone(),
            label: selected_topic.clone(),
            widget_type: WidgetType::Text,
            position: self.find_next_grid_position(),
        };
        self.add_widget(widget);
        self.exit_fuzzy_search();
        Some(selected_topic)
    }

    /// Takes a key that was pressed at the time `now`, and says what is left
    /// to do outside the state. See [`App::key_handled`].
    pub fn handle_key(&mut self, press: KeyPress, now: u128) -> (outcome: Outcome)
        requires
            old(self).can_handle(press),
        ensures
            old(self).key_handled(press, now, *final(self), outcome),
    {
        self.update_activity(now);
        let mut outcome = Outcome { quit: false, store: false, chosen: None };
        match self.mode {
            Window::Main => match press.key {
                Key::Char(c) => {
                    if c == 'q' {
                        outcome.quit = true;
                    } else if c == 'a' {
                        self.enter_fuzzy_search();
                    } else if c == ' ' {
                        self.toggle_pause();
                    } else if c == 'h' {
                        self.move_selection(0, -1, now);
                    } else if c == 'j' {
                        self.move_selection(1, 0, now);
                    } else if c == 'k' {
                        self.move_selection(-1, 0, now);
                    } else if c == 'l' {
                        self.move_selection(0, 1, now);
                    }
                },
                Key::Enter => {
                    self.enter_cell_config();
                },
                _ => {},
            },
            Window::CellConfig => match press.key {
                Key::Esc => {
                    self.exit_cell_config();
                },
                Key::Char(c) => {
                    if c == 's' {
                        self.enter_fuzzy_search();
                    } else if c == 'l' {
                        self.enter_label_edit();
                    }
                },
                _ => {},
            },
            Window::FuzzySearch => match press.key {
                Key::Esc => {
                    self.exit_fuzzy_search();
                },
                Key::Char(c) => {
                    if press.control && c == 'k' {
                        self.fuzzy_search.move_selection(-1);
                    } else if press.control && c == 'j' {
                        self.fuzzy_search.move_selection(1);
                    } else {
                        push_char(&mut self.fuzzy_search.input, c);
                        self.fuzzy_search.update_matches(&self.available_topics);
                    }
                },
                Key::Enter => {
                    let chosen = self.handle_search_selection();
                    outcome.store = chosen.is_some();
                    outcome.chosen = chosen;
                },
                Key::Up => {
                    self.fuzzy_search.move_selection(-1);
                },
                Key::Down => {
                    self.fuzzy_search.move_selection(1);
                },
                Key::Backspace => {
                    pop_char(&mut self.fuzzy_search.input);
                    self.fuzzy_search.update_matches(&self.available_topics);
                },
                Key::Other => {},
            },
            Window::LabelEdit => match press.key {
                Key::Esc => {
                    self.exit_label_edit();
                },
                Key::Enter => {
                    outcome.store = self.save_label();
                },
                Key::Backspace => {
                    pop_char(&mut self.label_edit);
                },
                Key::Char(c) => {
                    push_char(&mut self.label_edit, c);
                },
                _ => {},
            },
        }
        outcome
    }

    /// Takes what came in from the connection. See [`App::update_applied`].
    pub fn apply_update(&mut self, update: NtUpdate)
        ensures
            old(self).update_applied(update, *final(self)),
    {
        match update {
            NtUpdate::Subscribed(topic, value) => {
                let name = topic.clone();
                if !self.paused {
                    self.values.insert(topic, value);
                }
                self.connection_status = ConnectionStatus::Connected;
                self.available_topics.insert(name);
                if self.mode == Window::FuzzySearch {
                    self.fuzzy_search.update_matches(&self.available_topics);
                }
            },
            NtUpdate::Publish(_, _) => {},
            NtUpdate::ConnectionStatus(status) => {
                self.connection_status = status;
            },
        }
    }

    /// Counts one tick of the clock of the screen, and lets the cursor of an
    /// open search blink every [`BLINK_TICKS`] ticks. Gives the count to go
    /// on with: a tick on which the cursor blinks counts twice.
    pub fn tick(&mut self, counter: i32) -> (next: i32)
        requires
            0 <= counter <= i32::MAX - 2,
        ensures
            old(self).blinks_at(counter) ==> next == counter + 2 && *final(self) == (App {
                cursor_visible: !old(self).cursor_visible,
                ..*old(self)
            }),
            !old(self).blinks_at(counter) ==> next == counter + 1 && *final(self) == *old(self),
    {
        let mut next = counter;
        if self.mode == Window::FuzzySearch && counter % BLINK_TICKS == 0 {
            next = next + 1;
            self.cursor_visible = !self.cursor_visible;
        }
        next + 1
    }
}

} // verus!
