use dash89::config::{Config, GridPosition, Widget, WidgetType};
use dash89::ui::layout::{
    cell_config_popup, get_widget_area, label_edit_popup, label_input_text, matches_title,
    rows_that_fit, search_input_text, search_popup, space_warning, status_color, status_text,
    Area, StatusColor,
};
use dash89::ui::ConnectionStatus;

fn widget_at(row: usize, col: usize) -> Widget {
    Widget {
        topic: "/t".to_string(),
        label: "t".to_string(),
        widget_type: WidgetType::Text,
        position: GridPosition::cell(row, col),
    }
}

fn grid(rows: u16, cols: u16) -> Vec<Vec<Area>> {
    (0..rows)
        .map(|r| {
            (0..cols)
                .map(|c| Area { x: 1 + c * 20, y: r * 3, width: 20, height: 3 })
                .collect()
        })
        .collect()
}

#[test]
fn rows_are_three_cells_high() {
    assert_eq!(rows_that_fit(0), 0);
    assert_eq!(rows_that_fit(2), 0);
    assert_eq!(rows_that_fit(3), 1);
    assert_eq!(rows_that_fit(26), 8);
    assert_eq!(rows_that_fit(u16::MAX), 21845);
}

#[test]
fn a_warning_is_due_when_widgets_do_not_fit() {
    let mut config = Config::new();
    config.add_widget(widget_at(2, 0));
    config.add_widget(widget_at(9, 1));
    config.add_widget(widget_at(4, 1));
    assert_eq!(space_warning(&config, 10), None);
    assert_eq!(
        space_warning(&config, 9),
        Some("Warning: Not enough space for all widgets! (10 rows needed)".to_string())
    );
    assert_eq!(
        space_warning(&config, 0),
        Some("Warning: Not enough space for all widgets! (10 rows needed)".to_string())
    );
}

#[test]
fn an_empty_dashboard_needs_one_row() {
    let config = Config::new();
    assert_eq!(space_warning(&config, 1), None);
    assert_eq!(
        space_warning(&config, 0),
        Some("Warning: Not enough space for all widgets! (1 rows needed)".to_string())
    );
}

#[test]
fn a_widget_shows_if_it_begins_on_the_grid() {
    assert!(GridPosition::cell(7, 0).is_visible(8));
    assert!(!GridPosition::cell(8, 0).is_visible(8));
    assert!(!GridPosition::cell(0, 0).is_visible(0));
}

#[test]
fn a_single_cell_has_its_own_area() {
    let cells = grid(10, 5);
    assert_eq!(
        get_widget_area(&cells, &GridPosition::cell(2, 3)),
        Area { x: 61, y: 6, width: 20, height: 3 }
    );
}

#[test]
fn a_widget_of_several_cells_reaches_to_its_last_cell() {
    let cells = grid(10, 5);
    let position = GridPosition { row: 1, col: 1, row_span: 2, col_span: 3 };
    assert_eq!(
        get_widget_area(&cells, &position),
        Area { x: 21, y: 3, width: 60, height: 6 }
    );
}

#[test]
fn the_area_of_a_widget_ends_at_the_edge_of_the_grid() {
    let cells = grid(10, 5);
    let position = GridPosition { row: 8, col: 3, row_span: 5, col_span: 5 };
    assert_eq!(
        get_widget_area(&cells, &position),
        Area { x: 61, y: 24, width: 40, height: 6 }
    );
}

#[test]
fn the_search_window_is_in_the_middle() {
    let size = Area { x: 0, y: 0, width: 120, height: 40 };
    assert_eq!(search_popup(size), Area { x: 10, y: 10, width: 100, height: 20 });
    let size = Area { x: 0, y: 0, width: 80, height: 15 };
    assert_eq!(search_popup(size), Area { x: 0, y: 0, width: 80, height: 15 });
    let size = Area { x: 0, y: 0, width: 70, height: 10 };
    assert_eq!(search_popup(size), Area { x: 0, y: 0, width: 70, height: 10 });
    let size = Area { x: 5, y: 5, width: 101, height: 23 };
    assert_eq!(search_popup(size), Area { x: 0, y: 1, width: 100, height: 20 });
}

#[test]
fn the_settings_window_is_half_the_screen_wide() {
    let size = Area { x: 0, y: 0, width: 120, height: 40 };
    assert_eq!(cell_config_popup(size), Area { x: 30, y: 14, width: 60, height: 12 });
    let size = Area { x: 0, y: 0, width: 60, height: 12 };
    assert_eq!(cell_config_popup(size), Area { x: 5, y: 0, width: 50, height: 12 });
}

#[test]
fn the_editor_window_is_ten_rows_high() {
    let size = Area { x: 0, y: 0, width: 120, height: 40 };
    assert_eq!(label_edit_popup(size), Area { x: 30, y: 15, width: 60, height: 10 });
    let size = Area { x: 0, y: 0, width: 50, height: 10 };
    assert_eq!(label_edit_popup(size), Area { x: 0, y: 0, width: 50, height: 10 });
}

#[test]
fn the_status_line_tells_the_connection() {
    assert_eq!(
        status_text(false, ConnectionStatus::Connected),
        ("Connected", StatusColor::Green)
    );
    assert_eq!(
        status_text(true, ConnectionStatus::Connected),
        ("Paused", StatusColor::Yellow)
    );
    assert_eq!(
        status_text(false, ConnectionStatus::Connecting),
        ("Connecting...", StatusColor::Yellow)
    );
    assert_eq!(
        status_text(true, ConnectionStatus::Connecting),
        ("Connecting...", StatusColor::Yellow)
    );
    assert_eq!(
        status_text(true, ConnectionStatus::Disconnected),
        ("Disconnected", StatusColor::Red)
    );
}

#[test]
fn the_status_line_is_yellow_while_paused() {
    assert_eq!(status_color(true, ConnectionStatus::Connected), StatusColor::Yellow);
    assert_eq!(status_color(true, ConnectionStatus::Disconnected), StatusColor::Yellow);
    assert_eq!(status_color(false, ConnectionStatus::Connected), StatusColor::Green);
    assert_eq!(status_color(false, ConnectionStatus::Connecting), StatusColor::Yellow);
    assert_eq!(status_color(false, ConnectionStatus::Disconnected), StatusColor::Red);
}

#[test]
fn the_cursor_follows_what_was_typed() {
    assert_eq!(search_input_text("spe", true), "spe_");
    assert_eq!(search_input_text("spe", false), "spe");
    assert_eq!(search_input_text("", true), "_");
    assert_eq!(label_input_text("Speed", true), "Speed_");
    assert_eq!(label_input_text("Speed", false), "Speed ");
}

#[test]
fn the_list_of_matches_is_headed_by_their_number() {
    assert_eq!(matches_title(0), "Available Topics (0 found)");
    assert_eq!(matches_title(12), "Available Topics (12 found)");
}
