//! The state of the dashboard and what each event does to it.
//!
//! Nothing here draws or reads a key: the program around the library hands
//! over what happened and shows the state that results.

pub mod app;
pub mod fuzzy;
pub mod layout;

use vstd::prelude::*;

verus! {

/// Whether the dashboard is in touch with the server.
#[derive(Debug, Clone, Copy, PartialEq, Eq, Structural)]
pub enum ConnectionStatus {
    /// Values are coming in.
    Connected,
    /// A connection is being set up.
    Connecting,
    /// There is no connection.
    Disconnected,
}

/// The window that has the keyboard.
#[derive(Debug, Clone, Copy, PartialEq, Eq, Structural)]
pub enum Window {
    /// The grid of widgets.
    Main,
    /// The search for a topic.
    FuzzySearch,
    /// The settings of the selected cell.
    CellConfig,
    /// The editor of the selected widget's title.
    LabelEdit,
}

/// A key of the keyboard, as far as the dashboard tells keys apart.
#[derive(Debug, Clone, Copy, PartialEq, Eq, Structural)]
pub enum Key {
    /// A key that types a character.
    Char(char),
    /// The enter key.
    Enter,
    /// The escape key.
    Esc,
    /// The up arrow.
    Up,
    /// The down arrow.
    Down,
    /// The backspace key.
    Backspace,
    /// Any other key.
    Other,
}

/// A key that was pressed.
#[derive(Debug, Clone, Copy, PartialEq, Eq, Structural)]
pub struct KeyPress {
    /// The key.
    pub key: Key,
    /// Whether the control key was held down with it.
    pub control: bool,
}

/// What is left to do, outside the state, after a key was handled.
#[derive(Debug, Clone)]
pub struct Outcome {
    /// Whether the dashboard is to close.
    pub quit: bool,
    /// Whether the widgets changed and are to be stored.
    pub store: bool,
    /// The topic that was chosen in the search, if one was.
    pub chosen: Option<String>,
}

impl Outcome {
    /// Nothing is left to do.
    pub open spec fn nothing() -> Outcome {
        Outcome { quit: false, store: false, chosen: None }
    }
}

} // verus!
