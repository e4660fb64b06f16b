//! What a plugin hands back on every tick.

use vstd::prelude::*;

verus! {

/// One LED's color: blue, green, red and alpha, in that order.
pub type Pixel = [u8; 4];

/// Update retrieved from a plugin on every call of its update operation.
#[derive(Clone, Debug)]
pub struct PluginUpdate {
    /// State of each LED in the matrix: rows from top to bottom, each row
    /// holding its LEDs from left to right.
    pub state: Vec<Vec<Pixel>>,
    /// Whether the plugin is done providing updates. Once this is set the
    /// host shows this last frame and moves on to the next plugin.
    pub done: bool,
    /// Lines that the host logs on the plugin's behalf, in this order.
    pub log_message: Option<Vec<String>>,
}

/// A plugin update as plain mathematical data.
pub struct PluginUpdateView {
    pub state: Seq<Seq<Pixel>>,
    pub done: bool,
    pub log_message: Option<Seq<Seq<char>>>,
}

/// The rows of a frame, each as a sequence of pixels.
pub open spec fn grid_view(state: Seq<Vec<Pixel>>) -> Seq<Seq<Pixel>> {
    Seq::new(state.len(), |row: int| state[row]@)
}

/// The lines of a log batch, each as a sequence of characters.
pub open spec fn lines_view(lines: Seq<String>) -> Seq<Seq<char>> {
    Seq::new(lines.len(), |i: int| lines[i]@)
}

/// An optional log batch as plain data: present exactly when the batch is.
pub open spec fn log_view(log_message: Option<Vec<String>>) -> Option<Seq<Seq<char>>> {
    match log_message {
        Some(lines) => Some(lines_view(lines@)),
        None => None,
    }
}

impl View for PluginUpdate {
    type V = PluginUpdateView;

    open spec fn view(&self) -> PluginUpdateView {
        PluginUpdateView {
            state: grid_view(self.state@),
            done: self.done,
            log_message: log_view(self.log_message),
        }
    }
}

impl PluginUpdate {
    /// The view of the update that `default()` returns: no rows, not done,
    /// nothing to log.
    pub open spec fn default_view() -> PluginUpdateView {
        PluginUpdateView { state: Seq::empty(), done: false, log_message: None }
    }
}

impl Default for PluginUpdate {
    fn default() -> (update: Self)
        ensures
            update@ == PluginUpdate::default_view(),
    {
        let update = PluginUpdate { state: Vec::new(), done: false, log_message: None };
        assert(update@.state =~= Seq::empty());
        update
    }
}

} // verus!
