use vstd::prelude::*;
use crate::logs::LogEntry;
use crate::ui_element::{TypedUIElement, UIElementType};
use crate::unique_ids::create_const_hash;

verus! {

/// The detail pane's own state: the record it currently describes, if any.
struct DetailsWindowState {
    selected_log: Option<LogEntry>,
}

/// The read-only pane showing one contact-log record's details.
pub struct DetailsWindow {
    state: DetailsWindowState,
}

impl DetailsWindow {
    /// The record currently described, if any.
    pub closed spec fn spec_selected_log(&self) -> Option<LogEntry> {
        self.state.selected_log
    }

    /// Points the pane at one record.
    pub fn set_log(&mut self, log: LogEntry)
        ensures
            final(self).spec_selected_log() == Some(log),
    {
        self.state.selected_log = Some(log);
    }

    /// The record currently described, for the host to draw.
    pub fn selected_log(&self) -> (r: &Option<LogEntry>)
        ensures
            *r == self.spec_selected_log(),
    {
        &self.state.selected_log
    }
}

impl TypedUIElement for DetailsWindow {
    fn get_type_type() -> UIElementType {
        UIElementType::new(
            "DetailsWindow",
            create_const_hash("radio_log_store::details_window", "details_window", "DetailsWindow"),
        )
    }
}

impl Default for DetailsWindow {
    /// A pane describing nothing yet.
    fn default() -> (r: Self)
        ensures
            r.spec_selected_log() is None,
    {
        DetailsWindow { state: DetailsWindowState { selected_log: None } }
    }
}

} // verus!
