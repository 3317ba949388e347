use vstd::prelude::*;
use crate::alert_dialog::AlertDialogStyle;

verus! {

/// A deferred UI command: widgets queue these against the action processor
/// and the host replays them against the stores and dialogs once per tick.
pub enum Actions {
    DeleteLog(i64),
    DeleteRace(i64),
    ShowError(String),
    ShowConfirm(String, AlertDialogStyle, Box<Actions>),
    CreateLogWanted,
    FocusLog(Option<i64>),
    EditLog(i64),
    ToggleMap,
}

impl Clone for Actions {
    /// An exact copy, confirmation payload included.
    fn clone(&self) -> (r: Self)
        ensures
            r == self,
        decreases self,
    {
        match self {
            Actions::DeleteLog(id) => Actions::DeleteLog(*id),
            Actions::DeleteRace(id) => Actions::DeleteRace(*id),
            Actions::ShowError(msg) => Actions::ShowError(msg.clone()),
            Actions::ShowConfirm(msg, style, then) => Actions::ShowConfirm(
                msg.clone(),
                *style,
                Box::new((**then).clone()),
            ),
            Actions::CreateLogWanted => Actions::CreateLogWanted,
            Actions::FocusLog(id) => Actions::FocusLog(*id),
            Actions::EditLog(id) => Actions::EditLog(*id),
            Actions::ToggleMap => Actions::ToggleMap,
        }
    }
}

/// The queue of pending actions, in the order they were raised.
///
/// Its view is the pending sequence.
pub struct ActionProcessor {
    pending: Vec<Actions>,
}

impl View for ActionProcessor {
    type V = Seq<Actions>;

    closed spec fn view(&self) -> Seq<Actions> {
        self.pending.view()
    }
}

impl Default for ActionProcessor {
    /// An empty queue.
    fn default() -> (r: Self)
        ensures
            r.view().len() == 0,
    {
        ActionProcessor { pending: Vec::new() }
    }
}

impl ActionProcessor {
    /// Queues one action at the end.
    pub fn add(&mut self, action: Actions)
        ensures
            final(self).view() == old(self).view().push(action),
    {
        self.pending.push(action);
    }

    /// The pending actions, oldest first, for the host's replay loop.
    pub fn iter(&self) -> (r: &Vec<Actions>)
        ensures
            r.view() == self.view(),
    {
        &self.pending
    }

    /// Drops every pending action.
    pub fn clear(&mut self)
        ensures
            final(self).view().len() == 0,
    {
        self.pending.clear();
    }
}

} // verus!
