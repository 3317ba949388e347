use vstd::prelude::*;
use vstd::string::*;
use crate::actions::{ActionProcessor, Actions};
use crate::data_store::DataStore;
use crate::database::Database;
use crate::races::Race;

verus! {

/// The race-management dialog's own state: whether it is shown and which
/// race, if any, its form is editing.
pub struct ManageRacesDialogState {
    opened: bool,
    edited_race_id: Option<i64>,
}

impl ManageRacesDialogState {
    /// Whether the dialog is shown.
    pub closed spec fn spec_opened(&self) -> bool {
        self.opened
    }

    /// The race being edited, if the form edits rather than creates.
    pub closed spec fn spec_edited_race_id(&self) -> Option<i64> {
        self.edited_race_id
    }

    pub fn set_opened(&mut self, opened: bool)
        ensures
            final(self).spec_opened() == opened,
            final(self).spec_edited_race_id() == old(self).spec_edited_race_id(),
    {
        self.opened = opened;
    }

    pub fn is_opened(&self) -> (r: bool)
        ensures
            r == self.spec_opened(),
    {
        self.opened
    }

    pub fn set_edited_race_id(&mut self, id: Option<i64>)
        ensures
            final(self).spec_edited_race_id() == id,
            final(self).spec_opened() == old(self).spec_opened(),
    {
        self.edited_race_id = id;
    }

    pub fn edited_race_id(&self) -> (r: Option<i64>)
        ensures
            r == self.spec_edited_race_id(),
    {
        self.edited_race_id
    }

    /// Commits the race form: a name under three characters is rejected
    /// with a notification and nothing changes; otherwise an edit rewrites
    /// the remembered race with the form's text and forgets it, and a
    /// creation adds a fresh race stamped `now_secs`. A write-through
    /// failure, or a remembered race that has vanished, is queued as an
    /// error notification.
    pub fn save_form(
        &mut self,
        db: &mut Database,
        races: &mut DataStore<Race>,
        name: String,
        my_location: String,
        my_call: String,
        now_secs: u32,
        actions: &mut ActionProcessor,
    )
        requires
            old(races).wf(),
        ensures
            final(races).wf(),
            name.view().len() < 3 ==> *final(races) == *old(races) && *final(self) == *old(self)
                && final(actions).view().len() == old(actions).view().len() + 1,
    {
        if name.as_str().unicode_len() < 3 {
            actions.add(
                Actions::ShowError(
                    "You have to provide race name with at least 3 characters".to_owned(),
                ),
            );
            return;
        }

        match self.edited_race_id {
            Some(race_id) => {
                let found: Option<Race> = match races.get(race_id) {
                    Some(race) => Some(race.clone()),
                    None => None,
                };
                match found {
                    Some(mut race) => {
                        race.my_call = my_call;
                        race.my_location = my_location;
                        race.name = name;
                        let result = races.edit(db, race);
                        self.edited_race_id = None;
                        match result {
                            Ok(_) => (),
                            Err(e) => {
                                let mut msg = "Error managing race: ".to_owned();
                                let detail = e.describe();
                                msg.append(detail.as_str());
                                actions.add(Actions::ShowError(msg));
                            },
                        }
                    },
                    None => {
                        actions.add(
                            Actions::ShowError("Unable to update selected race".to_owned()),
                        );
                    },
                }
            },
            None => {
                let fresh = Race {
                    id: 0,
                    create_time: now_secs,
                    name,
                    my_location,
                    my_call,
                };
                match races.add(db, fresh) {
                    Ok(_) => (),
                    Err(e) => {
                        let mut msg = "Error managing race: ".to_owned();
                        let detail = e.describe();
                        msg.append(detail.as_str());
                        actions.add(Actions::ShowError(msg));
                    },
                }
            },
        }
    }
}

impl Default for ManageRacesDialogState {
    /// Hidden, editing nothing.
    fn default() -> (r: Self)
        ensures
            !r.spec_opened(),
            r.spec_edited_race_id() is None,
    {
        Self { opened: false, edited_race_id: None }
    }
}

} // verus!
