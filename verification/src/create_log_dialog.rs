use vstd::prelude::*;
use vstd::string::*;
use crate::actions::{ActionProcessor, Actions};
use crate::data_store::DataStore;
use crate::db_object::DataStoreTrait;
use crate::database::Database;
use crate::dialog_interface::DialogInterface;
use crate::input::{Input, InputOp};
use crate::input_fields::InputFields;
use crate::logs::LogEntry;
use crate::text::i64_text;
use crate::ui_element::{EventResult, TypedUIElement, UIElementType};
use crate::unique_ids::create_const_hash;

verus! {

/// The dialog's own state: whether it is shown and which field holds the
/// focus.
pub struct CreateLogDialogState {
    opened: bool,
    current_input: InputFields,
}

impl CreateLogDialogState {
    /// Whether the dialog is shown.
    pub closed spec fn spec_opened(&self) -> bool {
        self.opened
    }

    /// The field holding the focus.
    pub closed spec fn spec_current_input(&self) -> InputFields {
        self.current_input
    }
}

impl Default for CreateLogDialogState {
    /// Hidden, with the call-sign field focused.
    fn default() -> (r: Self)
        ensures
            !r.spec_opened(),
            r.spec_current_input() == InputFields::Call,
    {
        Self { opened: false, current_input: InputFields::Call }
    }
}

/// The dialog through which a contact-log record is created or edited: one
/// text input per field, and, when editing, the identity of the record
/// being edited.
pub struct CreateLogDialog {
    state: CreateLogDialogState,
    log_to_edit: Option<i64>,
    inputs: Vec<Input>,
}

impl CreateLogDialog {
    /// The field currently holding the focus.
    pub closed spec fn spec_current_input(&self) -> InputFields {
        self.state.current_input
    }

    /// The identity of the record being edited, if the dialog edits rather
    /// than creates.
    pub closed spec fn spec_log_to_edit(&self) -> Option<i64> {
        self.log_to_edit
    }

    /// The text currently held by one field.
    pub closed spec fn spec_field(&self, field: InputFields) -> Seq<char> {
        self.inputs.view()[field.spec_index()].spec_content()
    }

    /// True when `v` carries the form's text: the call sign, locator and
    /// exchange code fields, the code always present.
    pub open spec fn spec_form_entry(&self, v: LogEntry) -> bool {
        &&& v.call.view() == self.spec_field(InputFields::Call)
        &&& v.locator.view() == self.spec_field(InputFields::QTH)
        &&& v.code matches Some(c) && c.view() == self.spec_field(InputFields::Code)
    }

    /// Well-formedness: one input per shown field, each input well formed,
    /// and the focus on a shown field.
    pub closed spec fn wf(&self) -> bool {
        &&& self.inputs.view().len() == 3
        &&& self.state.current_input.spec_index() < 3
        &&& forall|i: int| 0 <= i < 3 ==> (#[trigger] self.inputs.view()[i]).wf()
    }

    /// The field currently holding the focus, for the host's key routing.
    pub fn current_input(&self) -> (r: InputFields)
        ensures
            r == self.spec_current_input(),
    {
        self.state.current_input
    }

    /// The inputs in field order, for the host to draw.
    pub fn inputs(&self) -> (r: &Vec<Input>)
        ensures
            self.wf() ==> r.view().len() == 3,
            forall|f: InputFields|
                0 <= #[trigger] f.spec_index() < r.view().len() ==> r.view()[f.spec_index()].spec_content()
                    == self.spec_field(f),
    {
        &self.inputs
    }

    /// The text of one field, for the host to read.
    pub fn get_field(&self, field: InputFields) -> (r: &String)
        requires
            self.wf(),
            field.spec_index() < 3,
        ensures
            r.view() == self.spec_field(field),
    {
        self.inputs[field.index()].get()
    }

    /// Replaces the text of one field.
    pub fn set_field(&mut self, field: InputFields, value: String)
        requires
            old(self).wf(),
            field.spec_index() < 3,
        ensures
            final(self).wf(),
            final(self).spec_field(field) == value.view(),
            forall|other: InputFields|
                #[trigger] other.spec_index() < 3 && other.spec_index() != field.spec_index()
                    ==> final(self).spec_field(other) == old(self).spec_field(other),
            final(self).spec_current_input() == old(self).spec_current_input(),
            final(self).spec_log_to_edit() == old(self).spec_log_to_edit(),
            final(self).spec_opened() == old(self).spec_opened(),
    {
        let idx = field.index();
        self.inputs[idx].set(value);
    }

    /// Moves the focus flag from the previously focused field to `field`.
    pub fn set_focus(&mut self, field: InputFields)
        requires
            old(self).wf(),
            field.spec_index() < 3,
        ensures
            final(self).wf(),
            final(self).spec_current_input() == field,
            forall|f: InputFields| #[trigger]
                f.spec_index() < 3 ==> final(self).spec_field(f) == old(self).spec_field(f),
            final(self).spec_log_to_edit() == old(self).spec_log_to_edit(),
            final(self).spec_opened() == old(self).spec_opened(),
    {
        let old_idx = self.state.current_input.index();
        self.inputs[old_idx].set_focused(false);
        self.state.current_input = field;
        let new_idx = self.state.current_input.index();
        self.inputs[new_idx].set_focused(true);
    }

    /// The input currently holding the focus, for the host to inspect.
    pub fn get_focused(&self) -> (r: &Input)
        requires
            self.wf(),
        ensures
            r.spec_content() == self.spec_field(self.spec_current_input()),
    {
        &self.inputs[self.state.current_input.index()]
    }

    /// Hands one editing gesture to the focused field.
    pub fn focused_op(&mut self, op: InputOp) -> (r: EventResult)
        requires
            old(self).wf(),
        ensures
            final(self).wf(),
            final(self).spec_current_input() == old(self).spec_current_input(),
            final(self).spec_log_to_edit() == old(self).spec_log_to_edit(),
            final(self).spec_opened() == old(self).spec_opened(),
    {
        let idx = self.state.current_input.index();
        self.inputs[idx].handle_op(op)
    }

    /// Starts editing an existing record: opens the dialog, loads its
    /// fields from the record, and remembers the record's identity.
    pub fn edit(&mut self, log: &LogEntry)
        requires
            old(self).wf(),
        ensures
            final(self).wf(),
            final(self).spec_opened(),
            final(self).spec_field(InputFields::Call) == log.call.view(),
            final(self).spec_field(InputFields::QTH) == log.locator.view(),
            final(self).spec_field(InputFields::Code) == (match log.code {
                Some(c) => c.view(),
                None => Seq::<char>::empty(),
            }),
            final(self).spec_log_to_edit() == Some(log.id),
            final(self).spec_current_input() == old(self).spec_current_input(),
    {
        self.state.opened = true;
        self.set_field(InputFields::Call, log.call.clone());
        let code: String = match &log.code {
            Some(c) => c.clone(),
            None => String::new(),
        };
        self.set_field(InputFields::Code, code);
        self.set_field(InputFields::QTH, log.locator.clone());
        self.log_to_edit = Some(log.id);
    }

    /// Empties every field and puts the focus back on the call sign.
    pub fn clear_form(&mut self)
        requires
            old(self).wf(),
        ensures
            final(self).wf(),
            forall|f: InputFields| #[trigger]
                f.spec_index() < 3 ==> final(self).spec_field(f).len() == 0,
            final(self).spec_current_input() == InputFields::Call,
            final(self).spec_log_to_edit() == old(self).spec_log_to_edit(),
            final(self).spec_opened() == old(self).spec_opened(),
    {
        let mut idx: usize = 0;
        while idx < 3
            invariant
                0 <= idx <= 3,
                self.wf(),
                forall|i: int| 0 <= i < idx ==> self.inputs.view()[i].spec_content().len() == 0,
                self.state.current_input == old(self).spec_current_input(),
                self.state.opened == old(self).spec_opened(),
                self.log_to_edit == old(self).spec_log_to_edit(),
            decreases 3 - idx,
        {
            self.inputs[idx].clear();
            idx += 1;
        }
        self.set_focus(InputFields::Call);
    }

    /// Dismisses the dialog: the form is emptied and the edited identity
    /// forgotten.
    fn close_form(&mut self)
        requires
            old(self).wf(),
        ensures
            final(self).wf(),
            !final(self).spec_opened(),
            final(self).spec_log_to_edit() is None,
            final(self).spec_current_input() == InputFields::Call,
    {
        self.clear_form();
        self.log_to_edit = None;
        self.state.opened = false;
    }

    /// Commits the form: an edit rewrites the remembered record with the
    /// fields' text; a creation adds a fresh record stamped `now_secs` and
    /// tied to the current grouping event. A failure of the write-through
    /// store is queued as an error notification. Either way the dialog
    /// closes.
    pub fn save(
        &mut self,
        db: &mut Database,
        logs: &mut DataStore<LogEntry>,
        current_race_id: Option<i64>,
        now_secs: u32,
        actions: &mut ActionProcessor,
    )
        requires
            old(self).wf(),
            old(logs).wf(),
        ensures
            final(self).wf(),
            final(logs).wf(),
            !final(self).spec_opened(),
            final(self).spec_log_to_edit() is None,
            match old(self).spec_log_to_edit() {
                None => ({
                    ||| (final(logs).view().len() == old(logs).view().len() + 1
                        && final(logs).view().subrange(0, old(logs).view().len() as int)
                        == old(logs).view()
                        && old(self).spec_form_entry(final(logs).view().last())
                        && final(logs).view().last().time == now_secs
                        && final(logs).view().last().race_id == current_race_id
                        && final(actions).view() == old(actions).view())
                    ||| (*final(logs) == *old(logs) && final(actions).view().len()
                        == old(actions).view().len() + 1)
                }),
                Some(row_id) => ({
                    ||| (exists|i: int|
                        0 <= i < old(logs).view().len()
                            && (#[trigger] old(logs).view()[i]).spec_id() == row_id
                            && final(logs).view() == old(logs).view().update(
                            i,
                            final(logs).view()[i],
                        ) && old(self).spec_form_entry(final(logs).view()[i])
                            && final(logs).view()[i].spec_id() == row_id
                            && final(actions).view() == old(actions).view())
                    ||| (*final(logs) == *old(logs) && final(actions).view().len()
                        == old(actions).view().len() + 1)
                }),
            },
    {
        match self.log_to_edit {
            Some(row_id) => {
                let found: Option<LogEntry> = match logs.get(row_id) {
                    Some(log) => Some(log.clone()),
                    None => None,
                };
                match found {
                    Some(mut log) => {
                        log.call = self.get_field(InputFields::Call).clone();
                        log.locator = self.get_field(InputFields::QTH).clone();
                        log.code = Some(self.get_field(InputFields::Code).clone());
                        match logs.edit(db, log) {
                            Ok(_) => (),
                            Err(e) => {
                                let mut msg = "Error: ".to_owned();
                                let detail = e.describe();
                                msg.append(detail.as_str());
                                actions.add(Actions::ShowError(msg));
                            },
                        }
                    },
                    None => {
                        let mut msg = "Error: Log with id ".to_owned();
                        let id_text = i64_text(row_id);
                        msg.append(id_text.as_str());
                        msg.append(" not found");
                        actions.add(Actions::ShowError(msg));
                    },
                }
            },
            None => {
                let entry = LogEntry {
                    id: 0,
                    time: now_secs,
                    call: self.get_field(InputFields::Call).clone(),
                    locator: self.get_field(InputFields::QTH).clone(),
                    code: Some(self.get_field(InputFields::Code).clone()),
                    race_id: current_race_id,
                };
                match logs.add(db, entry) {
                    Ok(_) => (),
                    Err(e) => {
                        let mut msg = "Error creating log: ".to_owned();
                        let detail = e.describe();
                        msg.append(detail.as_str());
                        actions.add(Actions::ShowError(msg));
                    },
                }
            },
        }
        self.close_form();
    }
}

impl Default for CreateLogDialog {
    /// A hidden dialog with one empty, labelled input per field, the call
    /// sign focused.
    fn default() -> (r: Self)
        ensures
            r.wf(),
            !r.spec_opened(),
            r.spec_current_input() == InputFields::Call,
            r.spec_log_to_edit() is None,
            forall|f: InputFields| #[trigger]
                f.spec_index() < 3 ==> r.spec_field(f).len() == 0,
    {
        let mut inputs: Vec<Input> = Vec::new();
        let mut idx: u8 = 0;
        while idx < 3
            invariant
                0 <= idx <= 3,
                inputs.view().len() == idx,
                forall|i: int|
                    0 <= i < idx ==> (#[trigger] inputs.view()[i]).wf()
                        && inputs.view()[i].spec_content().len() == 0,
            decreases 3 - idx,
        {
            let field = InputFields::from_index(idx);
            inputs.push(Input::default().set_label(field.label().to_owned()));
            idx += 1;
        }
        let mut me = Self {
            state: CreateLogDialogState::default(),
            log_to_edit: None,
            inputs,
        };
        me.set_focus(InputFields::Call);
        me
    }
}

impl TypedUIElement for CreateLogDialog {
    fn get_type_type() -> UIElementType {
        UIElementType::new(
            "CreateLogDialog",
            create_const_hash(
                "radio_log_store::create_log_dialog",
                "create_log_dialog",
                "CreateLogDialog",
            ),
        )
    }
}

impl DialogInterface for CreateLogDialog {
    closed spec fn spec_opened(&self) -> bool {
        self.state.opened
    }

    fn set_opened(&mut self, opened: bool) {
        self.state.opened = opened;
    }

    fn is_opened(&self) -> (r: bool) {
        self.state.opened
    }

    /// Opening anew always means creating: any remembered identity is
    /// dropped.
    fn open(&mut self) {
        self.log_to_edit = None;
        self.set_opened(true);
    }

    /// Dismissal through the common dialog surface: empties the form,
    /// forgets the edited identity, and hides the dialog.
    fn close(&mut self) {
        let count = self.inputs.len();
        let mut idx: usize = 0;
        while idx < count
            invariant
                count == self.inputs.view().len(),
            decreases count - idx,
        {
            self.inputs[idx].clear();
            self.inputs[idx].set_focused(false);
            idx += 1;
        }
        self.state.current_input = InputFields::Call;
        if 0 < self.inputs.len() {
            self.inputs[0].set_focused(true);
        }
        self.log_to_edit = None;
        self.state.opened = false;
    }
}

} // verus!
