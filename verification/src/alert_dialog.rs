use vstd::prelude::*;
use crate::actions::{ActionProcessor, Actions};
use crate::dialog_interface::DialogInterface;
use crate::ui_element::{TypedUIElement, UIElementType};
use crate::unique_ids::create_const_hash;

verus! {

/// The buttons an alert dialog shows, as a set of flag bits: any
/// combination of OK, CANCEL, YES and NO.
#[derive(Clone, Copy, Eq, PartialEq, Structural)]
pub struct AlertDialogButton {
    pub bits: u8,
}

impl AlertDialogButton {
    /// The OK button's flag.
    pub fn ok() -> (r: Self)
        ensures
            r.bits == 0x01,
    {
        Self { bits: 0x01 }
    }

    /// The CANCEL button's flag.
    pub fn cancel() -> (r: Self)
        ensures
            r.bits == 0x02,
    {
        Self { bits: 0x02 }
    }

    /// The YES button's flag.
    pub fn yes() -> (r: Self)
        ensures
            r.bits == 0x04,
    {
        Self { bits: 0x04 }
    }

    /// The NO button's flag.
    pub fn no() -> (r: Self)
        ensures
            r.bits == 0x08,
    {
        Self { bits: 0x08 }
    }

    /// Whether every flag of `other` is set in `self`.
    pub open spec fn spec_contains(self, other: Self) -> bool {
        self.bits & other.bits == other.bits
    }

    /// Both button sets combined.
    pub fn union(self, other: Self) -> (r: Self)
        ensures
            r.bits == self.bits | other.bits,
    {
        Self { bits: self.bits | other.bits }
    }

    pub fn contains(&self, other: Self) -> (r: bool)
        ensures
            r == self.spec_contains(other),
    {
        self.bits & other.bits == other.bits
    }

    /// How many of the four buttons this set shows.
    pub open spec fn spec_count(self) -> int {
        (if self.spec_contains(AlertDialogButton { bits: 0x01 }) { 1int } else { 0int })
            + (if self.spec_contains(AlertDialogButton { bits: 0x02 }) { 1int } else { 0int })
            + (if self.spec_contains(AlertDialogButton { bits: 0x04 }) { 1int } else { 0int })
            + (if self.spec_contains(AlertDialogButton { bits: 0x08 }) { 1int } else { 0int })
    }

    pub fn count(&self) -> (r: u8)
        ensures
            r == self.spec_count(),
    {
        let mut count: u8 = 0;
        if self.contains(AlertDialogButton::ok()) {
            count += 1;
        }
        if self.contains(AlertDialogButton::cancel()) {
            count += 1;
        }
        if self.contains(AlertDialogButton::yes()) {
            count += 1;
        }
        if self.contains(AlertDialogButton::no()) {
            count += 1;
        }
        count
    }
}

/// The visual severity of an alert dialog.
#[derive(Clone, Copy, Eq, PartialEq, Structural)]
pub enum AlertDialogStyle {
    Default,
    Warning,
    Error,
}

struct AlertDialogState {
    opened: bool,
}

/// A modal alert: a message, a set of buttons, a severity, and optionally an
/// action to raise when the dialog is confirmed.
pub struct AlertDialog {
    state: AlertDialogState,
    message: String,
    buttons: AlertDialogButton,
    style: AlertDialogStyle,
    action_on_close: Option<Actions>,
}

impl AlertDialog {
    /// The message shown.
    pub closed spec fn spec_message(&self) -> Seq<char> {
        self.message.view()
    }

    /// The buttons shown.
    pub closed spec fn spec_buttons(&self) -> AlertDialogButton {
        self.buttons
    }

    /// The severity shown.
    pub closed spec fn spec_style(&self) -> AlertDialogStyle {
        self.style
    }

    /// The action still waiting to be raised on confirmation.
    pub closed spec fn spec_action_on_close(&self) -> Option<Actions> {
        self.action_on_close
    }

    /// A fresh alert, opened, showing `message` with the given buttons and
    /// severity; `on_confirm` is raised if the dialog is confirmed.
    pub fn new(
        message: String,
        buttons: AlertDialogButton,
        style: AlertDialogStyle,
        on_confirm: Option<Actions>,
    ) -> (r: Self)
        ensures
            r.spec_opened(),
            r.spec_message() == message.view(),
            r.spec_buttons() == buttons,
            r.spec_style() == style,
            r.spec_action_on_close() == on_confirm,
    {
        Self {
            state: AlertDialogState { opened: true },
            message,
            buttons,
            style,
            action_on_close: on_confirm,
        }
    }

    pub fn message(&self) -> (r: &String)
        ensures
            r.view() == self.spec_message(),
    {
        &self.message
    }

    pub fn buttons(&self) -> (r: AlertDialogButton)
        ensures
            r == self.spec_buttons(),
    {
        self.buttons
    }

    pub fn style(&self) -> (r: AlertDialogStyle)
        ensures
            r == self.spec_style(),
    {
        self.style
    }

    /// Confirmation: raises the pending action, if any, against the queue,
    /// and closes the dialog.
    pub fn confirm(&mut self, actions: &mut ActionProcessor)
        ensures
            !final(self).spec_opened(),
            final(self).spec_action_on_close() is None,
            match old(self).spec_action_on_close() {
                Some(a) => final(actions).view() == old(actions).view().push(a),
                None => final(actions).view() == old(actions).view(),
            },
    {
        match self.action_on_close.take() {
            Some(a) => actions.add(a),
            None => (),
        }
        self.state.opened = false;
    }
}

impl TypedUIElement for AlertDialog {
    fn get_type_type() -> UIElementType {
        UIElementType::new(
            "AlertDialog",
            create_const_hash("radio_log_store::alert_dialog", "alert_dialog", "AlertDialog"),
        )
    }
}

impl DialogInterface for AlertDialog {
    closed spec fn spec_opened(&self) -> bool {
        self.state.opened
    }

    fn set_opened(&mut self, opened: bool) {
        self.state.opened = opened;
    }

    fn is_opened(&self) -> (r: bool) {
        self.state.opened
    }
}

} // verus!
