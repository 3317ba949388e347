use vstd::prelude::*;

verus! {

/// The input fields of the log-entry dialog, in focus order; `LAST` marks
/// the field count and is never shown.
#[derive(PartialEq, Eq, Structural, Debug, Clone, Copy)]
pub enum InputFields {
    Call,
    QTH,
    Code,
    LAST,
}

impl InputFields {
    /// The field's position in the dialog's input list.
    pub open spec fn spec_index(self) -> int {
        match self {
            InputFields::Call => 0,
            InputFields::QTH => 1,
            InputFields::Code => 2,
            InputFields::LAST => 3,
        }
    }

    pub fn index(self) -> (r: usize)
        ensures
            r == self.spec_index(),
    {
        match self {
            InputFields::Call => 0,
            InputFields::QTH => 1,
            InputFields::Code => 2,
            InputFields::LAST => 3,
        }
    }

    /// The field standing at a given position; positions at or past `LAST`
    /// name no field.
    pub fn from_index(value: u8) -> (r: Self)
        requires
            value < 3,
        ensures
            r.spec_index() == value,
    {
        if value == 0 {
            InputFields::Call
        } else if value == 1 {
            InputFields::QTH
        } else {
            InputFields::Code
        }
    }

    /// The field's display label.
    pub fn label(self) -> (r: &'static str)
        ensures
            match self {
                InputFields::Call => r.view() == "Call"@,
                InputFields::QTH => r.view() == "QTH"@,
                InputFields::Code => r.view() == "Code"@,
                InputFields::LAST => r.view() == "LAST"@,
            },
    {
        match self {
            InputFields::Call => "Call",
            InputFields::QTH => "QTH",
            InputFields::Code => "Code",
            InputFields::LAST => "LAST",
        }
    }

    /// The next field in focus order, wrapping from the last shown field
    /// back to the first.
    pub fn next(self) -> (r: InputFields)
        ensures
            r.spec_index() == (self.spec_index() + 1) % 3,
    {
        match self {
            InputFields::Call => InputFields::QTH,
            InputFields::QTH => InputFields::Code,
            InputFields::Code => InputFields::Call,
            InputFields::LAST => InputFields::QTH,
        }
    }

    /// The previous field in focus order, wrapping from the first shown
    /// field back to the last.
    pub fn prev(self) -> (r: InputFields)
        ensures
            r.spec_index() == (if self.spec_index() == 0 {
                2int
            } else {
                (self.spec_index() - 1) % 3
            }),
    {
        match self {
            InputFields::Call => InputFields::Code,
            InputFields::QTH => InputFields::Call,
            InputFields::Code => InputFields::QTH,
            InputFields::LAST => InputFields::Code,
        }
    }
}

} // verus!
