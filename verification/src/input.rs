use vstd::prelude::*;
use vstd::string::*;
use crate::text::push_char;
use crate::ui_element::{EventResult, TypedUIElement, UIElementType};
use crate::unique_ids::create_const_hash;

verus! {

/// One editing gesture against a text input, as the host decodes it from a
/// key event.
#[derive(Debug, Clone, Copy)]
pub enum InputOp {
    Insert(char),
    Backspace,
    DeleteForward,
    Left,
    Right,
    Home,
    End,
}

/// A single-line text input: its content, an optional label, a focus flag,
/// and a cursor measured in characters from the left edge.
#[derive(Debug)]
pub struct Input {
    content: String,
    label: Option<String>,
    is_focused: bool,
    cursor_pos: usize,
}

impl Input {
    /// The edited text.
    pub closed spec fn spec_content(&self) -> Seq<char> {
        self.content.view()
    }

    /// The label shown around the field, if any.
    pub closed spec fn spec_label(&self) -> Option<Seq<char>> {
        match self.label {
            Some(l) => Some(l.view()),
            None => None,
        }
    }

    /// Whether the field currently takes keystrokes.
    pub closed spec fn spec_focused(&self) -> bool {
        self.is_focused
    }

    /// The cursor's character position.
    pub closed spec fn spec_cursor(&self) -> usize {
        self.cursor_pos
    }

    /// Well-formedness: the cursor stands inside or just past the content.
    pub open spec fn wf(&self) -> bool {
        self.spec_cursor() <= self.spec_content().len()
    }

    /// Labels the field, builder style.
    pub fn set_label(self, label: String) -> (r: Self)
        ensures
            r.spec_label() == Some(label.view()),
            r.spec_content() == self.spec_content(),
            r.spec_focused() == self.spec_focused(),
            r.spec_cursor() == self.spec_cursor(),
    {
        Self { label: Some(label), ..self }
    }

    pub fn set_focused(&mut self, focused: bool)
        ensures
            final(self).spec_focused() == focused,
            final(self).spec_content() == old(self).spec_content(),
            final(self).spec_label() == old(self).spec_label(),
            final(self).spec_cursor() == old(self).spec_cursor(),
    {
        self.is_focused = focused;
    }

    /// Empties the field and parks the cursor at the left edge.
    pub fn clear(&mut self)
        ensures
            final(self).spec_content().len() == 0,
            final(self).spec_cursor() == 0,
            final(self).spec_label() == old(self).spec_label(),
            final(self).spec_focused() == old(self).spec_focused(),
            final(self).wf(),
    {
        self.content = String::new();
        self.cursor_pos = 0;
    }

    /// Replaces the content and parks the cursor past its last character.
    pub fn set(&mut self, content: String)
        ensures
            final(self).spec_content() == content.view(),
            final(self).spec_cursor() == content.view().len(),
            final(self).spec_label() == old(self).spec_label(),
            final(self).spec_focused() == old(self).spec_focused(),
            final(self).wf(),
    {
        self.cursor_pos = content.as_str().unicode_len();
        self.content = content;
    }

    /// The edited text, for the caller to read.
    pub fn get(&self) -> (r: &String)
        ensures
            r.view() == self.spec_content(),
    {
        &self.content
    }

    /// The label, for the host to draw.
    pub fn label(&self) -> (r: &Option<String>)
        ensures
            match r {
                Some(l) => self.spec_label() == Some(l.view()),
                None => self.spec_label() is None,
            },
    {
        &self.label
    }

    /// Whether the field currently takes keystrokes, for the host to draw.
    pub fn focused(&self) -> (r: bool)
        ensures
            r == self.spec_focused(),
    {
        self.is_focused
    }

    /// The cursor's character position, for the host to draw.
    pub fn cursor(&self) -> (r: usize)
        ensures
            r == self.spec_cursor(),
    {
        self.cursor_pos
    }

    /// Inserts one character at the cursor and moves the cursor past it.
    fn insert_char(&mut self, c: char)
        requires
            old(self).wf(),
            old(self).spec_content().len() < usize::MAX,
        ensures
            final(self).spec_content() == old(self).spec_content().insert(
                old(self).spec_cursor() as int,
                c,
            ),
            final(self).spec_cursor() == old(self).spec_cursor() + 1,
            final(self).spec_label() == old(self).spec_label(),
            final(self).spec_focused() == old(self).spec_focused(),
            final(self).wf(),
    {
        let n = self.content.as_str().unicode_len();
        let pre = self.content.as_str().substring_char(0, self.cursor_pos);
        let mut fresh = pre.to_owned();
        push_char(&mut fresh, c);
        let post = self.content.as_str().substring_char(self.cursor_pos, n);
        fresh.append(post);
        proof {
            assert(fresh.view() =~= self.content.view().insert(self.cursor_pos as int, c));
        }
        self.content = fresh;
        self.cursor_pos = self.cursor_pos + 1;
    }

    /// Deletes the character left of the cursor, if any, and moves the
    /// cursor onto its place.
    fn delete_char(&mut self)
        requires
            old(self).wf(),
        ensures
            old(self).spec_cursor() > 0 ==> {
                &&& final(self).spec_content() == old(self).spec_content().remove(
                    old(self).spec_cursor() - 1,
                )
                &&& final(self).spec_cursor() == old(self).spec_cursor() - 1
            },
            old(self).spec_cursor() == 0 ==> *final(self) == *old(self),
            final(self).spec_label() == old(self).spec_label(),
            final(self).spec_focused() == old(self).spec_focused(),
            final(self).wf(),
    {
        if self.cursor_pos > 0 {
            let n = self.content.as_str().unicode_len();
            let pre = self.content.as_str().substring_char(0, self.cursor_pos - 1);
            let mut fresh = pre.to_owned();
            let post = self.content.as_str().substring_char(self.cursor_pos, n);
            fresh.append(post);
            proof {
                assert(fresh.view() =~= self.content.view().remove(self.cursor_pos - 1));
            }
            self.content = fresh;
            self.cursor_pos = self.cursor_pos - 1;
        }
    }

    /// Deletes the character under the cursor, if any; the cursor stays.
    fn delete_char_forward(&mut self)
        requires
            old(self).wf(),
        ensures
            old(self).spec_cursor() < old(self).spec_content().len() ==> final(self).spec_content() == old(self).spec_content().remove(old(self).spec_cursor() as int),
            old(self).spec_cursor() >= old(self).spec_content().len() ==> *final(self) == *old(self),
            final(self).spec_cursor() == old(self).spec_cursor(),
            final(self).spec_label() == old(self).spec_label(),
            final(self).spec_focused() == old(self).spec_focused(),
            final(self).wf(),
    {
        let n = self.content.as_str().unicode_len();
        if self.cursor_pos < n {
            let pre = self.content.as_str().substring_char(0, self.cursor_pos);
            let mut fresh = pre.to_owned();
            let post = self.content.as_str().substring_char(self.cursor_pos + 1, n);
            fresh.append(post);
            proof {
                assert(fresh.view() =~= self.content.view().remove(self.cursor_pos as int));
            }
            self.content = fresh;
        }
    }

    /// Moves the cursor one character right, stopping at the end.
    fn cursor_next(&mut self)
        requires
            old(self).wf(),
        ensures
            final(self).spec_cursor() == (if old(self).spec_cursor() < old(self).spec_content().len() {
                old(self).spec_cursor() + 1
            } else {
                old(self).spec_cursor() as int
            }),
            final(self).spec_content() == old(self).spec_content(),
            final(self).spec_label() == old(self).spec_label(),
            final(self).spec_focused() == old(self).spec_focused(),
            final(self).wf(),
    {
        let n = self.content.as_str().unicode_len();
        if self.cursor_pos < n {
            self.cursor_pos = self.cursor_pos + 1;
        }
    }

    /// Moves the cursor one character left, stopping at the start.
    fn cursor_prev(&mut self)
        requires
            old(self).wf(),
        ensures
            final(self).spec_cursor() == (if old(self).spec_cursor() > 0 {
                old(self).spec_cursor() - 1
            } else {
                0int
            }),
            final(self).spec_content() == old(self).spec_content(),
            final(self).spec_label() == old(self).spec_label(),
            final(self).spec_focused() == old(self).spec_focused(),
            final(self).wf(),
    {
        if self.cursor_pos > 0 {
            self.cursor_pos = self.cursor_pos - 1;
        }
    }

    /// Applies one editing gesture: an unfocused field ignores it and
    /// reports `NOOP`; a focused field performs it and reports `Handled`.
    pub fn handle_op(&mut self, op: InputOp) -> (r: EventResult)
        requires
            old(self).wf(),
        ensures
            final(self).wf(),
            final(self).spec_label() == old(self).spec_label(),
            final(self).spec_focused() == old(self).spec_focused(),
            !old(self).spec_focused() ==> r is NOOP && *final(self) == *old(self),
            old(self).spec_focused() ==> r is Handled,
            old(self).spec_focused() ==> match op {
                InputOp::Insert(c) => if old(self).spec_content().len() < usize::MAX {
                    final(self).spec_content() == old(self).spec_content().insert(
                        old(self).spec_cursor() as int,
                        c,
                    ) && final(self).spec_cursor() == old(self).spec_cursor() + 1
                } else {
                    *final(self) == *old(self)
                },
                InputOp::Backspace => if old(self).spec_cursor() > 0 {
                    final(self).spec_content() == old(self).spec_content().remove(
                        old(self).spec_cursor() - 1,
                    ) && final(self).spec_cursor() == old(self).spec_cursor() - 1
                } else {
                    *final(self) == *old(self)
                },
                InputOp::DeleteForward => final(self).spec_cursor() == old(self).spec_cursor()
                    && if old(self).spec_cursor() < old(self).spec_content().len() {
                    final(self).spec_content() == old(self).spec_content().remove(
                        old(self).spec_cursor() as int,
                    )
                } else {
                    *final(self) == *old(self)
                },
                InputOp::Left => final(self).spec_content() == old(self).spec_content() && final(self).spec_cursor() == (if old(self).spec_cursor() > 0 {
                    old(self).spec_cursor() - 1
                } else {
                    0int
                }),
                InputOp::Right => final(self).spec_content() == old(self).spec_content() && final(self).spec_cursor() == (if old(self).spec_cursor() < old(self).spec_content().len() {
                    old(self).spec_cursor() + 1
                } else {
                    old(self).spec_cursor() as int
                }),
                InputOp::Home => final(self).spec_content() == old(self).spec_content() && final(self).spec_cursor() == 0,
                InputOp::End => final(self).spec_content() == old(self).spec_content() && final(self).spec_cursor() == old(self).spec_content().len(),
            },
    {
        if !self.is_focused {
            return EventResult::NOOP;
        }
        match op {
            InputOp::Insert(c) => {
                let n = self.content.as_str().unicode_len();
                if n < usize::MAX {
                    self.insert_char(c);
                }
            },
            InputOp::Backspace => self.delete_char(),
            InputOp::DeleteForward => self.delete_char_forward(),
            InputOp::Left => self.cursor_prev(),
            InputOp::Right => self.cursor_next(),
            InputOp::Home => {
                self.cursor_pos = 0;
            },
            InputOp::End => {
                self.cursor_pos = self.content.as_str().unicode_len();
            },
        }
        EventResult::Handled
    }
}

impl TypedUIElement for Input {
    fn get_type_type() -> UIElementType {
        UIElementType::new("Input", create_const_hash("radio_log_store::input", "input", "Input"))
    }
}

impl Default for Input {
    /// An empty, unlabelled, unfocused field.
    fn default() -> (r: Self)
        ensures
            r.spec_content().len() == 0,
            r.spec_label() is None,
            !r.spec_focused(),
            r.spec_cursor() == 0,
            r.wf(),
    {
        Input { content: String::new(), label: None, is_focused: false, cursor_pos: 0 }
    }
}

} // verus!
