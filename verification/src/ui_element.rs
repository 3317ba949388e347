use vstd::prelude::*;

verus! {

/// How a widget answered an event: it consumed it, declined it, or was not
/// in a state to receive it at all.
#[derive(PartialEq, Eq)]
pub enum EventResult {
    Handled,
    NotHandled,
    NOOP,
}

/// Why drawing a widget failed.
#[derive(Debug)]
pub enum RenderError {
    LayoutError,
    AlreadyRendered,
}

impl RenderError {
    /// A short description for a user-visible notification.
    pub fn describe(&self) -> (r: &'static str)
        ensures
            self is LayoutError ==> r.view() == "Failed to layout UI element"@,
            self is AlreadyRendered ==> r.view() == "Element was already rendered this frame"@,
    {
        match self {
            RenderError::LayoutError => "Failed to layout UI element",
            RenderError::AlreadyRendered => "Element was already rendered this frame",
        }
    }
}

pub type RenderResult = Result<(), RenderError>;

/// The identity of one widget kind: a display name and a hash that is
/// unique per kind.
#[derive(Debug, Eq, PartialEq, Clone, Copy, Hash)]
pub struct UIElementType {
    uid: u64,
    name: &'static str,
}

impl UIElementType {
    /// The kind's unique hash.
    pub closed spec fn spec_uid(&self) -> u64 {
        self.uid
    }

    /// The kind's display name.
    pub closed spec fn spec_name(&self) -> Seq<char> {
        self.name.view()
    }

    pub fn new(name: &'static str, uid: u64) -> (r: Self)
        ensures
            r.spec_uid() == uid,
            r.spec_name() == name.view(),
    {
        Self { uid, name }
    }
}

/// A widget kind that can name its own `UIElementType`.
pub trait TypedUIElement {
    fn get_type_type() -> UIElementType;
}

} // verus!
