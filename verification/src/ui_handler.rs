use vstd::prelude::*;
use crate::ui_element::UIElementType;

verus! {

/// The handle under which a host-side widget registry hands a widget back:
/// its position in the registry and the widget kind it was registered as.
#[derive(Debug, Eq, PartialEq, Clone, Copy, Hash)]
pub struct UIElementID {
    index: usize,
    element_type: UIElementType,
}

impl UIElementID {
    /// The registered position.
    pub closed spec fn spec_index(&self) -> usize {
        self.index
    }

    /// The registered widget kind.
    pub closed spec fn spec_element_type(&self) -> UIElementType {
        self.element_type
    }

    pub fn new(index: usize, element_type: UIElementType) -> (r: Self)
        ensures
            r.spec_index() == index,
            r.spec_element_type() == element_type,
    {
        Self { index, element_type }
    }

    pub fn index(&self) -> (r: usize)
        ensures
            r == self.spec_index(),
    {
        self.index
    }

    pub fn element_type(&self) -> (r: UIElementType)
        ensures
            r == self.spec_element_type(),
    {
        self.element_type
    }
}

} // verus!
