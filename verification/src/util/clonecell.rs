//! A cell whose content is read by cloning it.

use vstd::prelude::*;

verus! {

/// Holds a value that is handed out as clones.
pub struct CloneCell<TContentType> {
    content: TContentType,
}

impl<TContentType: Clone> CloneCell<TContentType> {
    /// The value held.
    pub closed spec fn content(&self) -> TContentType {
        self.content
    }

    /// A cell that holds `value`.
    #[inline]
    pub fn new(value: TContentType) -> (r: CloneCell<TContentType>)
        ensures
            r.content() == value,
    {
        CloneCell { content: value }
    }

    /// A clone of the value held.
    #[inline]
    pub fn get(&self) -> (r: TContentType)
        ensures
            cloned(self.content(), r),
    {
        self.content.clone()
    }

    /// Replaces the value held.
    #[inline]
    pub fn set(&mut self, new_value: TContentType)
        ensures
            final(self).content() == new_value,
    {
        self.content = new_value;
    }
}

} // verus!
