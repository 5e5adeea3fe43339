//! The address field: a read-only display of the current path, or an
//! editable draft that may commit into a navigation.
use vstd::prelude::*;

verus! {

/// Whether the field shows the path or is being edited.
#[derive(Clone, Copy, PartialEq, Eq, Structural, Debug)]
pub enum AddressMode {
    Display,
    Editing,
}

/// The field's state. The draft only means anything while editing; it
/// is discarded on any way back to display mode.
pub struct AddressField {
    pub mode: AddressMode,
    pub draft: String,
}

impl AddressField {
    /// A fresh field, displaying, with an empty draft.
    pub fn new() -> (a: AddressField)
        ensures
            a.mode == AddressMode::Display,
            a.draft@ == Seq::<char>::empty(),
    {
        AddressField { mode: AddressMode::Display, draft: String::new() }
    }

    /// Starts editing: the draft is seeded with the current path.
    pub fn activate(&mut self, current_path: &str)
        ensures
            final(self).mode == AddressMode::Editing,
            final(self).draft@ == current_path@,
    {
        self.mode = AddressMode::Editing;
        self.draft = current_path.to_owned();
    }

    /// Replaces the draft with what the user typed; no navigation
    /// side effect.
    pub fn set_draft(&mut self, text: String)
        ensures
            final(self).mode == old(self).mode,
            final(self).draft == text,
    {
        self.draft = text;
    }

    /// Returns to display mode, the draft discarded.
    pub fn cancel(&mut self)
        ensures
            final(self).mode == AddressMode::Display,
            final(self).draft@ == Seq::<char>::empty(),
    {
        self.mode = AddressMode::Display;
        self.draft = String::new();
    }
}

} // verus!
