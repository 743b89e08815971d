//! The overlay: a one-line form on top of the main form, in which a new
//! type or a new scope is typed.

use crate::text_input::{TextInput, TextView};
use vstd::prelude::*;

verus! {

/// What the name typed into the overlay will become.
#[derive(Clone, Copy, Debug, PartialEq, Eq, Structural)]
pub enum OverlayTarget {
    NewType,
    NewScope,
}

/// An open overlay: its purpose and the text typed so far.
#[derive(Clone, Debug)]
pub struct Overlay {
    pub target: OverlayTarget,
    pub input: TextInput,
}

/// What an open overlay stands for.
pub struct OverlayView {
    pub target: OverlayTarget,
    pub input: TextView,
}

impl View for Overlay {
    type V = OverlayView;

    open spec fn view(&self) -> OverlayView {
        OverlayView { target: self.target, input: self.input@ }
    }
}

impl Overlay {
    /// The overlay's buffer is well formed.
    pub open spec fn wf(&self) -> bool {
        self.input.wf()
    }

    /// A fresh overlay with nothing typed.
    pub fn open(target: OverlayTarget) -> (ov: Overlay)
        ensures
            ov.wf(),
            ov@ == (OverlayView { target, input: TextView::empty() }),
    {
        Overlay { target, input: TextInput::new() }
    }
}

} // verus!
