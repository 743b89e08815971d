//! The focus ring: which of the five form fields receives key presses.

use vstd::prelude::*;

verus! {

/// The field that currently receives keyboard input.
#[derive(Clone, Copy, Debug, PartialEq, Eq, Structural)]
pub enum Focus {
    Type,
    Scope,
    Description,
    Body,
    Footer,
}

impl Focus {
    /// The successor of `self` in the ring
    /// `Type -> Scope -> Description -> Body -> Footer -> Type`.
    pub open spec fn successor(self) -> Focus {
        match self {
            Focus::Type => Focus::Scope,
            Focus::Scope => Focus::Description,
            Focus::Description => Focus::Body,
            Focus::Body => Focus::Footer,
            Focus::Footer => Focus::Type,
        }
    }

    /// Advances the focus by one position; the ring wraps after `Footer`.
    pub fn next(self) -> (r: Focus)
        ensures
            r == self.successor(),
    {
        match self {
            Focus::Type => Focus::Scope,
            Focus::Scope => Focus::Description,
            Focus::Description => Focus::Body,
            Focus::Body => Focus::Footer,
            Focus::Footer => Focus::Type,
        }
    }

    /// Advancing never stays in place, and five advances from any field
    /// lead back to that field: the ring has exactly five positions.
    pub proof fn lemma_ring_of_five(self)
        ensures
            self.successor() != self,
            self.successor().successor().successor().successor().successor() == self,
    {
    }
}

} // verus!
