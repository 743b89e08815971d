//! What the form shows: the captions of its panes and the place of the
//! text cursor. Laying the panes out and drawing them is the caller's
//! part.

use crate::app::{App, AppView};
use crate::focus::Focus;
use crate::overlay::OverlayTarget;
use vstd::prelude::*;

verus! {

/// A pane that can show the text cursor.
#[derive(Clone, Copy, Debug, PartialEq, Eq, Structural)]
pub enum Pane {
    /// The pane of a field of the form.
    Field(Focus),
    /// The pane of the overlay.
    Overlay,
}

/// Where the text cursor shows: in which pane, and after how many bytes
/// of that pane's text.
#[derive(Clone, Copy, Debug, PartialEq, Eq, Structural)]
pub struct CursorSpot {
    pub pane: Pane,
    pub offset: usize,
}

impl Focus {
    /// The caption of the field's pane.
    pub open spec fn caption(self) -> Seq<char> {
        match self {
            Focus::Type => "Type  ( + to add )"@,
            Focus::Scope => "Scope  ( + to add )"@,
            Focus::Description => "Description"@,
            Focus::Body => "Body"@,
            Focus::Footer => "Footer"@,
        }
    }

    /// The caption of the field's pane. The two fields that take new
    /// values through the overlay say so.
    pub fn label(self) -> (text: &'static str)
        ensures
            text@ == self.caption(),
    {
        match self {
            Focus::Type => "Type  ( + to add )",
            Focus::Scope => "Scope  ( + to add )",
            Focus::Description => "Description",
            Focus::Body => "Body",
            Focus::Footer => "Footer",
        }
    }
}

impl OverlayTarget {
    /// The caption of the overlay.
    pub open spec fn caption(self) -> Seq<char> {
        match self {
            OverlayTarget::NewType => "New Type (Enter to save, Esc to cancel)"@,
            OverlayTarget::NewScope => "New Scope (Enter to save, Esc to cancel)"@,
        }
    }

    /// The caption of the overlay: what is being added and how to leave.
    pub fn title(self) -> (text: &'static str)
        ensures
            text@ == self.caption(),
    {
        match self {
            OverlayTarget::NewType => "New Type (Enter to save, Esc to cancel)",
            OverlayTarget::NewScope => "New Scope (Enter to save, Esc to cancel)",
        }
    }
}

impl AppView {
    /// Where the text cursor shows: in the overlay while one is open, else
    /// in the focused text field, and nowhere while the type selector is
    /// focused. The offset is the cursor of that text.
    pub open spec fn cursor_spot(self) -> Option<(Pane, nat)> {
        match self.overlay {
            Some(ov) => Some((Pane::Overlay, ov.input.cursor())),
            None => if self.focus == Focus::Type {
                None
            } else {
                Some((Pane::Field(self.focus), self.field(self.focus).cursor()))
            },
        }
    }
}

impl App {
    /// True if the pane of `field` is to be highlighted: it has the focus.
    pub fn is_highlighted(&self, field: Focus) -> (b: bool)
        ensures
            b == (self@.focus == field),
    {
        self.focus() == field
    }

    /// Where the text cursor shows, if anywhere.
    pub fn cursor_spot(&self) -> (spot: Option<CursorSpot>)
        requires
            self.wf(),
        ensures
            match spot {
                Some(at) => self@.cursor_spot() == Some((at.pane, at.offset as nat)),
                None => self@.cursor_spot() is None,
            },
    {
        match self.overlay() {
            Some(ov) => Some(CursorSpot { pane: Pane::Overlay, offset: ov.input.cursor() }),
            None => {
                let focus = self.focus();
                match focus {
                    Focus::Type => None,
                    Focus::Scope => Some(
                        CursorSpot { pane: Pane::Field(focus), offset: self.scope().cursor() },
                    ),
                    Focus::Description => Some(
                        CursorSpot {
                            pane: Pane::Field(focus),
                            offset: self.description().cursor(),
                        },
                    ),
                    Focus::Body => Some(
                        CursorSpot { pane: Pane::Field(focus), offset: self.body().cursor() },
                    ),
                    Focus::Footer => Some(
                        CursorSpot { pane: Pane::Field(focus), offset: self.footer().cursor() },
                    ),
                }
            },
        }
    }
}

/// The screen cell of the text cursor in a bordered pane whose top left
/// corner is at column `x`, row `y`: one cell in from the border, and
/// `offset` columns along the line. Coordinates wrap around at 65536.
pub fn cursor_cell(x: u16, y: u16, offset: usize) -> (cell: (u16, u16))
    ensures
        cell.0 == (x + 1 + offset) % 0x10000,
        cell.1 == (y + 1) % 0x10000,
{
    let column = (offset % 0x10000) as u16;
    (x.wrapping_add(1).wrapping_add(column), y.wrapping_add(1))
}

} // verus!
