//! The state of the form and the transitions that key presses trigger.
//!
//! Each transition is specified as a function on the form's abstract
//! value, `AppView`. The router `App::handle_key` picks the transition for
//! a key press and reports what the caller has to do next.

use crate::focus::Focus;
use crate::key::{edit, edited, Key, ADD_KEY};
use crate::message::{assemble, message};
use crate::overlay::{Overlay, OverlayTarget, OverlayView};
use crate::store::{listed_names, load_types, names, type_names};
use crate::text_input::{TextInput, TextView};
use crate::boundary::byte_len;
use crate::trim::{is_blank, lemma_trimmed_empty_iff_blank, trim, trimmed};
use vstd::prelude::*;
use vstd::string::StringExecFns;

verus! {

/// What the caller has to do after a key press.
#[derive(Clone, Debug, PartialEq, Eq)]
pub enum Action {
    /// Nothing but to show the form again and wait for the next key.
    Continue,
    /// The form is done: emit the commit message.
    Finish,
    /// A type of this name was added: record it among the types.
    PersistType(String),
    /// A scope of this name was entered: append it to the scope log.
    PersistScope(String),
}

/// What an action stands for.
pub enum ActionView {
    Continue,
    Finish,
    PersistType(Seq<char>),
    PersistScope(Seq<char>),
}

impl View for Action {
    type V = ActionView;

    open spec fn view(&self) -> ActionView {
        match self {
            Action::Continue => ActionView::Continue,
            Action::Finish => ActionView::Finish,
            Action::PersistType(name) => ActionView::PersistType(name@),
            Action::PersistScope(name) => ActionView::PersistScope(name@),
        }
    }
}

/// The state of the form: the types on offer and the selected one, the
/// four text fields, the focused field and the overlay, if one is open.
#[derive(Debug)]
pub struct App {
    types: Vec<String>,
    type_idx: usize,
    scope: TextInput,
    description: TextInput,
    body: TextInput,
    footer: TextInput,
    focus: Focus,
    overlay: Option<Overlay>,
}

/// What the state of the form stands for.
pub struct AppView {
    pub types: Seq<Seq<char>>,
    pub type_idx: nat,
    pub scope: TextView,
    pub description: TextView,
    pub body: TextView,
    pub footer: TextView,
    pub focus: Focus,
    pub overlay: Option<OverlayView>,
}

impl AppView {
    /// The form as it starts: the first type selected, all fields empty,
    /// the type selector focused and no overlay.
    pub open spec fn initial(types: Seq<Seq<char>>) -> AppView {
        AppView {
            types,
            type_idx: 0,
            scope: TextView::empty(),
            description: TextView::empty(),
            body: TextView::empty(),
            footer: TextView::empty(),
            focus: Focus::Type,
            overlay: None,
        }
    }

    /// The selection points at one of the types.
    pub open spec fn selection_in_range(self) -> bool {
        self.type_idx < self.types.len()
    }

    /// The text field that `focus` names; the type selector has none, and
    /// the scope stands in for it.
    pub open spec fn field(self, focus: Focus) -> TextView {
        match focus {
            Focus::Description => self.description,
            Focus::Body => self.body,
            Focus::Footer => self.footer,
            _ => self.scope,
        }
    }

    /// The form with the text field that `focus` names replaced by `text`;
    /// unchanged for the type selector.
    pub open spec fn with_field(self, focus: Focus, text: TextView) -> AppView {
        match focus {
            Focus::Type => self,
            Focus::Scope => AppView { scope: text, ..self },
            Focus::Description => AppView { description: text, ..self },
            Focus::Body => AppView { body: text, ..self },
            Focus::Footer => AppView { footer: text, ..self },
        }
    }

    /// The commit message that the form holds.
    pub open spec fn commit_message(self) -> Seq<char> {
        message(
            self.types[self.type_idx as int],
            self.scope.text(),
            self.description.text(),
            self.body.text(),
            self.footer.text(),
        )
    }

    /// The focus moves on by one field.
    pub open spec fn advance_focus(self) -> AppView {
        AppView { focus: self.focus.successor(), ..self }
    }

    /// The selection moves up by one type, and stays on the first.
    pub open spec fn select_previous(self) -> AppView {
        if self.type_idx > 0 {
            AppView { type_idx: (self.type_idx - 1) as nat, ..self }
        } else {
            self
        }
    }

    /// The selection moves down by one type, and stays on the last.
    pub open spec fn select_next(self) -> AppView {
        if self.type_idx + 1 < self.types.len() {
            AppView { type_idx: self.type_idx + 1, ..self }
        } else {
            self
        }
    }

    /// An empty overlay opens for a new type while the type selector is
    /// focused, for a new scope while the scope is focused. Elsewhere
    /// nothing happens.
    pub open spec fn open_overlay(self) -> AppView {
        match self.focus {
            Focus::Type => AppView {
                overlay: Some(
                    OverlayView { target: OverlayTarget::NewType, input: TextView::empty() },
                ),
                ..self
            },
            Focus::Scope => AppView {
                overlay: Some(
                    OverlayView { target: OverlayTarget::NewScope, input: TextView::empty() },
                ),
                ..self
            },
            _ => self,
        }
    }

    /// The overlay closes and what was typed into it is dropped.
    pub open spec fn cancel_overlay(self) -> AppView {
        AppView { overlay: None, ..self }
    }

    /// The overlay closes and the name typed into it, trimmed, takes
    /// effect. An empty name has none. A new type joins the end of the
    /// types and becomes the selection. A new scope becomes the scope
    /// field, cursor at its end, and the focus goes to the description.
    /// With no overlay open nothing happens.
    pub open spec fn confirm_overlay(self) -> (AppView, ActionView) {
        match self.overlay {
            None => (self, ActionView::Continue),
            Some(ov) => {
                let name = trimmed(ov.input.text());
                let closed = self.cancel_overlay();
                if name.len() == 0 {
                    (closed, ActionView::Continue)
                } else {
                    match ov.target {
                        OverlayTarget::NewType => (
                            AppView {
                                types: self.types.push(name),
                                type_idx: self.types.len(),
                                ..closed
                            },
                            ActionView::PersistType(name),
                        ),
                        OverlayTarget::NewScope => (
                            AppView {
                                scope: TextView::at_end(name),
                                focus: Focus::Description,
                                ..closed
                            },
                            ActionView::PersistScope(name),
                        ),
                    }
                }
            },
        }
    }

    /// The key acts on the text typed into the overlay.
    pub open spec fn edit_overlay(self, key: Key) -> AppView {
        match self.overlay {
            None => self,
            Some(ov) => AppView {
                overlay: Some(OverlayView { target: ov.target, input: edited(ov.input, key) }),
                ..self
            },
        }
    }

    /// The key acts on the focused text field; the type selector takes no
    /// text.
    pub open spec fn edit_field(self, key: Key) -> AppView {
        self.with_field(self.focus, edited(self.field(self.focus), key))
    }

    /// What a key press does while an overlay is open: the overlay takes
    /// every key and the form behind it is frozen.
    pub open spec fn overlay_step(self, key: Key) -> (AppView, ActionView) {
        match key {
            Key::Esc => (self.cancel_overlay(), ActionView::Continue),
            Key::Enter => self.confirm_overlay(),
            _ => (self.edit_overlay(key), ActionView::Continue),
        }
    }

    /// What a key press does while no overlay is open.
    pub open spec fn form_step(self, key: Key) -> (AppView, ActionView) {
        match key {
            Key::Tab => (self.advance_focus(), ActionView::Continue),
            Key::Up => (
                if self.focus == Focus::Type {
                    self.select_previous()
                } else {
                    self
                },
                ActionView::Continue,
            ),
            Key::Down => (
                if self.focus == Focus::Type {
                    self.select_next()
                } else {
                    self
                },
                ActionView::Continue,
            ),
            Key::Char(c) => (
                if c == ADD_KEY {
                    self.open_overlay()
                } else {
                    self.edit_field(key)
                },
                ActionView::Continue,
            ),
            Key::Enter | Key::Esc => (self, ActionView::Finish),
            _ => (self.edit_field(key), ActionView::Continue),
        }
    }

    /// What a key press does: the form after it, and what the caller has
    /// to do.
    pub open spec fn step(self, key: Key) -> (AppView, ActionView) {
        if self.overlay is Some {
            self.overlay_step(key)
        } else {
            self.form_step(key)
        }
    }
}

impl AppView {
    /// Five advances of the focus lead back to the field they started
    /// from, and change nothing else.
    pub proof fn lemma_focus_returns_after_five(self)
        ensures
            self.advance_focus().advance_focus().advance_focus().advance_focus().advance_focus()
                == self,
    {
    }

    /// No key press moves the selection off the list of types.
    pub proof fn lemma_selection_stays_in_range(self, key: Key)
        requires
            self.selection_in_range(),
        ensures
            self.step(key).0.selection_in_range(),
            self.select_previous().selection_in_range(),
            self.select_next().selection_in_range(),
    {
    }

    /// On the first type moving up changes nothing, and on the last type
    /// moving down changes nothing.
    pub proof fn lemma_selection_stops_at_ends(self)
        ensures
            self.type_idx == 0 ==> self.select_previous() == self,
            self.type_idx + 1 == self.types.len() ==> self.select_next() == self,
    {
    }

    /// Confirming an overlay whose text is empty or all white space only
    /// closes it: nothing is to be persisted and the rest of the form is
    /// as before.
    pub proof fn lemma_confirm_blank(self)
        requires
            self.overlay matches Some(ov) && is_blank(ov.input.text()),
        ensures
            self.confirm_overlay() == (self.cancel_overlay(), ActionView::Continue),
    {
        lemma_trimmed_empty_iff_blank(self.overlay->0.input.text());
    }

    /// Confirming an overlay for a new type, with a name that is not
    /// blank, appends exactly that name, trimmed, to the types, selects
    /// it, and asks the caller to persist it. The fields, the focus and
    /// the types that were there stay as they were.
    pub proof fn lemma_confirm_new_type(self)
        requires
            self.overlay matches Some(ov) && ov.target == OverlayTarget::NewType && !is_blank(
                ov.input.text(),
            ),
        ensures
            ({
                let name = trimmed(self.overlay->0.input.text());
                let (after, action) = self.confirm_overlay();
                &&& name.len() > 0
                &&& action == ActionView::PersistType(name)
                &&& after.types == self.types.push(name)
                &&& after.types.len() == self.types.len() + 1
                &&& after.type_idx == after.types.len() - 1
                &&& after.types[after.type_idx as int] == name
                &&& after.overlay is None
                &&& after == AppView {
                    types: after.types,
                    type_idx: after.type_idx,
                    overlay: None,
                    ..self
                }
            }),
    {
        lemma_trimmed_empty_iff_blank(self.overlay->0.input.text());
    }

    /// Confirming an overlay for a new scope, with a name that is not
    /// blank, makes the trimmed name the scope, cursor at its end, moves
    /// the focus to the description, and asks the caller to log the name.
    /// The types and the selection stay as they were.
    pub proof fn lemma_confirm_new_scope(self)
        requires
            self.overlay matches Some(ov) && ov.target == OverlayTarget::NewScope && !is_blank(
                ov.input.text(),
            ),
        ensures
            ({
                let name = trimmed(self.overlay->0.input.text());
                let (after, action) = self.confirm_overlay();
                &&& name.len() > 0
                &&& action == ActionView::PersistScope(name)
                &&& after.scope.text() == name
                &&& after.scope.cursor() == byte_len(name)
                &&& after == AppView {
                    scope: TextView::at_end(name),
                    focus: Focus::Description,
                    overlay: None,
                    ..self
                }
            }),
    {
        lemma_trimmed_empty_iff_blank(self.overlay->0.input.text());
    }

    /// While an overlay is open it takes every key: unless the key
    /// confirms the overlay, the types, the selection, the four fields and
    /// the focus stay as they were, and the caller has nothing to do.
    pub proof fn lemma_overlay_captures_keys(self, key: Key)
        requires
            self.overlay is Some,
            key != Key::Enter,
        ensures
            self.step(key).1 == ActionView::Continue,
            self.step(key).0 == (AppView { overlay: self.step(key).0.overlay, ..self }),
    {
    }
}

impl View for App {
    type V = AppView;

    closed spec fn view(&self) -> AppView {
        AppView {
            types: names(self.types@),
            type_idx: self.type_idx as nat,
            scope: self.scope@,
            description: self.description@,
            body: self.body@,
            footer: self.footer@,
            focus: self.focus,
            overlay: match self.overlay {
                Some(ov) => Some(ov@),
                None => None,
            },
        }
    }
}

impl App {
    /// Every text buffer of the form is well formed.
    pub closed spec fn buffers_wf(&self) -> bool {
        &&& self.scope.wf()
        &&& self.description.wf()
        &&& self.body.wf()
        &&& self.footer.wf()
        &&& self.overlay matches Some(ov) ==> ov.wf()
    }

    /// The invariant of the form: its buffers are well formed and the
    /// selection points at one of the types, so there is at least one.
    pub open spec fn wf(&self) -> bool {
        &&& self.buffers_wf()
        &&& self@.selection_in_range()
    }

    /// The form as it starts, offering the types that the directory
    /// listing yields: the listed names, or the built-in ones where the
    /// listing is missing or empty.
    pub fn new(listing: Option<Vec<String>>) -> (app: App)
        ensures
            app.wf(),
            app@ == AppView::initial(type_names(listed_names(listing))),
    {
        App {
            types: load_types(listing),
            type_idx: 0,
            scope: TextInput::new(),
            description: TextInput::new(),
            body: TextInput::new(),
            footer: TextInput::new(),
            focus: Focus::Type,
            overlay: None,
        }
    }

    /// Checks the invariant at run time: true if the selection points at
    /// one of the types and every cursor lies on a character boundary.
    pub fn is_valid(&self) -> (ok: bool)
        ensures
            ok == self.wf(),
    {
        let overlay_ok = match &self.overlay {
            Some(ov) => ov.input.is_valid(),
            None => true,
        };
        self.type_idx < self.types.len() && self.scope.is_valid() && self.description.is_valid()
            && self.body.is_valid() && self.footer.is_valid() && overlay_ok
    }

    /// The commit message for the form as it stands: the selected type and
    /// the four fields, verbatim.
    pub fn commit_message(&self) -> (msg: String)
        requires
            self.wf(),
        ensures
            msg@ == self@.commit_message(),
    {
        assemble(
            self.types[self.type_idx].as_str(),
            self.scope.value(),
            self.description.value(),
            self.body.value(),
            self.footer.value(),
        )
    }

    /// The types on offer, in order.
    pub fn types(&self) -> (types: &Vec<String>)
        ensures
            names(types@) == self@.types,
    {
        &self.types
    }

    /// The index of the selected type.
    pub fn type_idx(&self) -> (idx: usize)
        ensures
            idx == self@.type_idx,
    {
        self.type_idx
    }

    /// The scope field.
    pub fn scope(&self) -> (input: &TextInput)
        ensures
            input@ == self@.scope,
            self.wf() ==> input.wf(),
    {
        &self.scope
    }

    /// The description field.
    pub fn description(&self) -> (input: &TextInput)
        ensures
            input@ == self@.description,
            self.wf() ==> input.wf(),
    {
        &self.description
    }

    /// The body field.
    pub fn body(&self) -> (input: &TextInput)
        ensures
            input@ == self@.body,
            self.wf() ==> input.wf(),
    {
        &self.body
    }

    /// The footer field.
    pub fn footer(&self) -> (input: &TextInput)
        ensures
            input@ == self@.footer,
            self.wf() ==> input.wf(),
    {
        &self.footer
    }

    /// The field that has the focus.
    pub fn focus(&self) -> (focus: Focus)
        ensures
            focus == self@.focus,
    {
        self.focus
    }

    /// The overlay, if one is open.
    pub fn overlay(&self) -> (overlay: Option<&Overlay>)
        ensures
            match overlay {
                Some(ov) => self@.overlay == Some(ov@) && (self.wf() ==> ov.wf()),
                None => self@.overlay is None,
            },
    {
        self.overlay.as_ref()
    }

    /// Moves the focus to the next field of the ring.
    pub fn advance_focus(&mut self)
        requires
            old(self).wf(),
        ensures
            final(self).wf(),
            final(self)@ == old(self)@.advance_focus(),
    {
        self.focus = self.focus.next();
    }

    /// Selects the type above the selected one. On the first type nothing
    /// changes.
    pub fn select_previous(&mut self)
        requires
            old(self).wf(),
        ensures
            final(self).wf(),
            final(self)@ == old(self)@.select_previous(),
            old(self)@.type_idx == 0 ==> *final(self) == *old(self),
    {
        if self.type_idx > 0 {
            self.type_idx = self.type_idx - 1;
        }
    }

    /// Selects the type below the selected one. On the last type nothing
    /// changes.
    pub fn select_next(&mut self)
        requires
            old(self).wf(),
        ensures
            final(self).wf(),
            final(self)@ == old(self)@.select_next(),
            old(self)@.type_idx + 1 == old(self)@.types.len() ==> *final(self) == *old(self),
    {
        let count = self.types.len();
        if self.type_idx + 1 < count {
            self.type_idx = self.type_idx + 1;
        }
    }

    /// Closes the overlay and drops what was typed into it.
    pub fn cancel_overlay(&mut self)
        requires
            old(self).wf(),
        ensures
            final(self).wf(),
            final(self)@ == old(self)@.cancel_overlay(),
    {
        self.overlay = None;
    }

    /// Closes the overlay and puts the trimmed name into effect: see
    /// `AppView::confirm_overlay`. The action tells the caller which name,
    /// if any, to persist.
    pub fn confirm_overlay(&mut self) -> (action: Action)
        requires
            old(self).wf(),
        ensures
            final(self).wf(),
            (final(self)@, action@) == old(self)@.confirm_overlay(),
    {
        match self.overlay.take() {
            None => Action::Continue,
            Some(ov) => {
                let name = trim(ov.input.value());
                if name.is_empty() {
                    Action::Continue
                } else {
                    match ov.target {
                        OverlayTarget::NewType => {
                            let ghost before = self.types@;
                            self.types.push(String::from_str(name));
                            self.type_idx = self.types.len() - 1;
                            proof {
                                assert(names(self.types@) =~= names(before).push(name@));
                            }
                            Action::PersistType(String::from_str(name))
                        },
                        OverlayTarget::NewScope => {
                            self.scope = TextInput::from(String::from_str(name));
                            self.focus = Focus::Description;
                            Action::PersistScope(String::from_str(name))
                        },
                    }
                }
            },
        }
    }

    /// Routes one key press: to the overlay while one is open, else to the
    /// form. Returns what the caller has to do next.
    pub fn handle_key(&mut self, key: Key) -> (action: Action)
        requires
            old(self).wf(),
        ensures
            final(self).wf(),
            (final(self)@, action@) == old(self)@.step(key),
    {
        if self.overlay.is_some() {
            match key {
                Key::Esc => {
                    self.cancel_overlay();
                    Action::Continue
                },
                Key::Enter => self.confirm_overlay(),
                _ => {
                    match &mut self.overlay {
                        Some(ov) => edit(&mut ov.input, key),
                        None => {},
                    }
                    Action::Continue
                },
            }
        } else {
            match key {
                Key::Tab => {
                    self.advance_focus();
                    Action::Continue
                },
                Key::Up => {
                    if self.focus == Focus::Type {
                        self.select_previous();
                    }
                    Action::Continue
                },
                Key::Down => {
                    if self.focus == Focus::Type {
                        self.select_next();
                    }
                    Action::Continue
                },
                Key::Char(c) if c == ADD_KEY => {
                    maybe_open_overlay(self);
                    Action::Continue
                },
                Key::Enter | Key::Esc => Action::Finish,
                _ => {
                    match current_input_mut(self) {
                        Some(input) => edit(input, key),
                        None => {},
                    }
                    Action::Continue
                },
            }
        }
    }
}

/// The text buffer that has the focus, or `None` while the type selector
/// has it. What the caller does to the buffer is done to that field of
/// the form and to nothing else.
pub fn current_input_mut(app: &mut App) -> (input: Option<&mut TextInput>)
    ensures
        match input {
            Some(field) => {
                &&& old(app)@.focus != Focus::Type
                &&& field@ == old(app)@.field(old(app)@.focus)
                &&& old(app).wf() ==> field.wf()
                &&& final(app)@ == old(app)@.with_field(old(app)@.focus, final(field)@)
                &&& old(app).wf() && final(field).wf() ==> final(app).wf()
            },
            None => old(app)@.focus == Focus::Type && *final(app) == *old(app),
        },
{
    match app.focus {
        Focus::Scope => Some(&mut app.scope),
        Focus::Description => Some(&mut app.description),
        Focus::Body => Some(&mut app.body),
        Focus::Footer => Some(&mut app.footer),
        _ => None,
    }
}

/// Opens an empty overlay for a new type while the type selector is
/// focused, for a new scope while the scope is focused. With the focus
/// elsewhere the request is ignored.
pub fn maybe_open_overlay(app: &mut App)
    requires
        old(app).wf(),
    ensures
        final(app).wf(),
        final(app)@ == old(app)@.open_overlay(),
        old(app)@.focus != Focus::Type && old(app)@.focus != Focus::Scope ==> *final(app) == *old(
            app,
        ),
{
    match app.focus {
        Focus::Type => {
            app.overlay = Some(Overlay::open(OverlayTarget::NewType));
        },
        Focus::Scope => {
            app.overlay = Some(Overlay::open(OverlayTarget::NewScope));
        },
        _ => {},
    }
}

} // verus!
