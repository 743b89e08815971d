use pre_form::app::App;
use pre_form::focus::Focus;
use pre_form::key::Key;
use pre_form::overlay::OverlayTarget;
use pre_form::screen::{cursor_cell, CursorSpot, Pane};

fn type_all(app: &mut App, text: &str) {
    for c in text.chars() {
        app.handle_key(Key::Char(c));
    }
}

#[test]
fn pane_labels() {
    assert_eq!(Focus::Type.label(), "Type  ( + to add )");
    assert_eq!(Focus::Scope.label(), "Scope  ( + to add )");
    assert_eq!(Focus::Description.label(), "Description");
    assert_eq!(Focus::Body.label(), "Body");
    assert_eq!(Focus::Footer.label(), "Footer");
}

#[test]
fn overlay_titles() {
    assert_eq!(
        OverlayTarget::NewType.title(),
        "New Type (Enter to save, Esc to cancel)"
    );
    assert_eq!(
        OverlayTarget::NewScope.title(),
        "New Scope (Enter to save, Esc to cancel)"
    );
}

#[test]
fn only_the_focused_pane_is_highlighted() {
    let mut app = App::new(None);
    assert!(app.is_highlighted(Focus::Type));
    assert!(!app.is_highlighted(Focus::Scope));
    app.handle_key(Key::Tab);
    assert!(!app.is_highlighted(Focus::Type));
    assert!(app.is_highlighted(Focus::Scope));
}

#[test]
fn no_cursor_on_the_type_selector() {
    let app = App::new(None);
    assert_eq!(app.cursor_spot(), None);
}

#[test]
fn cursor_follows_the_focused_field() {
    let mut app = App::new(None);
    app.handle_key(Key::Tab);
    assert_eq!(
        app.cursor_spot(),
        Some(CursorSpot { pane: Pane::Field(Focus::Scope), offset: 0 })
    );
    type_all(&mut app, "é€");
    assert_eq!(
        app.cursor_spot(),
        Some(CursorSpot { pane: Pane::Field(Focus::Scope), offset: 5 })
    );
    app.handle_key(Key::Left);
    assert_eq!(
        app.cursor_spot(),
        Some(CursorSpot { pane: Pane::Field(Focus::Scope), offset: 2 })
    );
    app.handle_key(Key::Tab);
    assert_eq!(
        app.cursor_spot(),
        Some(CursorSpot { pane: Pane::Field(Focus::Description), offset: 0 })
    );
    app.handle_key(Key::Tab);
    type_all(&mut app, "b");
    assert_eq!(
        app.cursor_spot(),
        Some(CursorSpot { pane: Pane::Field(Focus::Body), offset: 1 })
    );
    app.handle_key(Key::Tab);
    type_all(&mut app, "fo");
    assert_eq!(
        app.cursor_spot(),
        Some(CursorSpot { pane: Pane::Field(Focus::Footer), offset: 2 })
    );
}

#[test]
fn cursor_moves_to_the_overlay_while_it_is_open() {
    let mut app = App::new(None);
    app.handle_key(Key::Char('+'));
    assert_eq!(
        app.cursor_spot(),
        Some(CursorSpot { pane: Pane::Overlay, offset: 0 })
    );
    type_all(&mut app, "perf");
    assert_eq!(
        app.cursor_spot(),
        Some(CursorSpot { pane: Pane::Overlay, offset: 4 })
    );
    app.handle_key(Key::Esc);
    assert_eq!(app.cursor_spot(), None);
}

#[test]
fn cursor_cell_is_inside_the_border() {
    assert_eq!(cursor_cell(0, 0, 0), (1, 1));
    assert_eq!(cursor_cell(1, 8, 5), (7, 9));
    assert_eq!(cursor_cell(20, 10, 12), (33, 11));
}

#[test]
fn cursor_cell_wraps_around() {
    assert_eq!(cursor_cell(65535, 65535, 0), (0, 0));
    assert_eq!(cursor_cell(65530, 3, 10), (5, 4));
    assert_eq!(cursor_cell(1, 1, 65536), (2, 2));
    assert_eq!(cursor_cell(1, 1, 65536 + 7), (9, 2));
}
