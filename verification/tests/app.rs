use pre_form::app::{current_input_mut, maybe_open_overlay, Action, App};
use pre_form::focus::Focus;
use pre_form::key::Key;
use pre_form::overlay::OverlayTarget;

fn names(list: &[&str]) -> Vec<String> {
    list.iter().map(|s| s.to_string()).collect()
}

fn press(app: &mut App, keys: &[Key]) {
    for key in keys {
        assert_eq!(app.handle_key(*key), Action::Continue);
        assert!(app.is_valid());
    }
}

fn type_all(app: &mut App, text: &str) {
    for c in text.chars() {
        assert_eq!(app.handle_key(Key::Char(c)), Action::Continue);
    }
}

/// Everything of the form that can be seen from outside.
fn snapshot(app: &App) -> String {
    format!(
        "{:?}|{}|{:?}|{:?}|{:?}|{:?}|{:?}|{:?}",
        app.types(),
        app.type_idx(),
        (app.scope().value(), app.scope().cursor()),
        (app.description().value(), app.description().cursor()),
        (app.body().value(), app.body().cursor()),
        (app.footer().value(), app.footer().cursor()),
        app.focus(),
        app.overlay()
            .map(|ov| (ov.target, ov.input.value().to_string(), ov.input.cursor())),
    )
}

#[test]
fn new_form_starts_on_the_first_type() {
    let app = App::new(None);
    assert_eq!(
        app.types(),
        &names(&["feat", "fix", "docs", "style", "refactor", "test", "chore"])
    );
    assert_eq!(app.type_idx(), 0);
    assert_eq!(app.focus(), Focus::Type);
    assert!(app.overlay().is_none());
    assert_eq!(app.scope().value(), "");
    assert_eq!(app.description().value(), "");
    assert_eq!(app.body().value(), "");
    assert_eq!(app.footer().value(), "");
    assert_eq!(app.commit_message(), "feat: ");
}

#[test]
fn new_form_with_empty_listing_uses_defaults() {
    let app = App::new(Some(Vec::new()));
    assert_eq!(app.types().len(), 7);
    assert_eq!(app.types()[0], "feat");
    assert_eq!(app.types()[6], "chore");
}

#[test]
fn new_form_with_listing_offers_the_listed_types() {
    let app = App::new(Some(names(&["wip", "perf"])));
    assert_eq!(app.types(), &names(&["wip", "perf"]));
    assert_eq!(app.type_idx(), 0);
    assert_eq!(app.commit_message(), "wip: ");
}

#[test]
fn tab_cycles_through_the_five_fields() {
    let mut app = App::new(None);
    let order = [
        Focus::Scope,
        Focus::Description,
        Focus::Body,
        Focus::Footer,
        Focus::Type,
    ];
    for expected in order {
        assert_eq!(app.handle_key(Key::Tab), Action::Continue);
        assert_eq!(app.focus(), expected);
    }
    assert_eq!(snapshot(&app), snapshot(&App::new(None)));
}

#[test]
fn advance_focus_moves_one_field() {
    let mut app = App::new(None);
    app.advance_focus();
    assert_eq!(app.focus(), Focus::Scope);
}

#[test]
fn up_at_the_first_type_is_a_no_op() {
    let mut app = App::new(None);
    let before = snapshot(&app);
    press(&mut app, &[Key::Up]);
    assert_eq!(app.type_idx(), 0);
    assert_eq!(snapshot(&app), before);
    app.select_previous();
    assert_eq!(snapshot(&app), before);
}

#[test]
fn down_at_the_last_type_is_a_no_op() {
    let mut app = App::new(None);
    press(&mut app, &[Key::Down; 6]);
    assert_eq!(app.type_idx(), 6);
    let before = snapshot(&app);
    press(&mut app, &[Key::Down]);
    assert_eq!(app.type_idx(), 6);
    assert_eq!(snapshot(&app), before);
    app.select_next();
    assert_eq!(snapshot(&app), before);
}

#[test]
fn selection_moves_by_one_and_stays_in_range() {
    let mut app = App::new(Some(names(&["a", "b", "c"])));
    let keys = [
        Key::Down,
        Key::Down,
        Key::Down,
        Key::Down,
        Key::Up,
        Key::Down,
        Key::Up,
        Key::Up,
        Key::Up,
        Key::Up,
        Key::Down,
    ];
    let expected = [1, 2, 2, 2, 1, 2, 1, 0, 0, 0, 1];
    for (key, idx) in keys.iter().zip(expected) {
        press(&mut app, &[*key]);
        assert_eq!(app.type_idx(), idx);
        assert!(app.type_idx() < app.types().len());
    }
    assert_eq!(app.commit_message(), "b: ");
}

#[test]
fn up_and_down_only_act_on_the_type_selector() {
    let mut app = App::new(None);
    press(&mut app, &[Key::Down, Key::Tab]);
    let before = snapshot(&app);
    press(&mut app, &[Key::Up, Key::Down, Key::Down]);
    assert_eq!(snapshot(&app), before);
    assert_eq!(app.type_idx(), 1);
}

#[test]
fn characters_are_ignored_by_the_type_selector() {
    let mut app = App::new(None);
    let before = snapshot(&app);
    press(
        &mut app,
        &[
            Key::Char('x'),
            Key::Backspace,
            Key::Delete,
            Key::Left,
            Key::Right,
            Key::Home,
            Key::End,
            Key::Other,
        ],
    );
    assert_eq!(snapshot(&app), before);
}

#[test]
fn typing_goes_to_the_focused_field() {
    let mut app = App::new(None);
    press(&mut app, &[Key::Tab]);
    type_all(&mut app, "api");
    press(&mut app, &[Key::Tab]);
    type_all(&mut app, "add x");
    press(&mut app, &[Key::Tab]);
    type_all(&mut app, "detail");
    press(&mut app, &[Key::Tab]);
    type_all(&mut app, "BREAKING CHANGE: y");
    assert_eq!(app.scope().value(), "api");
    assert_eq!(app.description().value(), "add x");
    assert_eq!(app.body().value(), "detail");
    assert_eq!(app.footer().value(), "BREAKING CHANGE: y");
    assert_eq!(
        app.commit_message(),
        "feat(api): add x\n\ndetail\n\nBREAKING CHANGE: y"
    );
}

#[test]
fn editing_keys_act_on_the_focused_field() {
    let mut app = App::new(None);
    press(&mut app, &[Key::Tab, Key::Tab]);
    type_all(&mut app, "héllo");
    press(&mut app, &[Key::Left, Key::Left, Key::Left, Key::Backspace]);
    assert_eq!(
        (app.description().value(), app.description().cursor()),
        ("hllo", 1)
    );
    press(&mut app, &[Key::Delete]);
    assert_eq!(
        (app.description().value(), app.description().cursor()),
        ("hlo", 1)
    );
    press(&mut app, &[Key::End]);
    assert_eq!(app.description().cursor(), 3);
    press(&mut app, &[Key::Home, Key::Right]);
    assert_eq!(app.description().cursor(), 1);
    assert_eq!(app.scope().value(), "");
    assert_eq!(app.body().value(), "");
}

#[test]
fn enter_and_escape_both_finish() {
    let mut app = App::new(None);
    press(&mut app, &[Key::Tab, Key::Tab]);
    type_all(&mut app, "add x");
    let before = snapshot(&app);
    assert_eq!(app.handle_key(Key::Enter), Action::Finish);
    assert_eq!(snapshot(&app), before);
    assert_eq!(app.handle_key(Key::Esc), Action::Finish);
    assert_eq!(snapshot(&app), before);
    assert_eq!(app.commit_message(), "feat: add x");
}

#[test]
fn plus_opens_an_overlay_for_a_new_type() {
    let mut app = App::new(None);
    press(&mut app, &[Key::Char('+')]);
    let ov = app.overlay().expect("overlay is open");
    assert_eq!(ov.target, OverlayTarget::NewType);
    assert_eq!((ov.input.value(), ov.input.cursor()), ("", 0));
    assert_eq!(app.focus(), Focus::Type);
}

#[test]
fn plus_opens_an_overlay_for_a_new_scope() {
    let mut app = App::new(None);
    press(&mut app, &[Key::Tab, Key::Char('+')]);
    let ov = app.overlay().expect("overlay is open");
    assert_eq!(ov.target, OverlayTarget::NewScope);
    assert_eq!(app.scope().value(), "");
}

#[test]
fn plus_is_ignored_on_the_other_fields() {
    let mut app = App::new(None);
    press(&mut app, &[Key::Tab, Key::Tab]);
    for _ in 0..3 {
        let before = snapshot(&app);
        press(&mut app, &[Key::Char('+')]);
        assert!(app.overlay().is_none());
        assert_eq!(snapshot(&app), before);
        press(&mut app, &[Key::Tab]);
    }
}

#[test]
fn maybe_open_overlay_follows_the_focus() {
    let mut app = App::new(None);
    maybe_open_overlay(&mut app);
    assert_eq!(
        app.overlay().map(|ov| ov.target),
        Some(OverlayTarget::NewType)
    );
    app.cancel_overlay();
    app.advance_focus();
    maybe_open_overlay(&mut app);
    assert_eq!(
        app.overlay().map(|ov| ov.target),
        Some(OverlayTarget::NewScope)
    );
    app.cancel_overlay();
    app.advance_focus();
    let before = snapshot(&app);
    maybe_open_overlay(&mut app);
    assert_eq!(snapshot(&app), before);
}

#[test]
fn current_input_follows_the_focus() {
    let mut app = App::new(None);
    assert!(current_input_mut(&mut app).is_none());
    app.advance_focus();
    current_input_mut(&mut app)
        .expect("scope is focused")
        .insert_char('s');
    app.advance_focus();
    current_input_mut(&mut app)
        .expect("description is focused")
        .insert_char('d');
    app.advance_focus();
    current_input_mut(&mut app)
        .expect("body is focused")
        .insert_char('b');
    app.advance_focus();
    current_input_mut(&mut app)
        .expect("footer is focused")
        .insert_char('f');
    assert_eq!(app.scope().value(), "s");
    assert_eq!(app.description().value(), "d");
    assert_eq!(app.body().value(), "b");
    assert_eq!(app.footer().value(), "f");
}

#[test]
fn overlay_takes_every_key() {
    let mut app = App::new(None);
    press(&mut app, &[Key::Tab]);
    type_all(&mut app, "old");
    press(&mut app, &[Key::Char('+')]);
    type_all(&mut app, "a+b");
    press(
        &mut app,
        &[
            Key::Tab,
            Key::Up,
            Key::Down,
            Key::Other,
            Key::Left,
            Key::Backspace,
            Key::Home,
            Key::Delete,
            Key::End,
        ],
    );
    let ov = app.overlay().expect("overlay is open");
    assert_eq!((ov.input.value(), ov.input.cursor()), ("b", 1));
    assert_eq!(ov.target, OverlayTarget::NewScope);
    assert_eq!(app.focus(), Focus::Scope);
    assert_eq!(app.type_idx(), 0);
    assert_eq!((app.scope().value(), app.scope().cursor()), ("old", 3));
}

#[test]
fn escape_closes_the_overlay_without_effect() {
    let mut app = App::new(None);
    let before = snapshot(&app);
    press(&mut app, &[Key::Char('+')]);
    type_all(&mut app, "perf");
    assert_eq!(app.handle_key(Key::Esc), Action::Continue);
    assert_eq!(snapshot(&app), before);
}

#[test]
fn confirming_an_empty_overlay_only_closes_it() {
    let mut app = App::new(None);
    let before = snapshot(&app);
    press(&mut app, &[Key::Char('+')]);
    assert_eq!(app.handle_key(Key::Enter), Action::Continue);
    assert_eq!(snapshot(&app), before);
}

#[test]
fn confirming_a_blank_overlay_only_closes_it() {
    for focus_steps in [0, 1] {
        let mut app = App::new(None);
        for _ in 0..focus_steps {
            press(&mut app, &[Key::Tab]);
        }
        type_all(&mut app, "x");
        let before = snapshot(&app);
        press(&mut app, &[Key::Char('+')]);
        type_all(&mut app, " \t\u{a0} ");
        assert_eq!(app.handle_key(Key::Enter), Action::Continue);
        assert_eq!(snapshot(&app), before);
    }
}

#[test]
fn confirming_a_new_type_appends_and_selects_it() {
    let mut app = App::new(None);
    press(&mut app, &[Key::Down, Key::Char('+')]);
    type_all(&mut app, "  perf ");
    assert_eq!(
        app.handle_key(Key::Enter),
        Action::PersistType("perf".to_string())
    );
    assert_eq!(
        app.types(),
        &names(&["feat", "fix", "docs", "style", "refactor", "test", "chore", "perf"])
    );
    assert_eq!(app.type_idx(), 7);
    assert!(app.overlay().is_none());
    assert_eq!(app.focus(), Focus::Type);
    assert_eq!(app.commit_message(), "perf: ");
    // the new entry is the last: moving down stays on it
    press(&mut app, &[Key::Down]);
    assert_eq!(app.type_idx(), 7);
}

#[test]
fn confirming_a_known_type_appends_it_again() {
    let mut app = App::new(Some(names(&["feat", "fix"])));
    press(&mut app, &[Key::Char('+')]);
    type_all(&mut app, "feat");
    assert_eq!(
        app.handle_key(Key::Enter),
        Action::PersistType("feat".to_string())
    );
    assert_eq!(app.types(), &names(&["feat", "fix", "feat"]));
    assert_eq!(app.type_idx(), 2);
}

#[test]
fn confirming_a_new_scope_fills_the_scope_field() {
    let mut app = App::new(None);
    press(&mut app, &[Key::Tab]);
    type_all(&mut app, "old");
    press(&mut app, &[Key::Char('+')]);
    type_all(&mut app, " cöre ");
    assert_eq!(
        app.handle_key(Key::Enter),
        Action::PersistScope("cöre".to_string())
    );
    assert_eq!((app.scope().value(), app.scope().cursor()), ("cöre", 5));
    assert_eq!(app.focus(), Focus::Description);
    assert!(app.overlay().is_none());
    assert_eq!(app.types().len(), 7);
    assert_eq!(app.type_idx(), 0);
    type_all(&mut app, "add x");
    assert_eq!(app.commit_message(), "feat(cöre): add x");
}

#[test]
fn confirm_overlay_without_overlay_does_nothing() {
    let mut app = App::new(None);
    let before = snapshot(&app);
    assert_eq!(app.confirm_overlay(), Action::Continue);
    assert_eq!(snapshot(&app), before);
}

#[test]
fn commit_message_takes_fields_verbatim() {
    let mut app = App::new(None);
    press(&mut app, &[Key::Down, Key::Tab]);
    type_all(&mut app, " ui ");
    press(&mut app, &[Key::Tab]);
    type_all(&mut app, " spaced ");
    assert_eq!(app.commit_message(), "fix( ui ):  spaced ");
}

#[test]
fn form_stays_valid_under_any_keys() {
    let keys = [
        Key::Char('a'),
        Key::Char('+'),
        Key::Char(' '),
        Key::Char('😀'),
        Key::Backspace,
        Key::Delete,
        Key::Left,
        Key::Right,
        Key::Home,
        Key::End,
        Key::Up,
        Key::Down,
        Key::Tab,
        Key::Enter,
        Key::Esc,
        Key::Other,
    ];
    let mut app = App::new(Some(names(&["one", "two"])));
    let mut step: usize = 3;
    for _ in 0..3000 {
        step = (step * 37 + 5) % 2003;
        app.handle_key(keys[step % keys.len()]);
        assert!(app.is_valid());
        assert!(app.type_idx() < app.types().len());
        if let Some(ov) = app.overlay() {
            assert!(ov.input.is_valid());
        }
    }
}
