use pre_form::message::assemble;

#[test]
fn message_without_scope() {
    assert_eq!(assemble("feat", "", "add x", "", ""), "feat: add x");
}

#[test]
fn message_with_scope() {
    assert_eq!(assemble("feat", "api", "add x", "", ""), "feat(api): add x");
}

#[test]
fn message_with_body() {
    assert_eq!(
        assemble("feat", "api", "add x", "detail", ""),
        "feat(api): add x\n\ndetail"
    );
}

#[test]
fn message_with_body_and_footer() {
    assert_eq!(
        assemble("feat", "api", "add x", "detail", "BREAKING CHANGE: y"),
        "feat(api): add x\n\ndetail\n\nBREAKING CHANGE: y"
    );
}

#[test]
fn message_with_footer_only() {
    assert_eq!(
        assemble("fix", "", "typo", "", "Refs: #1"),
        "fix: typo\n\nRefs: #1"
    );
}

#[test]
fn message_with_empty_description() {
    assert_eq!(assemble("feat", "", "", "", ""), "feat: ");
    assert_eq!(assemble("feat", "ui", "", "", ""), "feat(ui): ");
}

#[test]
fn message_keeps_white_space() {
    assert_eq!(
        assemble("feat", " api ", "  add x ", " body\n", "\tfooter "),
        "feat( api ):   add x \n\n body\n\n\n\tfooter "
    );
    // a scope of blanks is not empty
    assert_eq!(assemble("feat", " ", "x", "", ""), "feat( ): x");
}

#[test]
fn message_keeps_multibyte_text() {
    assert_eq!(
        assemble("feat", "ünï", "add 😀", "", ""),
        "feat(ünï): add 😀"
    );
}
