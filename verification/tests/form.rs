use muster::form::{Field, Form, FormOutcome};
use muster::input::{KeyCode, KeyEvent, KeyModifiers};

fn key(code: KeyCode) -> KeyEvent {
    KeyEvent::new(code, KeyModifiers::none())
}

fn options(list: &[&str]) -> Vec<String> {
    list.iter().map(|text| text.to_string()).collect()
}

#[test]
fn text_field_types_moves_and_deletes() {
    let mut field = Field::text("name");
    for c in "abc".chars() {
        field.edit(key(KeyCode::Char(c)));
    }
    assert_eq!(field.value(), "abc");
    assert_eq!(field.visible(10, true), Some(("abc".to_string(), 3)));

    field.edit(key(KeyCode::Left));
    field.edit(key(KeyCode::Char('X')));
    assert_eq!(field.value(), "abXc");

    field.edit(key(KeyCode::Backspace));
    assert_eq!(field.value(), "abc");
}

#[test]
fn choice_field_cycles_and_wraps() {
    let mut field = Field::choice("kind", options(&["agent", "terminal", "command"]));
    assert_eq!(field.value(), "agent");
    field.edit(key(KeyCode::Right));
    assert_eq!(field.value(), "terminal");
    field.edit(key(KeyCode::Left));
    field.edit(key(KeyCode::Left));
    assert_eq!(field.value(), "command", "left from the first wraps to the last");
    assert!(field.visible(10, true).is_none(), "a choice has no cursor");
}

#[test]
fn form_navigates_submits_and_cancels() {
    let mut form = Form::new("New project", vec![Field::text("name"), Field::text("folder")]);
    for c in "muster".chars() {
        assert_eq!(form.handle(key(KeyCode::Char(c))), FormOutcome::Continue);
    }
    assert_eq!(form.handle(key(KeyCode::Tab)), FormOutcome::Continue);
    assert_eq!(form.active(), 1);
    for c in "~/p".chars() {
        form.handle(key(KeyCode::Char(c)));
    }
    assert_eq!(form.values(), vec!["muster".to_string(), "~/p".to_string()]);
    assert_eq!(form.handle(key(KeyCode::Enter)), FormOutcome::Submit);
    assert_eq!(form.handle(key(KeyCode::Esc)), FormOutcome::Cancel);
}

#[test]
fn path_dropdown_navigates_and_accepts() {
    let mut form = Form::new("New project", vec![Field::path("folder", "~/w/")]);
    form.set_active_candidates(vec!["~/w/prism".to_string(), "~/w/proto".to_string()]);
    assert_eq!(form.active_path_value().as_deref(), Some("~/w/"));

    // Enter accepts the highlighted candidate instead of submitting, and
    // reports acceptance so the caller does not reopen the dropdown.
    assert_eq!(form.handle(key(KeyCode::Down)), FormOutcome::Continue);
    assert_eq!(form.handle(key(KeyCode::Enter)), FormOutcome::Accepted);
    assert_eq!(form.values(), vec!["~/w/proto".to_string()]);
    assert!(!form.dropdown_open(), "accepting clears the candidates");

    // With the dropdown closed, Enter submits.
    assert_eq!(form.handle(key(KeyCode::Enter)), FormOutcome::Submit);
}

/// Focus goes round the fields in both directions.
#[test]
fn focus_goes_round_the_fields() {
    let mut form = Form::new("f", vec![Field::text("a"), Field::text("b"), Field::text("c")]);
    assert_eq!(form.handle(key(KeyCode::BackTab)), FormOutcome::Continue);
    assert_eq!(form.active(), 2);
    form.handle(key(KeyCode::Tab));
    assert_eq!(form.active(), 0);
}

/// A field narrower than its value shows the end that the cursor is at.
#[test]
fn a_narrow_field_scrolls_to_its_cursor() {
    let mut field = Field::text("name");
    for c in "abcdefgh".chars() {
        field.edit(key(KeyCode::Char(c)));
    }
    let (shown, cursor) = field.visible(4, true).expect("an active field shows its text");
    assert!("abcdefgh".contains(shown.as_str()));
    assert!(shown.len() < 8, "the view is narrower than the value");
    assert!(cursor <= 4, "the cursor stays inside the view");
}

/// Keys that edit nothing leave the value alone.
#[test]
fn keys_without_an_edit_change_nothing() {
    let mut field = Field::text("name");
    field.edit(key(KeyCode::Char('a')));
    field.edit(key(KeyCode::F(5)));
    field.edit(key(KeyCode::Up));
    assert_eq!(field.value(), "a");
}

/// Home, End and Delete move and cut at the ends.
#[test]
fn the_line_is_edited_at_both_ends() {
    let mut field = Field::text("name");
    for c in "xyz".chars() {
        field.edit(key(KeyCode::Char(c)));
    }
    field.edit(key(KeyCode::Home));
    field.edit(key(KeyCode::Delete));
    assert_eq!(field.value(), "yz");
    field.edit(key(KeyCode::End));
    field.edit(key(KeyCode::Char('!')));
    assert_eq!(field.value(), "yz!");
}

/// Going back and deleting step over whole user-perceived characters, and stop
/// at the ends.
#[test]
fn steps_cross_whole_characters() {
    let mut field = Field::text("name");
    for c in ['a', 'e', '\u{301}'] {
        field.edit(key(KeyCode::Char(c)));
    }
    field.edit(key(KeyCode::Backspace));
    assert_eq!(field.value(), "a");
    field.edit(key(KeyCode::Left));
    field.edit(key(KeyCode::Left));
    field.edit(key(KeyCode::Backspace));
    assert_eq!(field.value(), "a", "nothing stands before the start");
    field.edit(key(KeyCode::Delete));
    field.edit(key(KeyCode::Delete));
    assert_eq!(field.value(), "");
}
