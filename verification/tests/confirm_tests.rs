use messyenv::confirm::{confirm_step, default_hint, interpret_line, render_prompt, ConfirmEvent};

#[test]
fn empty_input_resolves_to_default() {
    assert_eq!(interpret_line("", false), Some(false));
    assert_eq!(interpret_line("", true), Some(true));
}

#[test]
fn yes_tokens_resolve_to_true() {
    assert_eq!(interpret_line("y", false), Some(true));
    assert_eq!(interpret_line("Y", false), Some(true));
    assert_eq!(interpret_line("yes", false), Some(true));
}

#[test]
fn no_tokens_resolve_to_false() {
    assert_eq!(interpret_line("n", true), Some(false));
    assert_eq!(interpret_line("N", true), Some(false));
    assert_eq!(interpret_line("no", true), Some(false));
}

#[test]
fn unrecognized_input_resolves_nothing() {
    assert_eq!(interpret_line("maybe", false), None);
    assert_eq!(interpret_line("YES", false), None);
    assert_eq!(interpret_line("No", false), None);
    assert_eq!(interpret_line("yess", false), None);
    assert_eq!(interpret_line("oui", true), None);
}

#[test]
fn trailing_line_terminator_is_removed() {
    assert_eq!(interpret_line("y\n", false), Some(true));
    assert_eq!(interpret_line("no\r\n", true), Some(false));
    assert_eq!(interpret_line("\n", true), Some(true));
    assert_eq!(interpret_line("\r\n", false), Some(false));
    assert_eq!(interpret_line("yes\n", false), Some(true));
}

#[test]
fn whitespace_padding_resolves_nothing() {
    assert_eq!(interpret_line("   ", true), None);
    assert_eq!(interpret_line("   \n", true), None);
    assert_eq!(interpret_line(" \t ", false), None);
    assert_eq!(interpret_line(" y", false), None);
    assert_eq!(interpret_line("y ", false), None);
    assert_eq!(interpret_line("  y\n", false), None);
    assert_eq!(interpret_line(" yes \n", false), None);
}

#[test]
fn inner_whitespace_is_not_ignored() {
    assert_eq!(interpret_line("y e s", false), None);
    assert_eq!(interpret_line("n o", true), None);
}

#[test]
fn line_event_resolves_like_the_line() {
    let ev = ConfirmEvent::Line(String::from("yes\n"));
    assert_eq!(confirm_step(&ev, false), Some(true));
    let ev2 = ConfirmEvent::Line(String::from("huh"));
    assert_eq!(confirm_step(&ev2, false), None);
}

#[test]
fn end_of_input_declines() {
    assert_eq!(confirm_step(&ConfirmEvent::EndOfInput, true), Some(false));
    assert_eq!(confirm_step(&ConfirmEvent::EndOfInput, false), Some(false));
}

#[test]
fn hint_marks_the_default() {
    assert_eq!(default_hint(true), "Y/n");
    assert_eq!(default_hint(false), "y/N");
}

#[test]
fn prompt_is_rendered_with_hint() {
    assert_eq!(
        render_prompt("Proceed anyway?", false),
        "Proceed anyway? [y/N] > "
    );
    assert_eq!(render_prompt("Sure?", true), "Sure? [Y/n] > ");
}
