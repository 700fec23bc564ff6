use seonbi_form::state::{SeonbiAction, SeonbiState};

fn typed(text: &str) -> SeonbiAction {
    SeonbiAction::UpdateInputContent(String::from(text))
}

#[test]
fn fresh_state_is_unlocked_and_empty() {
    let state = SeonbiState::default();
    assert!(state.interactable);
    assert_eq!(state.input_content, "");
    assert_eq!(state.output_content, "");
}

#[test]
fn typing_replaces_only_the_input() {
    let state = SeonbiState::default().reduce(typed("hello"));
    assert!(state.interactable);
    assert_eq!(state.input_content, "hello");
    assert_eq!(state.output_content, "");
}

#[test]
fn typing_again_overwrites_the_input() {
    let state = SeonbiState::default().reduce(typed("first")).reduce(typed("second"));
    assert_eq!(state.input_content, "second");
    assert_eq!(state.output_content, "");
    assert!(state.interactable);
}

#[test]
fn click_copies_input_to_output_and_locks() {
    let state = SeonbiState::default()
        .reduce(typed("hello"))
        .reduce(SeonbiAction::ClickAdjustmentButton);
    assert_eq!(
        state,
        SeonbiState {
            interactable: false,
            input_content: String::from("hello"),
            output_content: String::from("hello"),
        }
    );
}

#[test]
fn click_on_fresh_state_locks_with_empty_output() {
    let state = SeonbiState::default().reduce(SeonbiAction::ClickAdjustmentButton);
    assert!(!state.interactable);
    assert_eq!(state.input_content, "");
    assert_eq!(state.output_content, "");
}

#[test]
fn click_replaces_an_older_output() {
    let before = SeonbiState {
        interactable: true,
        input_content: String::from("new"),
        output_content: String::from("old"),
    };
    let after = before.reduce(SeonbiAction::ClickAdjustmentButton);
    assert_eq!(after.output_content, "new");
    assert_eq!(after.input_content, "new");
    assert!(!after.interactable);
}

#[test]
fn typing_keeps_output_and_lock_of_any_state() {
    let before = SeonbiState {
        interactable: false,
        input_content: String::from("in"),
        output_content: String::from("out"),
    };
    let after = before.reduce(typed("later"));
    assert_eq!(
        after,
        SeonbiState {
            interactable: false,
            input_content: String::from("later"),
            output_content: String::from("out"),
        }
    );
}

#[test]
fn reduce_leaves_the_old_state_alone() {
    let before = SeonbiState::default().reduce(typed("kept"));
    let after = before.reduce(SeonbiAction::ClickAdjustmentButton);
    assert_eq!(before.input_content, "kept");
    assert_eq!(before.output_content, "");
    assert!(before.interactable);
    assert_ne!(before, after);
}

#[test]
fn text_beyond_ascii_is_copied_whole() {
    let text = "선비, 안녕하세요 \u{1F600}";
    let state = SeonbiState::default()
        .reduce(typed(text))
        .reduce(SeonbiAction::ClickAdjustmentButton);
    assert_eq!(state.output_content, text);
    assert_eq!(state.output_content.chars().count(), 11);
}

#[test]
fn states_compare_by_flag_and_texts() {
    let a = SeonbiState::default().reduce(typed("x"));
    let b = SeonbiState::default().reduce(typed("x"));
    let c = SeonbiState::default().reduce(typed("y"));
    assert!(a == b);
    assert!(a != c);
    assert!(a != a.reduce(SeonbiAction::ClickAdjustmentButton));
    let other_output = SeonbiState {
        interactable: true,
        input_content: String::from("x"),
        output_content: String::from("x"),
    };
    assert!(a != other_output);
}

#[test]
fn actions_compare_by_kind_and_text() {
    assert_eq!(typed("a"), typed("a"));
    assert_ne!(typed("a"), typed("b"));
    assert_ne!(typed(""), SeonbiAction::ClickAdjustmentButton);
    assert_eq!(SeonbiAction::ClickAdjustmentButton, SeonbiAction::ClickAdjustmentButton);
}

#[test]
fn clones_equal_their_source() {
    let state = SeonbiState::default()
        .reduce(typed("copy me"))
        .reduce(SeonbiAction::ClickAdjustmentButton);
    assert_eq!(state.clone(), state);
    let action = typed("copy me");
    assert_eq!(action.clone(), action);
    assert_eq!(
        SeonbiAction::ClickAdjustmentButton.clone(),
        SeonbiAction::ClickAdjustmentButton
    );
}

#[test]
fn change_event_with_text_asks_for_an_update() {
    assert_eq!(
        SeonbiAction::from_change_event(Some(String::from("typed"))),
        Some(SeonbiAction::UpdateInputContent(String::from("typed")))
    );
    assert_eq!(
        SeonbiAction::from_change_event(Some(String::new())),
        Some(SeonbiAction::UpdateInputContent(String::new()))
    );
}

#[test]
fn change_event_without_text_asks_for_nothing() {
    assert_eq!(SeonbiAction::from_change_event(None), None);
}
