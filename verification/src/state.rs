//! The form's state, the actions on it, and the reducer.

use vstd::prelude::*;

verus! {

/// The form's state as a mathematical value.
pub struct StateModel {
    /// Whether the input box and the button still accept the user's edits.
    pub interactable: bool,
    /// The text of the input box.
    pub input_content: Seq<char>,
    /// The text of the output box.
    pub output_content: Seq<char>,
}

/// An action as a mathematical value.
pub enum ActionModel {
    /// The input box now holds this text.
    UpdateInputContent(Seq<char>),
    /// The adjustment button was pressed.
    ClickAdjustmentButton,
}

impl StateModel {
    /// The state of a page that was just opened: unlocked, both boxes empty.
    pub open spec fn initial() -> StateModel {
        StateModel {
            interactable: true,
            input_content: Seq::empty(),
            output_content: Seq::empty(),
        }
    }

    /// The state that follows `self` when `action` happens.
    ///
    /// Typing replaces the input text and touches nothing else. A press of
    /// the button copies the input text to the output box and locks the form.
    pub open spec fn step(self, action: ActionModel) -> StateModel {
        match action {
            ActionModel::UpdateInputContent(text) => StateModel { input_content: text, ..self },
            ActionModel::ClickAdjustmentButton => StateModel {
                interactable: false,
                input_content: self.input_content,
                output_content: self.input_content,
            },
        }
    }
}

/// The state of the form.
#[derive(Debug, Eq)]
pub struct SeonbiState {
    /// Whether the input box and the button still accept the user's edits.
    pub interactable: bool,
    /// The text of the input box.
    pub input_content: String,
    /// The text of the output box.
    pub output_content: String,
}

impl View for SeonbiState {
    type V = StateModel;

    open spec fn view(&self) -> StateModel {
        StateModel {
            interactable: self.interactable,
            input_content: self.input_content@,
            output_content: self.output_content@,
        }
    }
}

/// What can happen to the form.
#[derive(Debug, Eq)]
pub enum SeonbiAction {
    /// The input box now holds this text.
    UpdateInputContent(String),
    /// The adjustment button was pressed.
    ClickAdjustmentButton,
}

impl View for SeonbiAction {
    type V = ActionModel;

    open spec fn view(&self) -> ActionModel {
        match self {
            SeonbiAction::UpdateInputContent(text) => ActionModel::UpdateInputContent(text@),
            SeonbiAction::ClickAdjustmentButton => ActionModel::ClickAdjustmentButton,
        }
    }
}

impl Default for SeonbiState {
    /// The state of a page that was just opened.
    fn default() -> (state: Self)
        ensures
            state@ == StateModel::initial(),
    {
        SeonbiState {
            interactable: true,
            input_content: String::new(),
            output_content: String::new(),
        }
    }
}

impl SeonbiAction {
    /// The action that a change event asks for.
    ///
    /// `value` is the text of the text area that the event came from. An
    /// event that came from anything else carries no text and asks for
    /// nothing: it is dropped without a word.
    pub fn from_change_event(value: Option<String>) -> (action: Option<SeonbiAction>)
        ensures
            match (value, action) {
                (Some(text), Some(asked)) => asked@ == ActionModel::UpdateInputContent(text@),
                (None, None) => true,
                _ => false,
            },
    {
        match value {
            Some(text) => Some(SeonbiAction::UpdateInputContent(text)),
            None => None,
        }
    }
}

impl SeonbiState {
    /// The state that follows `self` when `action` happens; `self` is left
    /// as it was.
    pub fn reduce(&self, action: SeonbiAction) -> (next: SeonbiState)
        ensures
            next@ == self@.step(action@),
    {
        match action {
            SeonbiAction::UpdateInputContent(input_content) => SeonbiState {
                interactable: self.interactable,
                input_content,
                output_content: self.output_content.clone(),
            },
            SeonbiAction::ClickAdjustmentButton => SeonbiState {
                interactable: false,
                input_content: self.input_content.clone(),
                output_content: self.input_content.clone(),
            },
        }
    }
}

impl Clone for SeonbiState {
    fn clone(&self) -> (copy: Self)
        ensures
            copy == *self,
    {
        SeonbiState {
            interactable: self.interactable,
            input_content: self.input_content.clone(),
            output_content: self.output_content.clone(),
        }
    }
}

impl Clone for SeonbiAction {
    fn clone(&self) -> (copy: Self)
        ensures
            copy == *self,
    {
        match self {
            SeonbiAction::UpdateInputContent(text) => SeonbiAction::UpdateInputContent(
                text.clone(),
            ),
            SeonbiAction::ClickAdjustmentButton => SeonbiAction::ClickAdjustmentButton,
        }
    }
}

impl PartialEq for SeonbiState {
    fn eq(&self, other: &Self) -> (same: bool) {
        self.interactable == other.interactable && self.input_content == other.input_content
            && self.output_content == other.output_content
    }
}

impl vstd::std_specs::cmp::PartialEqSpecImpl for SeonbiState {
    open spec fn obeys_eq_spec() -> bool {
        true
    }

    /// Two states are equal when they hold the same flag and the same texts.
    open spec fn eq_spec(&self, other: &Self) -> bool {
        self@ == other@
    }
}

impl PartialEq for SeonbiAction {
    fn eq(&self, other: &Self) -> (same: bool) {
        match (self, other) {
            (SeonbiAction::UpdateInputContent(a), SeonbiAction::UpdateInputContent(b)) => *a == *b,
            (SeonbiAction::ClickAdjustmentButton, SeonbiAction::ClickAdjustmentButton) => true,
            _ => false,
        }
    }
}

impl vstd::std_specs::cmp::PartialEqSpecImpl for SeonbiAction {
    open spec fn obeys_eq_spec() -> bool {
        true
    }

    /// Two actions are equal when they are of one kind and carry the same text.
    open spec fn eq_spec(&self, other: &Self) -> bool {
        self@ == other@
    }
}

} // verus!
