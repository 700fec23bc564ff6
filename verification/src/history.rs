//! What holds of the form after any sequence of actions.

use crate::state::{ActionModel, StateModel};
use vstd::prelude::*;

verus! {

/// The state reached from `start` when `actions` happen one after another,
/// the first of them first.
pub open spec fn run(start: StateModel, actions: Seq<ActionModel>) -> StateModel
    decreases actions.len(),
{
    if actions.len() == 0 {
        start
    } else {
        run(start, actions.drop_last()).step(actions.last())
    }
}

/// Whether the button is pressed anywhere in `actions`.
pub open spec fn has_click(actions: Seq<ActionModel>) -> bool {
    exists|i: int| 0 <= i < actions.len() && actions[i] is ClickAdjustmentButton
}

/// Whether anything is typed anywhere in `actions`.
pub open spec fn has_update(actions: Seq<ActionModel>) -> bool {
    exists|i: int| 0 <= i < actions.len() && actions[i] is UpdateInputContent
}

/// Running `first` and then `second` is running the two joined.
pub proof fn run_in_two_parts(start: StateModel, first: Seq<ActionModel>, second: Seq<ActionModel>)
    ensures
        run(start, first + second) == run(run(start, first), second),
    decreases second.len(),
{
    if second.len() == 0 {
        assert(first + second =~= first);
    } else {
        assert((first + second).drop_last() =~= first + second.drop_last());
        run_in_two_parts(start, first, second.drop_last());
    }
}

/// Typing a text and then pressing the button shows exactly that text in the
/// output box, whatever the form held before.
pub proof fn typed_text_is_shown(start: StateModel, text: Seq<char>)
    ensures
        start.step(ActionModel::UpdateInputContent(text)).step(
            ActionModel::ClickAdjustmentButton,
        ).page().output_content == text,
{
}

/// As long as the button is not pressed, the output box and the lock stay as
/// they were.
pub proof fn without_click_output_stays(start: StateModel, actions: Seq<ActionModel>)
    requires
        !has_click(actions),
    ensures
        run(start, actions).output_content == start.output_content,
        run(start, actions).interactable == start.interactable,
    decreases actions.len(),
{
    if actions.len() > 0 {
        let earlier = actions.drop_last();
        assert(!has_click(earlier)) by {
            if has_click(earlier) {
                let i = choose|i: int| 0 <= i < earlier.len() && earlier[i] is ClickAdjustmentButton;
                assert(actions[i] is ClickAdjustmentButton);
            }
        }
        without_click_output_stays(start, earlier);
    }
}

/// On a freshly opened page the output box shows nothing, and the form is
/// unlocked, until the button is pressed for the first time.
pub proof fn output_empty_before_first_click(actions: Seq<ActionModel>)
    requires
        !has_click(actions),
    ensures
        run(StateModel::initial(), actions).page().output_content == Seq::<char>::empty(),
        !run(StateModel::initial(), actions).page().input_readonly,
        !run(StateModel::initial(), actions).page().button_disabled,
{
    without_click_output_stays(StateModel::initial(), actions);
}

/// A locked form stays locked, whatever happens to it.
pub proof fn lock_is_never_lifted(start: StateModel, actions: Seq<ActionModel>)
    requires
        !start.interactable,
    ensures
        !run(start, actions).interactable,
    decreases actions.len(),
{
    if actions.len() > 0 {
        lock_is_never_lifted(start, actions.drop_last());
    }
}

/// Once the button has been pressed the form is locked: the input box is
/// read-only and the button disabled, whatever came before or after.
pub proof fn locked_after_click(start: StateModel, actions: Seq<ActionModel>)
    requires
        has_click(actions),
    ensures
        !run(start, actions).interactable,
        run(start, actions).page().input_readonly,
        run(start, actions).page().button_disabled,
    decreases actions.len(),
{
    let i = choose|i: int| 0 <= i < actions.len() && actions[i] is ClickAdjustmentButton;
    if i < actions.len() - 1 {
        let earlier = actions.drop_last();
        assert(earlier[i] is ClickAdjustmentButton);
        locked_after_click(start, earlier);
    }
}

/// A form that started from a freshly opened page is unlocked exactly when
/// the button was never pressed.
pub proof fn unlocked_iff_never_clicked(actions: Seq<ActionModel>)
    ensures
        run(StateModel::initial(), actions).interactable <==> !has_click(actions),
{
    if has_click(actions) {
        locked_after_click(StateModel::initial(), actions);
    } else {
        without_click_output_stays(StateModel::initial(), actions);
    }
}

/// A form that started from a freshly opened page and is still unlocked has
/// an empty output box.
pub proof fn unlocked_form_shows_nothing(actions: Seq<ActionModel>)
    requires
        run(StateModel::initial(), actions).interactable,
    ensures
        run(StateModel::initial(), actions).output_content == Seq::<char>::empty(),
{
    unlocked_iff_never_clicked(actions);
    without_click_output_stays(StateModel::initial(), actions);
}

/// The output box holds the text that the input box held when the button was
/// last pressed.
pub proof fn output_is_input_at_last_click(
    start: StateModel,
    actions: Seq<ActionModel>,
    last_click: int,
)
    requires
        0 <= last_click < actions.len(),
        actions[last_click] is ClickAdjustmentButton,
        forall|j: int| last_click < j < actions.len() ==> !(actions[j] is ClickAdjustmentButton),
    ensures
        run(start, actions).output_content == run(start, actions.take(last_click)).input_content,
    decreases actions.len(),
{
    let earlier = actions.drop_last();
    if last_click == actions.len() - 1 {
        assert(actions.take(last_click) =~= earlier);
    } else {
        assert(earlier.take(last_click) =~= actions.take(last_click));
        output_is_input_at_last_click(start, earlier, last_click);
    }
}

/// The input box holds the text that was typed last.
pub proof fn input_is_last_typed_text(
    start: StateModel,
    actions: Seq<ActionModel>,
    last_update: int,
)
    requires
        0 <= last_update < actions.len(),
        actions[last_update] is UpdateInputContent,
        forall|j: int| last_update < j < actions.len() ==> !(actions[j] is UpdateInputContent),
    ensures
        run(start, actions).input_content == actions[last_update]->UpdateInputContent_0,
    decreases actions.len(),
{
    if last_update < actions.len() - 1 {
        input_is_last_typed_text(start, actions.drop_last(), last_update);
    }
}

/// The output box shows the text that was typed last before the button was
/// last pressed.
pub proof fn output_is_last_text_before_last_click(
    start: StateModel,
    actions: Seq<ActionModel>,
    last_update: int,
    last_click: int,
)
    requires
        0 <= last_update < last_click < actions.len(),
        actions[last_update] is UpdateInputContent,
        actions[last_click] is ClickAdjustmentButton,
        forall|j: int| last_update < j < last_click ==> !(actions[j] is UpdateInputContent),
        forall|j: int| last_click < j < actions.len() ==> !(actions[j] is ClickAdjustmentButton),
    ensures
        run(start, actions).page().output_content == actions[last_update]->UpdateInputContent_0,
{
    output_is_input_at_last_click(start, actions, last_click);
    input_is_last_typed_text(start, actions.take(last_click), last_update);
}

/// As long as nothing is typed, the input box keeps its text.
pub proof fn without_update_input_stays(start: StateModel, actions: Seq<ActionModel>)
    requires
        !has_update(actions),
    ensures
        run(start, actions).input_content == start.input_content,
    decreases actions.len(),
{
    if actions.len() > 0 {
        let earlier = actions.drop_last();
        assert(!has_update(earlier)) by {
            if has_update(earlier) {
                let i = choose|i: int| 0 <= i < earlier.len() && earlier[i] is UpdateInputContent;
                assert(actions[i] is UpdateInputContent);
            }
        }
        without_update_input_stays(start, earlier);
    }
}

} // verus!
