//! What the page's controls show for a state of the form.

use crate::state::{SeonbiState, StateModel};
use vstd::prelude::*;

verus! {

/// What the controls show, as a mathematical value.
pub struct PageModel {
    /// Whether the input box refuses edits.
    pub input_readonly: bool,
    /// The text in the output box.
    pub output_content: Seq<char>,
    /// Whether the adjustment button is greyed out.
    pub button_disabled: bool,
}

impl StateModel {
    /// The page for this state.
    ///
    /// The output box shows the output text. The input box is read-only and
    /// the button disabled exactly when the form is locked.
    pub open spec fn page(self) -> PageModel {
        PageModel {
            input_readonly: !self.interactable,
            output_content: self.output_content,
            button_disabled: !self.interactable,
        }
    }
}

/// The values that the page's markup is filled with.
#[derive(Debug, Eq)]
pub struct Page {
    /// Whether the input box refuses edits.
    pub input_readonly: bool,
    /// The text in the output box.
    pub output_content: String,
    /// Whether the adjustment button is greyed out.
    pub button_disabled: bool,
}

impl View for Page {
    type V = PageModel;

    open spec fn view(&self) -> PageModel {
        PageModel {
            input_readonly: self.input_readonly,
            output_content: self.output_content@,
            button_disabled: self.button_disabled,
        }
    }
}

/// The page for `state`: what each control shows while the form is in it.
pub fn seonbi(state: &SeonbiState) -> (page: Page)
    ensures
        page@ == state@.page(),
{
    Page {
        input_readonly: !state.interactable,
        output_content: state.output_content.clone(),
        button_disabled: !state.interactable,
    }
}

impl Clone for Page {
    fn clone(&self) -> (copy: Self)
        ensures
            copy == *self,
    {
        Page {
            input_readonly: self.input_readonly,
            output_content: self.output_content.clone(),
            button_disabled: self.button_disabled,
        }
    }
}

impl PartialEq for Page {
    fn eq(&self, other: &Self) -> (same: bool) {
        self.input_readonly == other.input_readonly && self.output_content == other.output_content
            && self.button_disabled == other.button_disabled
    }
}

impl vstd::std_specs::cmp::PartialEqSpecImpl for Page {
    open spec fn obeys_eq_spec() -> bool {
        true
    }

    /// Two pages are equal when every control shows the same.
    open spec fn eq_spec(&self, other: &Self) -> bool {
        self@ == other@
    }
}

} // verus!
