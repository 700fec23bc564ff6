//! The state of a one-page text form, with its transitions proved.
//!
//! The page has an input box, an output box and one button. Typing replaces
//! the input text; pressing the button copies the input text to the output
//! box and locks the form. [`state`] holds the state and its reducer,
//! [`page`] says what the controls show for a state, and [`history`] states
//! what holds after any sequence of actions.

pub mod history;
pub mod page;
pub mod state;
