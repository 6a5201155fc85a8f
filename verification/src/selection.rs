//! The scenario that is currently chosen, and whether its dropdown is open.

use vstd::prelude::*;
use crate::messages::Choice;

verus! {

/// The current scenario choice and the state of the dropdown that offers the
/// scenarios.
#[derive(Clone, Copy, Debug, PartialEq, Eq, Structural)]
pub struct SelectionState {
    pub choice: Choice,
    pub dropdown_open: bool,
}

impl SelectionState {
    /// The state after `choice` was picked: it is the current choice and the
    /// dropdown is closed.
    pub open spec fn selected(self, choice: Choice) -> SelectionState {
        SelectionState { choice, dropdown_open: false }
    }

    /// The state after the dropdown's button was pressed.
    pub open spec fn dropdown_toggled(self) -> SelectionState {
        SelectionState { choice: self.choice, dropdown_open: !self.dropdown_open }
    }

    /// The state after a click outside the dropdown.
    pub open spec fn dismissed(self) -> SelectionState {
        SelectionState { choice: self.choice, dropdown_open: false }
    }

    /// The state at the start of a session: the first scenario, dropdown
    /// closed.
    pub fn new() -> (state: SelectionState)
        ensures
            state == (SelectionState { choice: Choice::Scenario1, dropdown_open: false }),
    {
        SelectionState { choice: Choice::Scenario1, dropdown_open: false }
    }

    /// Picks `choice` and closes the dropdown.
    pub fn select(&mut self, choice: Choice)
        ensures
            *final(self) == old(self).selected(choice),
    {
        self.choice = choice;
        self.dropdown_open = false;
    }

    /// Opens the dropdown if it is closed, closes it if it is open.
    pub fn toggle_dropdown(&mut self)
        ensures
            *final(self) == old(self).dropdown_toggled(),
    {
        self.dropdown_open = !self.dropdown_open;
    }

    /// Closes the dropdown.
    pub fn dismiss(&mut self)
        ensures
            *final(self) == old(self).dismissed(),
    {
        self.dropdown_open = false;
    }
}

} // verus!
