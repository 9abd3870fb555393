//! The decisions of the input pump, and the resize of the session's state.

use vstd::prelude::*;

use crate::geometry::{plan_resize, resize_plan, Geometry, ResizePlan, MIN_COLS, MIN_ROWS};
use crate::history::History;
use crate::key::{is_clear_chord, is_clear_chord_spec, valid_event, KeyEvent};
use crate::terminal::TerminalState;

verus! {

/// An event from the real terminal.
#[derive(Clone, Debug)]
pub enum InputEvent {
    /// A key press.
    Key(KeyEvent),
    /// The real terminal now has this many rows and columns.
    Resized { rows: usize, cols: usize },
    /// Anything else (mouse, paste, ...), which the session ignores.
    Other,
}

/// An input event is valid when the key it carries is valid.
pub open spec fn valid_input(event: InputEvent) -> bool {
    match event {
        InputEvent::Key(e) => valid_event(e),
        _ => true,
    }
}

/// What the input pump does after an event.
#[derive(Clone, Copy, Debug, PartialEq, Eq, Structural)]
pub enum InputAction {
    /// The history was cleared; redraw, and send nothing to the child.
    Redraw,
    /// The key was recorded; redraw, and send the key's encoding to the child.
    ForwardAndRedraw,
    /// Resize the child's pseudo-terminal, then the emulator and history.
    Resize(ResizePlan),
    /// Nothing to do.
    Ignore,
}

/// The input pump's decision on one event, given the child's current size.
/// The clear chord empties the history; any other key is recorded.
pub fn handle_input(history: &mut History, event: InputEvent, current: Geometry) -> (a:
    InputAction)
    requires
        old(history).wf(),
        valid_input(event),
    ensures
        final(history).wf(),
        match event {
            InputEvent::Key(e) => if is_clear_chord_spec(e) {
                a == InputAction::Redraw && final(history)@ == old(history)@.cleared()
            } else {
                a == InputAction::ForwardAndRedraw && final(history)@ == old(history)@.pushed(e)
            },
            InputEvent::Resized { rows, cols } => final(history)@ == old(history)@ && a
                == InputAction::Resize(resize_plan(rows as int, cols as int, current)),
            InputEvent::Other => final(history)@ == old(history)@ && a == InputAction::Ignore,
        },
{
    match event {
        InputEvent::Key(e) => {
            if is_clear_chord(&e) {
                history.clear();
                InputAction::Redraw
            } else {
                history.push(e);
                InputAction::ForwardAndRedraw
            }
        },
        InputEvent::Resized { rows, cols } => InputAction::Resize(plan_resize(rows, cols, current)),
        InputEvent::Other => InputAction::Ignore,
    }
}

/// Applies a resize plan, once the child's pseudo-terminal has taken it, to
/// the emulator and then to the history's budget.
pub fn apply_resize(terminal: &mut TerminalState, history: &mut History, plan: &ResizePlan)
    requires
        old(history).wf(),
        plan.pty.rows >= MIN_ROWS,
        plan.pty.cols >= MIN_COLS,
    ensures
        final(terminal).wf(),
        final(terminal).dims() == (plan.pty.rows, plan.pty.cols),
        final(terminal).input() == old(terminal).input(),
        final(history).wf(),
        final(history)@ == old(history)@.with_budget(plan.budget as nat),
{
    terminal.resize(plan.pty.rows, plan.pty.cols);
    history.set_budget(plan.budget);
}

} // verus!
