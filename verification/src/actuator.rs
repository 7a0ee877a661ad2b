//! The pointer actuator: the one boundary that turns decoded events into
//! real pointer actions against the host's input subsystem, through the
//! `enigo` crate.
//!
//! A `MouseController` owns the only connection handle; callers that share
//! one across sessions serialize access to it themselves (a mutex around
//! the whole controller), so each batch or click is one atomic unit against
//! the host. Failures are reported as messages, never panics, and applying
//! an empty batch touches the device not at all.

use vstd::prelude::*;
use crate::codec::ButtonKind;
use crate::session::Action;

verus! {

#[verifier::external_type_specification]
#[verifier::external_body]
pub struct ExEnigo(enigo::Enigo);

/// Relies on `enigo::Enigo::new`: opens a connection to the host input
/// subsystem, failing when none is available (no display session, denied
/// permission). Nothing is promised of the outcome.
#[verifier::external_body]
fn enigo_new() -> Result<enigo::Enigo, String> {
    match enigo::Enigo::new(&enigo::Settings::default()) {
        Ok(e) => Ok(e),
        Err(err) => Err(format!("failed to open input connection: {err}")),
    }
}

/// Relies on `enigo::Mouse::move_mouse` with `Coordinate::Rel`: displaces
/// the host cursor by `(dx, dy)` relative to its current position, or
/// reports why the device refused. Nothing is promised of the outcome.
#[verifier::external_body]
fn enigo_move_rel(e: &mut enigo::Enigo, dx: i32, dy: i32) -> Result<(), String> {
    match enigo::Mouse::move_mouse(e, dx, dy, enigo::Coordinate::Rel) {
        Ok(()) => Ok(()),
        Err(err) => Err(format!("failed to move pointer: {err}")),
    }
}

/// Relies on `enigo::Mouse::button` with `Direction::Click`: presses and
/// immediately releases the given button, or reports why the device
/// refused. Nothing is promised of the outcome.
#[verifier::external_body]
fn enigo_click(e: &mut enigo::Enigo, button: ButtonKind) -> Result<(), String> {
    let b = match button {
        ButtonKind::Left => enigo::Button::Left,
        ButtonKind::Right => enigo::Button::Right,
        ButtonKind::Middle => enigo::Button::Middle,
    };
    match enigo::Mouse::button(e, b, enigo::Direction::Click) {
        Ok(()) => Ok(()),
        Err(err) => Err(format!("failed to click: {err}")),
    }
}

/// The process-wide pointer capability: a connection to the host input
/// subsystem, with no per-session state.
pub struct MouseController {
    enigo: enigo::Enigo,
}

impl MouseController {
    /// Open the connection to the host input subsystem. Failure (no
    /// display session, denied permission) is reported, not panicked.
    pub fn new() -> Result<MouseController, String> {
        match enigo_new() {
            Ok(e) => Ok(MouseController { enigo: e }),
            Err(msg) => Err(msg),
        }
    }

    /// Press and release one button. The outcome rests with the device;
    /// an error is reported for the caller to log.
    pub fn click(&mut self, button: ButtonKind) -> Result<(), String> {
        enigo_click(&mut self.enigo, button)
    }

    /// Apply each delta of the batch as one relative displacement, in
    /// batch order, stopping at the first refusal; the deltas are issued
    /// one by one, never pre-summed into a single jump. An empty batch
    /// makes no device call and cannot fail.
    pub fn mouse_move_batch(&mut self, moves: &Vec<(i32, i32)>) -> (r: Result<(), String>)
        ensures
            moves@.len() == 0 ==> r is Ok,
            r is Err ==> moves@.len() > 0,
    {
        let mut i: usize = 0;
        while i < moves.len()
            invariant
                i <= moves@.len(),
            decreases moves@.len() - i,
        {
            let (dx, dy) = moves[i];
            if let Err(msg) = enigo_move_rel(&mut self.enigo, dx, dy) {
                return Err(msg);
            }
            i = i + 1;
        }
        Ok(())
    }

    /// Perform a session's actions in order, one atomic unit each,
    /// collecting the failures instead of stopping: an actuation error is
    /// recoverable and must not end the session. At most one report comes
    /// back per action, and none when there is nothing to do.
    pub fn perform_actions(&mut self, actions: &Vec<Action>) -> (errors: Vec<String>)
        ensures
            errors@.len() <= actions@.len(),
    {
        let mut errors: Vec<String> = Vec::new();
        let mut i: usize = 0;
        while i < actions.len()
            invariant
                i <= actions@.len(),
                errors@.len() <= i,
            decreases actions@.len() - i,
        {
            let outcome = match &actions[i] {
                Action::ApplyMoves(batch) => self.mouse_move_batch(batch),
                Action::Click(button) => self.click(*button),
            };
            if let Err(msg) = outcome {
                errors.push(msg);
            }
            i = i + 1;
        }
        errors
    }
}

} // verus!
