//! The game's per-frame decisions: whether a window event ends the run,
//! and whether the fire action fired this frame.

use vstd::prelude::*;

verus! {

/// A frame event as the game sees it: either a window event with the two
/// signals the game reacts to, or anything else.
#[derive(PartialEq, Eq, Clone, Copy, Debug)]
pub enum GameEvent {
    Window { close_requested: bool, escape_pressed: bool },
    Other,
}

/// What the game state does in reaction to an event: quit, or stay in the
/// running state.
#[derive(PartialEq, Eq, Clone, Copy, Debug)]
pub enum Trans {
    Quit,
    Stay,
}

/// A window event asking to close, or carrying the escape key, ends the
/// run; every other event is ignored.
pub open spec fn quit_requested(event: GameEvent) -> bool {
    match event {
        GameEvent::Window { close_requested, escape_pressed } => close_requested
            || escape_pressed,
        GameEvent::Other => false,
    }
}

/// Decide the state transition for one event.
pub fn handle_event(event: &GameEvent) -> (t: Trans)
    ensures
        t == (if quit_requested(*event) {
            Trans::Quit
        } else {
            Trans::Stay
        }),
{
    match event {
        GameEvent::Window { close_requested, escape_pressed } => {
            if *close_requested || *escape_pressed {
                Trans::Quit
            } else {
                Trans::Stay
            }
        },
        GameEvent::Other => Trans::Stay,
    }
}

/// Per-frame system for the player character: reads the state of the fire
/// action and says whether a shot is emitted this frame.
pub struct BirdSystem;

impl BirdSystem {
    /// A shot is emitted exactly when the input source reports the fire
    /// action as currently down.
    pub fn run(&self, fire_action: Option<bool>) -> (emit: bool)
        ensures
            emit == (fire_action == Some(true)),
    {
        match fire_action {
            Some(fired) => fired,
            None => false,
        }
    }
}

} // verus!
