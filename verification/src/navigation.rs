//! The keyboard navigation bridge's decision core.
//!
//! The viewer window hands over raw key press events: a hardware keycode and
//! a modifier bitset. The bridge maps the key through the keycode table,
//! builds the structured navigation keypress for the engine, and decides
//! what, if anything, the speech sink is handed afterwards. The event source,
//! the engine call and the speech sink themselves live in the unverified
//! shell.

use vstd::prelude::*;
use crate::keycodes::{KeycodeTranslator, canon_of};

verus! {

/// The shift bit of the modifier bitset.
pub const SHIFT_MASK: u32 = 1;

/// The control bit of the modifier bitset.
pub const CONTROL_MASK: u32 = 4;

/// The alt bit of the modifier bitset.
pub const ALT_MASK: u32 = 8;

/// One structured navigation keypress for the engine: a canonical key code
/// and the three modifier flags the navigation interface takes.
pub struct NavCommand {
    pub key: usize,
    pub shift: bool,
    pub control: bool,
    pub alt: bool,
}

/// The engine reported no navigable content or an internal navigation
/// error; the event then produces no utterance and the event loop goes on.
#[derive(PartialEq, Eq, Structural, Clone, Copy, Debug)]
pub struct NavError;

/// The navigation command for one raw key press, or `None` when the key is
/// not in the table: the event is then ignored, the engine is not called
/// and nothing is spoken. For a mapped key the command carries the key's
/// canonical code and the shift, control and alt flags of the bitset.
pub fn plan_keypress(table: &KeycodeTranslator, hardware_keycode: u16, modifiers: u32) -> (r:
    Option<NavCommand>)
    requires
        table.wf(),
    ensures
        canon_of(hardware_keycode) is None ==> r is None,
        canon_of(hardware_keycode) matches Some(key) ==> (r matches Some(c) && c.key == key
            && c.shift == ((modifiers & SHIFT_MASK) != 0) && c.control == ((modifiers
            & CONTROL_MASK) != 0) && c.alt == ((modifiers & ALT_MASK) != 0)),
{
    match table.translate(hardware_keycode) {
        Some(key) => Some(
            NavCommand {
                key,
                shift: (modifiers & SHIFT_MASK) != 0,
                control: (modifiers & CONTROL_MASK) != 0,
                alt: (modifiers & ALT_MASK) != 0,
            },
        ),
        None => None,
    }
}

/// The utterance owed to the speech sink for one navigation outcome: the
/// engine's text exactly, or nothing when the engine failed — a navigation
/// failure is silent and never stops the event loop.
pub fn navigation_utterance(outcome: Result<String, NavError>) -> (r: Option<String>)
    ensures
        outcome matches Ok(text) ==> (r matches Some(t) && t@ == text@),
        outcome is Err ==> r is None,
{
    match outcome {
        Ok(text) => Some(text),
        Err(_) => None,
    }
}

} // verus!
