//! The input events a host records for the engine.

use vstd::prelude::*;
use crate::key::Key;
use crate::modifiers::Modifiers;

verus! {

/// One input event recorded by the host.
///
/// The events of a frame form an ordered log: their order is the
/// chronological order in which they happened since the previous frame was
/// consumed, and it must be preserved end to end. The log is passed through
/// as recorded: no deduplication or coalescing (a repeated press without an
/// intervening release is the consuming engine's business).
#[derive(Clone, Debug, Eq, PartialEq)]
pub enum Event {
    /// The host detected a clipboard-copy intent (e.g. command+C).
    Copy,
    /// The host detected a clipboard-cut intent (e.g. command+X).
    Cut,
    /// Literal text input, e.g. via keyboard or a paste action.
    ///
    /// When the user presses enter/return, the host must send a `Key` event
    /// with [`Key::Enter`], never a `Text` event.
    Text(String),
    /// A key transition.
    Key {
        /// Which key changed state.
        key: Key,
        /// True when the key went down, false when it went up.
        pressed: bool,
        /// The modifier state at the time of the transition.
        modifiers: Modifiers,
    },
}

} // verus!
