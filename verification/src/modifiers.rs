//! Modifier-key state, with a platform-normalized "command" flag.

use vstd::prelude::*;

verus! {

/// State of the modifier keys at one instant: once per frame at its start,
/// and alongside every key transition.
///
/// The record only carries the flags; `command` is derived by the host (or
/// by [`Modifiers::normalized`]) under the contract stated by
/// [`Modifiers::is_normalized`], so that application code can check
/// `command + A` once and have it mean ctrl+A on Windows and Linux and
/// the Mac command key plus A on Mac.
#[derive(Clone, Copy, Debug, PartialEq, Eq, Structural)]
pub struct Modifiers {
    /// Either of the alt keys is down (option on Mac).
    pub alt: bool,
    /// Either of the control keys is down.
    /// For keyboard shortcuts, prefer checking `command`.
    pub ctrl: bool,
    /// Either of the shift keys is down.
    pub shift: bool,
    /// Either of the Mac command keys is down. Always false on other
    /// platforms.
    pub mac_cmd: bool,
    /// The platform-normalized primary-shortcut modifier: on Windows and
    /// Linux the host sets it to the same value as `ctrl`, on Mac to the
    /// same value as `mac_cmd`.
    pub command: bool,
}

impl Modifiers {
    /// No modifier key down.
    pub open spec fn none_spec() -> Modifiers {
        Modifiers { alt: false, ctrl: false, shift: false, mac_cmd: false, command: false }
    }

    /// The host contract on the derived flag: on a Mac host `command`
    /// mirrors `mac_cmd`, on any other host it mirrors `ctrl`.
    pub open spec fn is_normalized(self, mac: bool) -> bool {
        self.command == (if mac { self.mac_cmd } else { self.ctrl })
    }

    /// Builds a modifier record from the four physical flags, deriving
    /// `command` for the given platform so that the result satisfies the
    /// normalization contract.
    pub fn normalized(alt: bool, ctrl: bool, shift: bool, mac_cmd: bool, mac: bool) -> (r:
        Modifiers)
        ensures
            r.alt == alt,
            r.ctrl == ctrl,
            r.shift == shift,
            r.mac_cmd == mac_cmd,
            r.command == (if mac { mac_cmd } else { ctrl }),
            r.is_normalized(mac),
    {
        Modifiers { alt, ctrl, shift, mac_cmd, command: if mac { mac_cmd } else { ctrl } }
    }
}

impl Default for Modifiers {
    /// All flags false.
    fn default() -> (r: Modifiers)
        ensures
            r == Modifiers::none_spec(),
    {
        Modifiers { alt: false, ctrl: false, shift: false, mac_cmd: false, command: false }
    }
}

} // verus!
