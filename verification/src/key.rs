//! The closed set of keyboard keys the engine recognizes.

use vstd::prelude::*;

verus! {

/// Keyboard keys the engine cares about: navigation and editing keys, the
/// digits, and the Latin letters (useful for detecting shortcuts such as
/// command+A).
///
/// Keys whose physical meaning varies with the keyboard layout (such as the
/// semicolon) are left out on purpose: they are unsuitable as portable
/// shortcuts.
/// The digits are deliberately unified between the main row and the numpad.
#[derive(Clone, Copy, Debug, Eq, Ord, PartialEq, PartialOrd, Hash, Structural)]
pub enum Key {
    ArrowDown,
    ArrowLeft,
    ArrowRight,
    ArrowUp,

    Escape,
    Tab,
    Backspace,
    Enter,
    Space,

    Insert,
    Delete,
    Home,
    End,
    PageUp,
    PageDown,

    /// Either from the main row or from the numpad.
    Num0,
    /// Either from the main row or from the numpad.
    Num1,
    /// Either from the main row or from the numpad.
    Num2,
    /// Either from the main row or from the numpad.
    Num3,
    /// Either from the main row or from the numpad.
    Num4,
    /// Either from the main row or from the numpad.
    Num5,
    /// Either from the main row or from the numpad.
    Num6,
    /// Either from the main row or from the numpad.
    Num7,
    /// Either from the main row or from the numpad.
    Num8,
    /// Either from the main row or from the numpad.
    Num9,

    /// Used for command+A (select all).
    A,
    B,
    C,
    D,
    E,
    F,
    G,
    H,
    I,
    J,
    /// Used for ctrl+K (delete text after cursor).
    K,
    L,
    M,
    N,
    O,
    P,
    Q,
    R,
    S,
    T,
    /// Used for ctrl+U (delete text before cursor).
    U,
    V,
    /// Used for ctrl+W (delete previous word).
    W,
    X,
    Y,
    /// Used for command+Z (undo).
    Z,
}

} // verus!
