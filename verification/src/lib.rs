//! The input a host environment feeds to an immediate-mode UI engine at the
//! start of each frame: a closed vocabulary of keys and modifier flags, an
//! ordered log of input events, and the per-frame aggregate with its drain
//! operation that hands the volatile fields to the engine atomically.

pub mod event;
pub mod geometry;
pub mod key;
pub mod modifiers;
pub mod raw_input;

pub use event::Event;
pub use geometry::Pos2;
pub use geometry::Rect;
pub use geometry::ScalarBits;
pub use geometry::TimeBits;
pub use geometry::Vec2;
pub use key::Key;
pub use modifiers::Modifiers;
pub use raw_input::FrameView;
pub use raw_input::RawInput;
pub use raw_input::DEFAULT_PREDICTED_DT_BITS;
