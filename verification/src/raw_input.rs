//! The per-frame input aggregate and its drain operation.

use vstd::prelude::*;
use crate::event::Event;
use crate::geometry::Pos2;
use crate::geometry::Rect;
use crate::geometry::ScalarBits;
use crate::geometry::TimeBits;
use crate::geometry::Vec2;
use crate::modifiers::Modifiers;

verus! {

/// The default `predicted_dt`: the bit pattern of one sixtieth of a second
/// as a single-precision number, the frame interval when painting at 60 Hz
/// vsync speed.
pub const DEFAULT_PREDICTED_DT_BITS: u32 = 0x3C888889;

/// What the host provides to the engine at the start of each frame.
///
/// Set the fields that make sense, leave the rest at their defaults. All
/// coordinates are in points (logical pixels) with the origin in the top
/// left corner.
///
/// Two of the fields are volatile accumulators, filled by the host across a
/// frame's duration and drained exactly once per frame by the engine through
/// [`RawInput::take`]: `scroll_delta` and `events`. The rest is steady
/// state, which the drain leaves in place for the host to keep updating.
#[derive(Clone, Debug)]
pub struct RawInput {
    /// Is the primary pointer button currently down?
    pub mouse_down: bool,
    /// Current position of the pointer in points, if any is known.
    pub mouse_pos: Option<Pos2>,
    /// How many points the user scrolled since the last frame.
    pub scroll_delta: Vec2,
    /// Position and size of the area the engine should use. `None` is
    /// treated as "same as last frame", with the default being a very big
    /// area.
    pub screen_rect: Option<Rect>,
    /// Physical pixels per point, above one for HiDPI screens. Also known
    /// as the device pixel ratio.
    pub pixels_per_point: Option<ScalarBits>,
    /// Monotonically increasing time in seconds, relative to whatever; used
    /// for animations. If `None`, the engine assumes a time delta of
    /// `predicted_dt`.
    pub time: Option<TimeBits>,
    /// The expected time until the next frame, in seconds; can safely be
    /// left at its default of one sixtieth.
    pub predicted_dt: ScalarBits,
    /// Which modifier keys are down at the start of the frame.
    pub modifiers: Modifiers,
    /// The events received this frame, in chronological order.
    pub events: Vec<Event>,
}

/// The mathematical content of a frame aggregate: each scalar field as it
/// stands, and the event log as a sequence.
#[verifier::ext_equal]
pub ghost struct FrameView {
    pub mouse_down: bool,
    pub mouse_pos: Option<Pos2>,
    pub scroll_delta: Vec2,
    pub screen_rect: Option<Rect>,
    pub pixels_per_point: Option<ScalarBits>,
    pub time: Option<TimeBits>,
    pub predicted_dt: ScalarBits,
    pub modifiers: Modifiers,
    pub events: Seq<Event>,
}

impl View for RawInput {
    type V = FrameView;

    open spec fn view(&self) -> FrameView {
        FrameView {
            mouse_down: self.mouse_down,
            mouse_pos: self.mouse_pos,
            scroll_delta: self.scroll_delta,
            screen_rect: self.screen_rect,
            pixels_per_point: self.pixels_per_point,
            time: self.time,
            predicted_dt: self.predicted_dt,
            modifiers: self.modifiers,
            events: self.events@,
        }
    }
}

impl FrameView {
    /// The aggregate with every field at its default: nothing known about
    /// the pointer, the screen or the time, zero scroll, one sixtieth of a
    /// second until the next frame, no modifier down, and no events.
    pub open spec fn default_spec() -> FrameView {
        FrameView {
            mouse_down: false,
            mouse_pos: None,
            scroll_delta: Vec2::zero(),
            screen_rect: None,
            pixels_per_point: None,
            time: None,
            predicted_dt: ScalarBits { bits: DEFAULT_PREDICTED_DT_BITS },
            modifiers: Modifiers::none_spec(),
            events: Seq::empty(),
        }
    }

    /// What a drain leaves behind: every steady-state field of `self`
    /// unchanged, and the two volatile accumulators reset to their empty
    /// defaults.
    pub open spec fn drained(self) -> FrameView {
        FrameView {
            mouse_down: self.mouse_down,
            mouse_pos: self.mouse_pos,
            scroll_delta: Vec2::zero(),
            screen_rect: self.screen_rect,
            pixels_per_point: self.pixels_per_point,
            time: self.time,
            predicted_dt: self.predicted_dt,
            modifiers: self.modifiers,
            events: Seq::empty(),
        }
    }
}

impl Default for RawInput {
    /// A usable, default-safe frame: the host may set only the fields it
    /// has information for.
    fn default() -> (r: RawInput)
        ensures
            r@ == FrameView::default_spec(),
    {
        RawInput {
            mouse_down: false,
            mouse_pos: None,
            scroll_delta: Vec2::zero(),
            screen_rect: None,
            pixels_per_point: None,
            time: None,
            predicted_dt: ScalarBits { bits: DEFAULT_PREDICTED_DT_BITS },
            modifiers: Modifiers::default(),
            events: Vec::new(),
        }
    }
}

impl RawInput {
    /// Drains the frame: moves the volatile fields (`scroll_delta` and
    /// `events`) into the result, resetting them in `self`, and copies every
    /// steady-state field, which stays in `self` for the host to keep
    /// updating.
    ///
    /// The result is an atomic snapshot of the whole frame - its view equals
    /// the source's view before the call, the event log in its recorded
    /// order - so the engine consumes "what happened this frame" without the
    /// host having to clear the queue or re-zero the scroll delta itself.
    /// The operation is total: it cannot fail on any aggregate.
    pub fn take(&mut self) -> (r: RawInput)
        ensures
            r@ == old(self)@,
            r.events@ == old(self).events@,
            final(self)@ == old(self)@.drained(),
            final(self).events@ == Seq::<Event>::empty(),
            final(self).scroll_delta == Vec2::zero(),
    {
        let scroll_delta = self.scroll_delta;
        self.scroll_delta = Vec2::zero();
        let mut events: Vec<Event> = Vec::new();
        core::mem::swap(&mut self.events, &mut events);
        RawInput {
            mouse_down: self.mouse_down,
            mouse_pos: self.mouse_pos,
            scroll_delta,
            screen_rect: self.screen_rect,
            pixels_per_point: self.pixels_per_point,
            time: self.time,
            predicted_dt: self.predicted_dt,
            modifiers: self.modifiers,
            events,
        }
    }
}

/// The drain keeps every steady-state field of the aggregate and resets
/// exactly the two volatile accumulators: together with the contract of
/// [`RawInput::take`], whose result carries the source's pre-call view, this
/// says that the snapshot the engine receives agrees with the host's
/// steady state while the source is left with an empty log and zero scroll.
pub proof fn lemma_drain_splits_fields(a: FrameView)
    ensures
        a.drained().mouse_down == a.mouse_down,
        a.drained().mouse_pos == a.mouse_pos,
        a.drained().screen_rect == a.screen_rect,
        a.drained().pixels_per_point == a.pixels_per_point,
        a.drained().time == a.time,
        a.drained().predicted_dt == a.predicted_dt,
        a.drained().modifiers == a.modifiers,
        a.drained().scroll_delta == Vec2::zero(),
        a.drained().events.len() == 0,
{
}

/// Draining is idempotent: whatever the first drain consumed, a drained
/// aggregate drains to itself, and a second call of [`RawInput::take`] -
/// whose result carries the source's view, by then `a.drained()` - hands the
/// engine an empty event log and a zero scroll delta.
pub proof fn lemma_drain_idempotent(a: FrameView)
    ensures
        a.drained().drained() == a.drained(),
        a.drained().events.len() == 0,
        a.drained().scroll_delta == Vec2::zero(),
{
    assert(a.drained().drained() =~= a.drained());
}

} // verus!
