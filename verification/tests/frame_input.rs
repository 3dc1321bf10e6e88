use frame_input::Event;
use frame_input::Key;
use frame_input::Modifiers;
use frame_input::Pos2;
use frame_input::RawInput;
use frame_input::Rect;
use frame_input::ScalarBits;
use frame_input::TimeBits;
use frame_input::Vec2;
use frame_input::DEFAULT_PREDICTED_DT_BITS;

fn scalar(v: f32) -> ScalarBits {
    ScalarBits { bits: v.to_bits() }
}

fn pos(x: f32, y: f32) -> Pos2 {
    Pos2 { x: scalar(x), y: scalar(y) }
}

fn vec2(x: f32, y: f32) -> Vec2 {
    Vec2 { x: scalar(x), y: scalar(y) }
}

#[test]
fn scalar_bits_carry_values_exactly() {
    assert_eq!(f32::from_bits(scalar(12.5).bits), 12.5);
    assert_eq!(f32::from_bits(ScalarBits::zero().bits), 0.0);
    assert_eq!(Vec2::zero(), vec2(0.0, 0.0));
    let t = TimeBits { bits: (2.25f64).to_bits() };
    assert_eq!(f64::from_bits(t.bits), 2.25);
}

#[test]
fn default_predicted_dt_is_one_sixtieth() {
    assert_eq!(DEFAULT_PREDICTED_DT_BITS, (1.0f32 / 60.0).to_bits());
    assert_eq!(f32::from_bits(RawInput::default().predicted_dt.bits), 1.0 / 60.0);
}

#[test]
fn default_aggregate_fields() {
    let d = RawInput::default();
    assert_eq!(d.mouse_down, false);
    assert_eq!(d.mouse_pos, None);
    assert_eq!(d.scroll_delta, Vec2::zero());
    assert_eq!(d.screen_rect, None);
    assert_eq!(d.pixels_per_point, None);
    assert_eq!(d.time, None);
    assert_eq!(d.predicted_dt.bits, (1.0f32 / 60.0).to_bits());
    assert_eq!(d.modifiers, Modifiers::default());
    assert!(d.events.is_empty());
}

#[test]
fn modifiers_default_all_false() {
    let m = Modifiers::default();
    assert!(!m.alt && !m.ctrl && !m.shift && !m.mac_cmd && !m.command);
}

#[test]
fn take_keeps_steady_state_and_drains_volatile() {
    let mut a = RawInput::default();
    a.mouse_down = true;
    a.mouse_pos = Some(pos(3.0, 4.0));
    a.scroll_delta = vec2(0.0, -7.5);
    a.screen_rect = Some(Rect { min: pos(0.0, 0.0), max: pos(800.0, 600.0) });
    a.pixels_per_point = Some(scalar(2.0));
    a.time = Some(TimeBits { bits: (1.5f64).to_bits() });
    a.modifiers = Modifiers { alt: false, ctrl: true, shift: false, mac_cmd: false, command: true };
    a.events = vec![Event::Copy];

    let r = a.take();

    // the snapshot carries every field the source had before the call
    assert_eq!(r.mouse_down, true);
    assert_eq!(r.mouse_pos, Some(pos(3.0, 4.0)));
    assert_eq!(r.scroll_delta, vec2(0.0, -7.5));
    assert_eq!(r.screen_rect, Some(Rect { min: pos(0.0, 0.0), max: pos(800.0, 600.0) }));
    assert_eq!(r.pixels_per_point, Some(scalar(2.0)));
    assert_eq!(r.time, Some(TimeBits { bits: (1.5f64).to_bits() }));
    assert_eq!(r.modifiers, a.modifiers);
    assert_eq!(r.events, vec![Event::Copy]);

    // the source keeps its steady state and loses the volatile fields
    assert_eq!(a.mouse_down, true);
    assert_eq!(a.mouse_pos, Some(pos(3.0, 4.0)));
    assert_eq!(a.scroll_delta, Vec2::zero());
    assert_eq!(a.screen_rect, Some(Rect { min: pos(0.0, 0.0), max: pos(800.0, 600.0) }));
    assert_eq!(a.pixels_per_point, Some(scalar(2.0)));
    assert_eq!(a.time, Some(TimeBits { bits: (1.5f64).to_bits() }));
    assert!(a.events.is_empty());
}

#[test]
fn take_twice_yields_empty_log_and_zero_scroll() {
    let mut a = RawInput::default();
    a.scroll_delta = vec2(1.0, 2.0);
    a.events = vec![Event::Cut, Event::Text(String::from("hi"))];

    let _first = a.take();
    let second = a.take();

    assert!(second.events.is_empty());
    assert_eq!(second.scroll_delta, Vec2::zero());
    assert!(a.events.is_empty());
    assert_eq!(a.scroll_delta, Vec2::zero());
}

#[test]
fn take_of_default_aggregate_is_total() {
    let mut a = RawInput::default();
    let r = a.take();
    assert!(r.events.is_empty());
    assert_eq!(r.scroll_delta, Vec2::zero());
    assert_eq!(r.mouse_pos, None);
}

#[test]
fn event_order_is_preserved() {
    let evs = vec![
        Event::Key { key: Key::A, pressed: true, modifiers: Modifiers::default() },
        Event::Text(String::from("x")),
        Event::Cut,
    ];
    let mut a = RawInput::default();
    a.events = evs.clone();
    let r = a.take();
    assert_eq!(r.events, evs);
}

#[test]
fn repeated_presses_pass_through_unmodified() {
    let press = Event::Key { key: Key::Space, pressed: true, modifiers: Modifiers::default() };
    let mut a = RawInput::default();
    a.events = vec![press.clone(), press.clone(), press.clone()];
    let r = a.take();
    assert_eq!(r.events.len(), 3);
    assert_eq!(r.events, vec![press.clone(), press.clone(), press]);
}

#[test]
fn scenario_pointer_and_enter() {
    let mut a = RawInput::default();
    a.mouse_pos = Some(pos(12.5, 40.0));
    a.mouse_down = true;
    a.events = vec![Event::Key { key: Key::Enter, pressed: true, modifiers: Modifiers::default() }];

    let r = a.take();
    assert_eq!(r.mouse_pos, Some(pos(12.5, 40.0)));
    assert_eq!(f32::from_bits(r.mouse_pos.unwrap().x.bits), 12.5);
    assert_eq!(f32::from_bits(r.mouse_pos.unwrap().y.bits), 40.0);
    assert_eq!(r.mouse_down, true);
    assert_eq!(
        r.events,
        vec![Event::Key { key: Key::Enter, pressed: true, modifiers: Modifiers::default() }]
    );

    let again = a.take();
    assert!(again.events.is_empty());
}

#[test]
fn scenario_command_normalization() {
    // ctrl held on a Windows or Linux host
    let m = Modifiers::normalized(false, true, false, false, false);
    assert_eq!(m.command, true);
    assert_eq!(m.ctrl, true);
    assert_eq!(m.mac_cmd, false);

    // the command key held on a Mac host
    let m = Modifiers::normalized(false, false, false, true, true);
    assert_eq!(m.command, true);
    assert_eq!(m.ctrl, false);
    assert_eq!(m.mac_cmd, true);

    // ctrl alone on a Mac host is not the shortcut modifier
    let m = Modifiers::normalized(false, true, false, false, true);
    assert_eq!(m.command, false);
}

#[test]
fn keys_compare_and_order() {
    assert_eq!(Key::A, Key::A);
    assert_ne!(Key::A, Key::B);
    assert!(Key::ArrowDown < Key::Z);
}
