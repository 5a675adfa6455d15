use pet_input::event::{Action, ActionKind, ActionValue, Button, Coords, Key, RawEvent};
use pet_input::symbols::{key_code_symbol, map_button, map_key, named_key_symbol};
use pet_input::throttle::{Throttle, THROTTLE_INTERVAL_NS};
use pet_input::translate::translate_event;

const MS: u64 = 1_000_000;

fn at(x: f64, y: f64) -> Coords {
    Coords { x_bits: x.to_bits(), y_bits: y.to_bits() }
}

fn token(kind: ActionKind, t: &str) -> Action {
    Action { kind, value: ActionValue::Token(t.to_string()) }
}

fn moved(x: f64, y: f64) -> Action {
    Action { kind: ActionKind::MouseMove, value: ActionValue::Coords(at(x, y)) }
}

#[test]
fn control_and_shift_sides_share_a_token() {
    assert_eq!(map_key(Key::ControlLeft), Some("Control".to_string()));
    assert_eq!(map_key(Key::ControlRight), Some("Control".to_string()));
    assert_eq!(map_key(Key::ShiftLeft), Some("Shift".to_string()));
    assert_eq!(map_key(Key::ShiftRight), Some("Shift".to_string()));
    assert_eq!(map_key(Key::MetaRight), Some("Meta".to_string()));
    assert_eq!(map_key(Key::AltGr), Some("Alt".to_string()));
}

#[test]
fn keypad_digits_share_the_digit_row_tokens() {
    assert_eq!(map_key(Key::Kp0), Some("Num0".to_string()));
    assert_eq!(map_key(Key::Kp7), Some("Num7".to_string()));
    assert_eq!(map_key(Key::Num7), Some("Num7".to_string()));
}

#[test]
fn unmapped_keys_yield_nothing() {
    assert_eq!(map_key(Key::Function), None);
    assert_eq!(map_key(Key::SemiColon), None);
    assert_eq!(map_key(Key::Unknown(5)), None);
    let mut th = Throttle::new();
    assert_eq!(translate_event(&RawEvent::KeyPress(Key::PrintScreen), 0, &mut th), None);
    assert_eq!(translate_event(&RawEvent::KeyRelease(Key::Unknown(1)), 0, &mut th), None);
    assert_eq!(th, Throttle::new());
}

#[test]
fn punctuation_codes_use_the_fallback_tier() {
    assert_eq!(map_key(Key::Unknown(188)), Some(",".to_string()));
    assert_eq!(map_key(Key::Unknown(190)), Some(".".to_string()));
    assert_eq!(map_key(Key::Unknown(191)), Some("/".to_string()));
    assert_eq!(map_key(Key::Unknown(186)), Some(";".to_string()));
    assert_eq!(map_key(Key::Unknown(222)), Some("'".to_string()));
    assert_eq!(map_key(Key::Unknown(219)), Some("[".to_string()));
    assert_eq!(map_key(Key::Unknown(221)), Some("]".to_string()));
    assert_eq!(map_key(Key::Unknown(220)), Some("\\".to_string()));
    assert_eq!(map_key(Key::Unknown(189)), Some("-".to_string()));
    assert_eq!(map_key(Key::Unknown(187)), Some("=".to_string()));
    assert_eq!(key_code_symbol(65), None);
    assert_eq!(named_key_symbol(Key::Unknown(188)), None);
    assert_eq!(named_key_symbol(Key::Escape), Some("Escape"));
}

#[test]
fn buttons_map_to_numbered_tokens() {
    assert_eq!(map_button(Button::Left), "Mouse1");
    assert_eq!(map_button(Button::Right), "Mouse2");
    assert_eq!(map_button(Button::Middle), "Mouse3");
    assert_eq!(map_button(Button::Unknown(0)), "Mouse0");
    assert_eq!(map_button(Button::Unknown(4)), "Mouse4");
    assert_eq!(map_button(Button::Unknown(42)), "Mouse42");
    assert_eq!(map_button(Button::Unknown(105)), "Mouse105");
    assert_eq!(map_button(Button::Unknown(255)), "Mouse255");
}

#[test]
fn button_events_always_yield_actions() {
    let mut th = Throttle::started_at(0);
    assert_eq!(
        translate_event(&RawEvent::ButtonPress(Button::Right), 1, &mut th),
        Some(token(ActionKind::MousePress, "Mouse2"))
    );
    assert_eq!(
        translate_event(&RawEvent::ButtonRelease(Button::Unknown(8)), 1, &mut th),
        Some(token(ActionKind::MouseRelease, "Mouse8"))
    );
    assert_eq!(th, Throttle::started_at(0));
}

#[test]
fn wheel_events_are_ignored() {
    let mut th = Throttle::new();
    let ev = RawEvent::Wheel { delta_x: 0, delta_y: -3 };
    assert_eq!(translate_event(&ev, 100 * MS, &mut th), None);
    assert_eq!(th, Throttle::new());
}

#[test]
fn moves_are_throttled_to_one_per_interval() {
    let mut th = Throttle::new();
    let mut accepted = Vec::new();
    for ms in 0..41u64 {
        let ev = RawEvent::MouseMove(at(ms as f64, 2.5 * ms as f64));
        if let Some(a) = translate_event(&ev, ms * MS, &mut th) {
            accepted.push((ms, a));
        }
    }
    assert_eq!(accepted.len(), 3);
    assert_eq!(accepted[0], (0, moved(0.0, 0.0)));
    assert_eq!(accepted[1], (16, moved(16.0, 40.0)));
    assert_eq!(accepted[2], (32, moved(32.0, 80.0)));
    assert_eq!(th, Throttle::started_at(32 * MS));
}

#[test]
fn throttle_boundary_is_inclusive() {
    let mut th = Throttle::started_at(1000);
    assert!(!th.offer(1000 + THROTTLE_INTERVAL_NS - 1));
    assert_eq!(th, Throttle::started_at(1000));
    assert!(th.offer(1000 + THROTTLE_INTERVAL_NS));
    assert_eq!(th, Throttle::started_at(1000 + THROTTLE_INTERVAL_NS));
}

#[test]
fn time_before_the_last_move_counts_as_none() {
    let mut th = Throttle::started_at(100 * MS);
    assert!(!th.offer(0));
    assert!(!th.offer(50 * MS));
    assert!(th.offer(116 * MS));
}

#[test]
fn startup_time_throttles_early_moves() {
    let mut th = Throttle::started_at(0);
    let ev = RawEvent::MouseMove(at(1.0, 1.0));
    assert_eq!(translate_event(&ev, 10 * MS, &mut th), None);
    assert_eq!(translate_event(&ev, 16 * MS, &mut th), Some(moved(1.0, 1.0)));
}

#[test]
fn coordinates_pass_through_bit_for_bit() {
    let mut th = Throttle::new();
    let odd = Coords { x_bits: (-0.0f64).to_bits(), y_bits: f64::NAN.to_bits() };
    let got = translate_event(&RawEvent::MouseMove(odd), 0, &mut th);
    assert_eq!(got, Some(Action::mouse_move(odd)));
}

#[test]
fn end_to_end_scenario() {
    let mut th = Throttle::new();
    let events = [
        (RawEvent::KeyPress(Key::KeyA), 0),
        (RawEvent::ButtonPress(Button::Left), 0),
        (RawEvent::MouseMove(at(10.0, 20.0)), 0),
        (RawEvent::MouseMove(at(11.0, 21.0)), 5 * MS),
        (RawEvent::MouseMove(at(12.0, 22.0)), 20 * MS),
    ];
    let out: Vec<Action> =
        events.iter().filter_map(|(e, t)| translate_event(e, *t, &mut th)).collect();
    assert_eq!(
        out,
        vec![
            token(ActionKind::KeyboardPress, "KeyA"),
            token(ActionKind::MousePress, "Mouse1"),
            moved(10.0, 20.0),
            moved(12.0, 22.0),
        ]
    );
}

#[test]
fn kind_names_are_stable() {
    assert_eq!(ActionKind::MouseMove.name(), "MouseMove");
    assert_eq!(ActionKind::MousePress.name(), "MousePress");
    assert_eq!(ActionKind::MouseRelease.name(), "MouseRelease");
    assert_eq!(ActionKind::KeyboardPress.name(), "KeyboardPress");
    assert_eq!(ActionKind::KeyboardRelease.name(), "KeyboardRelease");
}
