use pet_input::event::{Action, ActionKind, ActionValue, Coords};
use pet_input::session::{Command, Session, SessionEvent, SessionState};
use pet_input::wire::{encode_action, frame_point, frame_record};

fn token(kind: ActionKind, t: &str) -> Action {
    Action { kind, value: ActionValue::Token(t.to_string()) }
}

fn moved(x: f64, y: f64) -> Action {
    Action::mouse_move(Coords { x_bits: x.to_bits(), y_bits: y.to_bits() })
}

fn number(bits: u64) -> String {
    serde_json::to_string(&f64::from_bits(bits)).unwrap()
}

fn encode(a: &Action) -> Option<String> {
    match &a.value {
        ActionValue::Coords(c) => encode_action(a, &number(c.x_bits), &number(c.y_bits)),
        ActionValue::Token(_) => encode_action(a, "", ""),
    }
}

#[test]
fn token_records_match_the_wire_format() {
    let a = token(ActionKind::KeyboardPress, "KeyA");
    assert_eq!(encode(&a).unwrap(), r#"{"kind":"KeyboardPress","value":"KeyA"}"#);
    let b = token(ActionKind::MouseRelease, "Mouse3");
    assert_eq!(encode(&b).unwrap(), r#"{"kind":"MouseRelease","value":"Mouse3"}"#);
}

#[test]
fn tokens_are_escaped_as_json_strings() {
    let a = token(ActionKind::KeyboardRelease, "\\");
    assert_eq!(encode(&a).unwrap(), r#"{"kind":"KeyboardRelease","value":"\\"}"#);
    let q = token(ActionKind::KeyboardPress, "\"");
    assert_eq!(encode(&q).unwrap(), r#"{"kind":"KeyboardPress","value":"\""}"#);
}

#[test]
fn position_records_match_the_wire_format() {
    let a = moved(10.0, 20.0);
    assert_eq!(encode(&a).unwrap(), r#"{"kind":"MouseMove","value":{"x":10.0,"y":20.0}}"#);
    let v: serde_json::Value = serde_json::from_str(&encode(&moved(-1.5, 3.25)).unwrap()).unwrap();
    assert_eq!(v["kind"], "MouseMove");
    assert_eq!(v["value"]["x"].as_f64(), Some(-1.5));
    assert_eq!(v["value"]["y"].as_f64(), Some(3.25));
}

#[test]
fn every_kind_round_trips_through_json() {
    let kinds = [
        ActionKind::MousePress,
        ActionKind::MouseRelease,
        ActionKind::KeyboardPress,
        ActionKind::KeyboardRelease,
    ];
    for k in kinds {
        let text = encode(&token(k, ";")).unwrap();
        let v: serde_json::Value = serde_json::from_str(&text).unwrap();
        assert_eq!(v["kind"], k.name());
        assert_eq!(v["value"], ";");
    }
}

#[test]
fn framing_helpers() {
    assert_eq!(frame_point("1", "2"), r#"{"x":1,"y":2}"#);
    assert_eq!(frame_record(ActionKind::MousePress, "\"Mouse9\""), r#"{"kind":"MousePress","value":"Mouse9"}"#);
}

fn connected() -> Session {
    let mut s = Session::new();
    assert!(matches!(s.step(SessionEvent::HandshakeSucceeded), Command::Await));
    assert_eq!(s.state, SessionState::Active);
    s
}

#[test]
fn session_handshake_failure_closes() {
    let mut s = Session::new();
    assert_eq!(s.state, SessionState::Connecting);
    assert!(matches!(s.step(SessionEvent::HandshakeFailed), Command::Close));
    assert!(s.is_closed());
    assert!(matches!(s.step(SessionEvent::Shutdown), Command::Nothing));
    assert!(matches!(s.step(SessionEvent::HandshakeSucceeded), Command::Nothing));
    assert!(s.is_closed());
}

#[test]
fn session_forwards_an_action() {
    let mut s = connected();
    let a = token(ActionKind::KeyboardPress, "KeyA");
    match s.step(SessionEvent::Received(a.clone())) {
        Command::Encode(got) => assert_eq!(got, a),
        _ => panic!("expected an encode command"),
    }
    let text = encode(&a).unwrap();
    match s.step(SessionEvent::Encoded(Some(text.clone()))) {
        Command::Send(got) => assert_eq!(got, text),
        _ => panic!("expected a send command"),
    }
    assert!(matches!(s.step(SessionEvent::Sent), Command::Await));
    assert!(matches!(s.step(SessionEvent::Encoded(None)), Command::Await));
    assert_eq!(s.state, SessionState::Active);
}

#[test]
fn session_survives_gaps_and_counts_them() {
    let mut s = connected();
    assert!(matches!(s.step(SessionEvent::Lagged(7)), Command::Await));
    assert!(matches!(s.step(SessionEvent::Lagged(3)), Command::Await));
    assert_eq!(s.missed, 10);
    assert!(matches!(s.step(SessionEvent::Lagged(u64::MAX)), Command::Await));
    assert_eq!(s.missed, u64::MAX);
    assert_eq!(s.state, SessionState::Active);
}

#[test]
fn session_closes_on_failure_only_once() {
    for ev in [
        SessionEvent::SendFailed,
        SessionEvent::ReceiveFailed,
        SessionEvent::ChannelClosed,
        SessionEvent::Shutdown,
    ] {
        let mut s = connected();
        assert!(matches!(s.step(ev), Command::Close));
        assert!(s.is_closed());
        assert!(matches!(s.step(SessionEvent::SendFailed), Command::Nothing));
        assert!(matches!(s.step(SessionEvent::Received(moved(1.0, 1.0))), Command::Nothing));
        assert!(s.is_closed());
    }
}

#[test]
fn session_keeps_order_under_load() {
    let mut s = connected();
    let sent: Vec<Action> =
        (0..50u8).map(|i| if i % 3 == 0 { moved(i as f64, 0.5) } else { token(ActionKind::KeyboardPress, &format!("Num{}", i % 10)) }).collect();
    let mut frames = Vec::new();
    for (i, a) in sent.iter().enumerate() {
        if i % 7 == 0 {
            assert!(matches!(s.step(SessionEvent::Lagged(1)), Command::Await));
        }
        let Command::Encode(got) = s.step(SessionEvent::Received(a.clone())) else {
            panic!("expected an encode command")
        };
        let Command::Send(frame) = s.step(SessionEvent::Encoded(encode(&got))) else {
            panic!("expected a send command")
        };
        frames.push(frame);
        assert!(matches!(s.step(SessionEvent::Sent), Command::Await));
    }
    let expected: Vec<String> = sent.iter().map(|a| encode(a).unwrap()).collect();
    assert_eq!(frames, expected);
}
