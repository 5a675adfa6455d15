//! The raw input events delivered by the platform hook, and the canonical
//! actions the relay publishes.
use vstd::prelude::*;

verus! {

/// A physical key as the platform hook names it. Keys without a named
/// variant arrive as `Unknown` with the platform's numeric code.
#[derive(Clone, Copy, Debug, PartialEq, Eq, Structural, Hash)]
pub enum Key {
    Alt,
    AltGr,
    Backspace,
    CapsLock,
    ControlLeft,
    ControlRight,
    Delete,
    DownArrow,
    End,
    Escape,
    F1,
    F10,
    F11,
    F12,
    F2,
    F3,
    F4,
    F5,
    F6,
    F7,
    F8,
    F9,
    Home,
    LeftArrow,
    MetaLeft,
    MetaRight,
    PageDown,
    PageUp,
    Return,
    RightArrow,
    ShiftLeft,
    ShiftRight,
    Space,
    Tab,
    UpArrow,
    PrintScreen,
    ScrollLock,
    Pause,
    NumLock,
    BackQuote,
    Num1,
    Num2,
    Num3,
    Num4,
    Num5,
    Num6,
    Num7,
    Num8,
    Num9,
    Num0,
    Minus,
    Equal,
    KeyQ,
    KeyW,
    KeyE,
    KeyR,
    KeyT,
    KeyY,
    KeyU,
    KeyI,
    KeyO,
    KeyP,
    LeftBracket,
    RightBracket,
    KeyA,
    KeyS,
    KeyD,
    KeyF,
    KeyG,
    KeyH,
    KeyJ,
    KeyK,
    KeyL,
    SemiColon,
    Quote,
    BackSlash,
    IntlBackslash,
    KeyZ,
    KeyX,
    KeyC,
    KeyV,
    KeyB,
    KeyN,
    KeyM,
    Comma,
    Dot,
    Slash,
    Insert,
    KpReturn,
    KpMinus,
    KpPlus,
    KpMultiply,
    KpDivide,
    Kp0,
    Kp1,
    Kp2,
    Kp3,
    Kp4,
    Kp5,
    Kp6,
    Kp7,
    Kp8,
    Kp9,
    KpDelete,
    Function,
    Unknown(u32),
}

/// A physical mouse button; buttons beyond the first three carry their code.
#[derive(Clone, Copy, Debug, PartialEq, Eq, Structural, Hash)]
pub enum Button {
    Left,
    Right,
    Middle,
    Unknown(u8),
}

/// A pointer position. Each coordinate is held as the IEEE-754 bit pattern of
/// the double the platform reported, so it passes through unmodified.
#[derive(Clone, Copy, Debug, PartialEq, Eq, Structural, Hash)]
pub struct Coords {
    pub x_bits: u64,
    pub y_bits: u64,
}

/// One event as the platform hook reports it.
#[derive(Clone, Copy, Debug, PartialEq, Eq, Structural, Hash)]
pub enum RawEvent {
    KeyPress(Key),
    KeyRelease(Key),
    ButtonPress(Button),
    ButtonRelease(Button),
    MouseMove(Coords),
    Wheel { delta_x: i64, delta_y: i64 },
}

/// The closed set of action kinds on the wire.
#[derive(Clone, Copy, Debug, PartialEq, Eq, Structural, Hash)]
pub enum ActionKind {
    MouseMove,
    MousePress,
    MouseRelease,
    KeyboardPress,
    KeyboardRelease,
}

impl ActionKind {
    /// The stable wire name of the kind.
    pub open spec fn spec_name(self) -> Seq<char> {
        match self {
            ActionKind::MouseMove => "MouseMove"@,
            ActionKind::MousePress => "MousePress"@,
            ActionKind::MouseRelease => "MouseRelease"@,
            ActionKind::KeyboardPress => "KeyboardPress"@,
            ActionKind::KeyboardRelease => "KeyboardRelease"@,
        }
    }

    /// The stable wire name of the kind.
    pub fn name(&self) -> (r: &'static str)
        ensures
            r@ == self.spec_name(),
    {
        match self {
            ActionKind::MouseMove => "MouseMove",
            ActionKind::MousePress => "MousePress",
            ActionKind::MouseRelease => "MouseRelease",
            ActionKind::KeyboardPress => "KeyboardPress",
            ActionKind::KeyboardRelease => "KeyboardRelease",
        }
    }
}

/// The payload of an action: a symbolic token, or a pointer position.
#[derive(Clone, Debug)]
pub enum ActionValue {
    Token(String),
    Coords(Coords),
}

/// The mathematical content of an `ActionValue`.
pub enum ValueModel {
    Token(Seq<char>),
    Coords(Coords),
}

impl View for ActionValue {
    type V = ValueModel;

    open spec fn view(&self) -> ValueModel {
        match self {
            ActionValue::Token(t) => ValueModel::Token(t@),
            ActionValue::Coords(c) => ValueModel::Coords(*c),
        }
    }
}

impl PartialEq for ActionValue {
    fn eq(&self, other: &ActionValue) -> (r: bool) {
        match self {
            ActionValue::Token(a) => match other {
                ActionValue::Token(b) => a.eq(b),
                ActionValue::Coords(_) => false,
            },
            ActionValue::Coords(a) => match other {
                ActionValue::Token(_) => false,
                ActionValue::Coords(b) => *a == *b,
            },
        }
    }
}

impl vstd::std_specs::cmp::PartialEqSpecImpl for ActionValue {
    open spec fn obeys_eq_spec() -> bool {
        true
    }

    open spec fn eq_spec(&self, other: &ActionValue) -> bool {
        self@ == other@
    }
}

/// One canonical input action. Its value is a position exactly when its kind
/// is `MouseMove`.
#[derive(Clone, Debug)]
pub struct Action {
    pub kind: ActionKind,
    pub value: ActionValue,
}

/// The mathematical content of an `Action`.
pub struct ActionModel {
    pub kind: ActionKind,
    pub value: ValueModel,
}

impl ActionModel {
    /// The value's shape agrees with the kind.
    pub open spec fn well_formed(self) -> bool {
        (self.kind == ActionKind::MouseMove) == (self.value is Coords)
    }
}

impl View for Action {
    type V = ActionModel;

    open spec fn view(&self) -> ActionModel {
        ActionModel { kind: self.kind, value: self.value@ }
    }
}

impl PartialEq for Action {
    fn eq(&self, other: &Action) -> (r: bool) {
        self.kind == other.kind && self.value == other.value
    }
}

impl vstd::std_specs::cmp::PartialEqSpecImpl for Action {
    open spec fn obeys_eq_spec() -> bool {
        true
    }

    open spec fn eq_spec(&self, other: &Action) -> bool {
        self@ == other@
    }
}

impl Action {
    /// A pointer-move action at the given position.
    pub fn mouse_move(at: Coords) -> (r: Action)
        ensures
            r@ == (ActionModel { kind: ActionKind::MouseMove, value: ValueModel::Coords(at) }),
    {
        Action { kind: ActionKind::MouseMove, value: ActionValue::Coords(at) }
    }

    /// An action carrying a symbolic token.
    pub fn with_token(kind: ActionKind, token: String) -> (r: Action)
        ensures
            r@ == (ActionModel { kind, value: ValueModel::Token(token@) }),
    {
        Action { kind, value: ActionValue::Token(token) }
    }
}

/// The model of an optional action.
pub open spec fn option_model(a: Option<Action>) -> Option<ActionModel> {
    match a {
        Some(a) => Some(a@),
        None => None,
    }
}

} // verus!
