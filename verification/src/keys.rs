use vstd::prelude::*;

verus! {

/// A native input subsystem that events can be injected into.
///
/// The two backends differ in which primitives they offer; the translator
/// consults the capability predicates below rather than the variant itself.
#[derive(Clone, Copy, Debug, PartialEq, Eq, Structural)]
pub enum Backend {
    /// The X11 testing extension: integer key codes and button indices, no
    /// scroll primitive, a relative pointer move, no notion of dragging.
    X11,
    /// The Quartz event services: a pixel scroll primitive, distinct drag
    /// events, button events that carry a position, no relative pointer move.
    Quartz,
}

impl Backend {
    /// Whether the backend can scroll by an amount in one native call.
    pub open spec fn native_scroll(self) -> bool {
        self is Quartz
    }

    /// Whether the backend can move the pointer by an offset in one native call.
    pub open spec fn native_relative_move(self) -> bool {
        self is X11
    }

    /// Whether the backend tells a pointer move with a held button (a drag)
    /// apart from a plain move, so that the held buttons must be read first.
    pub open spec fn distinguishes_drag(self) -> bool {
        self is Quartz
    }

    /// Whether a button event of the backend carries the position at which it
    /// happens, so that the pointer must be read first.
    pub open spec fn positions_buttons(self) -> bool {
        self is Quartz
    }

    pub fn has_native_scroll(self) -> (r: bool)
        ensures
            r == self.native_scroll(),
    {
        match self {
            Backend::X11 => false,
            Backend::Quartz => true,
        }
    }

    pub fn has_native_relative_move(self) -> (r: bool)
        ensures
            r == self.native_relative_move(),
    {
        match self {
            Backend::X11 => true,
            Backend::Quartz => false,
        }
    }

    pub fn has_drag_events(self) -> (r: bool)
        ensures
            r == self.distinguishes_drag(),
    {
        match self {
            Backend::X11 => false,
            Backend::Quartz => true,
        }
    }

    pub fn has_positioned_buttons(self) -> (r: bool)
        ensures
            r == self.positions_buttons(),
    {
        match self {
            Backend::X11 => false,
            Backend::Quartz => true,
        }
    }
}

/// A pointer button. `Unknown` carries a device-specific raw code.
#[derive(Clone, Copy, Debug, PartialEq, Eq, Structural)]
pub enum Button {
    Left,
    Middle,
    Right,
    Unknown(u64),
}

/// A keyboard key, named independently of any backend's code space.
/// `Unknown` carries a raw native code.
#[derive(Clone, Copy, Debug, PartialEq, Eq, Structural)]
pub enum Key {
    Alt,
    AltGr,
    Backspace,
    CapsLock,
    ControlLeft,
    ControlRight,
    Delete,
    DownArrow,
    End,
    Escape,
    F1,
    F10,
    F11,
    F12,
    F2,
    F3,
    F4,
    F5,
    F6,
    F7,
    F8,
    F9,
    Home,
    LeftArrow,
    MetaLeft,
    MetaRight,
    PageDown,
    PageUp,
    Return,
    RightArrow,
    ShiftLeft,
    ShiftRight,
    Space,
    Tab,
    UpArrow,
    PrintScreen,
    ScrollLock,
    Pause,
    NumLock,
    BackQuote,
    Num1,
    Num2,
    Num3,
    Num4,
    Num5,
    Num6,
    Num7,
    Num8,
    Num9,
    Num0,
    Minus,
    Equal,
    KeyQ,
    KeyW,
    KeyE,
    KeyR,
    KeyT,
    KeyY,
    KeyU,
    KeyI,
    KeyO,
    KeyP,
    LeftBracket,
    RightBracket,
    KeyA,
    KeyS,
    KeyD,
    KeyF,
    KeyG,
    KeyH,
    KeyJ,
    KeyK,
    KeyL,
    SemiColon,
    Quote,
    BackSlash,
    IntlBackslash,
    KeyZ,
    KeyX,
    KeyC,
    KeyV,
    KeyB,
    KeyN,
    KeyM,
    Comma,
    Dot,
    Slash,
    Insert,
    KpReturn,
    KpMinus,
    KpPlus,
    KpMultiply,
    KpDivide,
    Kp0,
    Kp1,
    Kp2,
    Kp3,
    Kp4,
    Kp5,
    Kp6,
    Kp7,
    Kp8,
    Kp9,
    KpDelete,
    Function,
    Unknown(u32),
}

} // verus!
