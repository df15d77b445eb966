use vstd::prelude::*;

verus! {

/// A keyboard usage (HID usage page 0x07), or one of the layer-control codes
/// that the engine consumes itself.
#[derive(Clone, Copy, Debug, PartialEq, Eq, Structural)]
pub enum KeyPress {
    ErrorRollOver,
    POSTFail,
    ErrorUndefine,
    A,
    B,
    C,
    D,
    E,
    F,
    G,
    H,
    I,
    J,
    K,
    L,
    M,
    N,
    O,
    P,
    Q,
    R,
    S,
    T,
    U,
    V,
    W,
    X,
    Y,
    Z,
    Keyboard1,
    Keyboard2,
    Keyboard3,
    Keyboard4,
    Keyboard5,
    Keyboard6,
    Keyboard7,
    Keyboard8,
    Keyboard9,
    Keyboard0,
    ReturnEnter,
    Escape,
    DeleteBackspace,
    Tab,
    Space,
    Minus,
    Equal,
    LeftBrace,
    RightBrace,
    Backslash,
    NonUSHash,
    Semicolon,
    Apostrophe,
    Grave,
    Comma,
    Dot,
    ForwardSlash,
    CapsLock,
    F1,
    F2,
    F3,
    F4,
    F5,
    F6,
    F7,
    F8,
    F9,
    F10,
    F11,
    F12,
    PrintScreen,
    ScrollLock,
    Pause,
    Insert,
    Home,
    PageUp,
    DeleteForward,
    End,
    PageDown,
    RightArrow,
    LeftArrow,
    DownArrow,
    UpArrow,
    KeypadNumLockAndClear,
    KeypadDivide,
    KeypadMultiply,
    KeypadSubtract,
    KeypadAdd,
    KeypadEnter,
    Keypad1,
    Keypad2,
    Keypad3,
    Keypad4,
    Keypad5,
    Keypad6,
    Keypad7,
    Keypad8,
    Keypad9,
    Keypad0,
    KeypadDot,
    NonUSBackslash,
    Application,
    Power,
    KeypadEqual,
    F13,
    F14,
    F15,
    F16,
    F17,
    F18,
    F19,
    F20,
    F21,
    F22,
    F23,
    F24,
    Execute,
    Help,
    Menu,
    Select,
    Stop,
    Again,
    Undo,
    Cut,
    Copy,
    Paste,
    Find,
    Mute,
    VolumeUp,
    VolumeDown,
    LockingCapsLock,
    LockingNumLock,
    LockingScrollLock,
    KeypadComma,
    KeypadEqualSign,
    Kanji1,
    Kanji2,
    Kanji3,
    Kanji4,
    Kanji5,
    Kanji6,
    Kanji7,
    Kanji8,
    Kanji9,
    LANG1,
    LANG2,
    LANG3,
    LANG4,
    LANG5,
    LANG6,
    LANG7,
    LANG8,
    LANG9,
    AlternateErase,
    SysReqAttention,
    Cancel,
    Clear,
    Prior,
    Return,
    Separator,
    Out,
    Oper,
    ClearAgain,
    CrSelProps,
    ExSel,
    // 0xA5-0xDF reserved
    LeftControl,
    LeftShift,
    LeftAlt,
    LeftGUI,
    RightControl,
    RightShift,
    RightAlt,
    RightGUI,
    // 0xE8-0xFF reserved
    LayerIncrement,
    LayerDecrement,
    LayerSet0,
    LayerSet1,
    LayerSet2,
    LayerSet3,
    LayerSet4,
    LayerHold0,
    LayerHold1,
    LayerHold2,
    LayerHold3,
    LayerHold4,
}

/// What a layer-control code asks of the engine.
#[derive(Clone, Copy, Debug, PartialEq, Eq, Structural)]
pub enum LayerAction {
    /// Latch the given layer until another set.
    Latch(usize),
    /// Switch to the given layer while the key is held.
    Hold(usize),
}

impl KeyPress {
    /// The HID usage code of this key; 0 (no event) for the layer-control codes.
    pub open spec fn spec_usage(self) -> u8 {
        match self {
            KeyPress::ErrorRollOver => 0x01,
            KeyPress::POSTFail => 0x02,
            KeyPress::ErrorUndefine => 0x03,
            KeyPress::A => 0x04,
            KeyPress::B => 0x05,
            KeyPress::C => 0x06,
            KeyPress::D => 0x07,
            KeyPress::E => 0x08,
            KeyPress::F => 0x09,
            KeyPress::G => 0x0A,
            KeyPress::H => 0x0B,
            KeyPress::I => 0x0C,
            KeyPress::J => 0x0D,
            KeyPress::K => 0x0E,
            KeyPress::L => 0x0F,
            KeyPress::M => 0x10,
            KeyPress::N => 0x11,
            KeyPress::O => 0x12,
            KeyPress::P => 0x13,
            KeyPress::Q => 0x14,
            KeyPress::R => 0x15,
            KeyPress::S => 0x16,
            KeyPress::T => 0x17,
            KeyPress::U => 0x18,
            KeyPress::V => 0x19,
            KeyPress::W => 0x1A,
            KeyPress::X => 0x1B,
            KeyPress::Y => 0x1C,
            KeyPress::Z => 0x1D,
            KeyPress::Keyboard1 => 0x1E,
            KeyPress::Keyboard2 => 0x1F,
            KeyPress::Keyboard3 => 0x20,
            KeyPress::Keyboard4 => 0x21,
            KeyPress::Keyboard5 => 0x22,
            KeyPress::Keyboard6 => 0x23,
            KeyPress::Keyboard7 => 0x24,
            KeyPress::Keyboard8 => 0x25,
            KeyPress::Keyboard9 => 0x26,
            KeyPress::Keyboard0 => 0x27,
            KeyPress::ReturnEnter => 0x28,
            KeyPress::Escape => 0x29,
            KeyPress::DeleteBackspace => 0x2A,
            KeyPress::Tab => 0x2B,
            KeyPress::Space => 0x2C,
            KeyPress::Minus => 0x2D,
            KeyPress::Equal => 0x2E,
            KeyPress::LeftBrace => 0x2F,
            KeyPress::RightBrace => 0x30,
            KeyPress::Backslash => 0x31,
            KeyPress::NonUSHash => 0x32,
            KeyPress::Semicolon => 0x33,
            KeyPress::Apostrophe => 0x34,
            KeyPress::Grave => 0x35,
            KeyPress::Comma => 0x36,
            KeyPress::Dot => 0x37,
            KeyPress::ForwardSlash => 0x38,
            KeyPress::CapsLock => 0x39,
            KeyPress::F1 => 0x3A,
            KeyPress::F2 => 0x3B,
            KeyPress::F3 => 0x3C,
            KeyPress::F4 => 0x3D,
            KeyPress::F5 => 0x3E,
            KeyPress::F6 => 0x3F,
            KeyPress::F7 => 0x40,
            KeyPress::F8 => 0x41,
            KeyPress::F9 => 0x42,
            KeyPress::F10 => 0x43,
            KeyPress::F11 => 0x44,
            KeyPress::F12 => 0x45,
            KeyPress::PrintScreen => 0x46,
            KeyPress::ScrollLock => 0x47,
            KeyPress::Pause => 0x48,
            KeyPress::Insert => 0x49,
            KeyPress::Home => 0x4A,
            KeyPress::PageUp => 0x4B,
            KeyPress::DeleteForward => 0x4C,
            KeyPress::End => 0x4D,
            KeyPress::PageDown => 0x4E,
            KeyPress::RightArrow => 0x4F,
            KeyPress::LeftArrow => 0x50,
            KeyPress::DownArrow => 0x51,
            KeyPress::UpArrow => 0x52,
            KeyPress::KeypadNumLockAndClear => 0x53,
            KeyPress::KeypadDivide => 0x54,
            KeyPress::KeypadMultiply => 0x55,
            KeyPress::KeypadSubtract => 0x56,
            KeyPress::KeypadAdd => 0x57,
            KeyPress::KeypadEnter => 0x58,
            KeyPress::Keypad1 => 0x59,
            KeyPress::Keypad2 => 0x5A,
            KeyPress::Keypad3 => 0x5B,
            KeyPress::Keypad4 => 0x5C,
            KeyPress::Keypad5 => 0x5D,
            KeyPress::Keypad6 => 0x5E,
            KeyPress::Keypad7 => 0x5F,
            KeyPress::Keypad8 => 0x60,
            KeyPress::Keypad9 => 0x61,
            KeyPress::Keypad0 => 0x62,
            KeyPress::KeypadDot => 0x63,
            KeyPress::NonUSBackslash => 0x64,
            KeyPress::Application => 0x65,
            KeyPress::Power => 0x66,
            KeyPress::KeypadEqual => 0x67,
            KeyPress::F13 => 0x68,
            KeyPress::F14 => 0x69,
            KeyPress::F15 => 0x6A,
            KeyPress::F16 => 0x6B,
            KeyPress::F17 => 0x6C,
            KeyPress::F18 => 0x6D,
            KeyPress::F19 => 0x6E,
            KeyPress::F20 => 0x6F,
            KeyPress::F21 => 0x70,
            KeyPress::F22 => 0x71,
            KeyPress::F23 => 0x72,
            KeyPress::F24 => 0x73,
            KeyPress::Execute => 0x74,
            KeyPress::Help => 0x75,
            KeyPress::Menu => 0x76,
            KeyPress::Select => 0x77,
            KeyPress::Stop => 0x78,
            KeyPress::Again => 0x79,
            KeyPress::Undo => 0x7A,
            KeyPress::Cut => 0x7B,
            KeyPress::Copy => 0x7C,
            KeyPress::Paste => 0x7D,
            KeyPress::Find => 0x7E,
            KeyPress::Mute => 0x7F,
            KeyPress::VolumeUp => 0x80,
            KeyPress::VolumeDown => 0x81,
            KeyPress::LockingCapsLock => 0x82,
            KeyPress::LockingNumLock => 0x83,
            KeyPress::LockingScrollLock => 0x84,
            KeyPress::KeypadComma => 0x85,
            KeyPress::KeypadEqualSign => 0x86,
            KeyPress::Kanji1 => 0x87,
            KeyPress::Kanji2 => 0x88,
            KeyPress::Kanji3 => 0x89,
            KeyPress::Kanji4 => 0x8A,
            KeyPress::Kanji5 => 0x8B,
            KeyPress::Kanji6 => 0x8C,
            KeyPress::Kanji7 => 0x8D,
            KeyPress::Kanji8 => 0x8E,
            KeyPress::Kanji9 => 0x8F,
            KeyPress::LANG1 => 0x90,
            KeyPress::LANG2 => 0x91,
            KeyPress::LANG3 => 0x92,
            KeyPress::LANG4 => 0x93,
            KeyPress::LANG5 => 0x94,
            KeyPress::LANG6 => 0x95,
            KeyPress::LANG7 => 0x96,
            KeyPress::LANG8 => 0x97,
            KeyPress::LANG9 => 0x98,
            KeyPress::AlternateErase => 0x99,
            KeyPress::SysReqAttention => 0x9A,
            KeyPress::Cancel => 0x9B,
            KeyPress::Clear => 0x9C,
            KeyPress::Prior => 0x9D,
            KeyPress::Return => 0x9E,
            KeyPress::Separator => 0x9F,
            KeyPress::Out => 0xA0,
            KeyPress::Oper => 0xA1,
            KeyPress::ClearAgain => 0xA2,
            KeyPress::CrSelProps => 0xA3,
            KeyPress::ExSel => 0xA4,
            KeyPress::LeftControl => 0xE0,
            KeyPress::LeftShift => 0xE1,
            KeyPress::LeftAlt => 0xE2,
            KeyPress::LeftGUI => 0xE3,
            KeyPress::RightControl => 0xE4,
            KeyPress::RightShift => 0xE5,
            KeyPress::RightAlt => 0xE6,
            KeyPress::RightGUI => 0xE7,
            KeyPress::LayerIncrement => 0,
            KeyPress::LayerDecrement => 0,
            KeyPress::LayerSet0 => 0,
            KeyPress::LayerSet1 => 0,
            KeyPress::LayerSet2 => 0,
            KeyPress::LayerSet3 => 0,
            KeyPress::LayerSet4 => 0,
            KeyPress::LayerHold0 => 0,
            KeyPress::LayerHold1 => 0,
            KeyPress::LayerHold2 => 0,
            KeyPress::LayerHold3 => 0,
            KeyPress::LayerHold4 => 0,
        }
    }

    /// The HID usage code of this key; 0 (no event) for the layer-control codes.
    pub fn usage(&self) -> (r: u8)
        ensures
            r == self.spec_usage(),
    {
        match self {
            KeyPress::ErrorRollOver => 0x01,
            KeyPress::POSTFail => 0x02,
            KeyPress::ErrorUndefine => 0x03,
            KeyPress::A => 0x04,
            KeyPress::B => 0x05,
            KeyPress::C => 0x06,
            KeyPress::D => 0x07,
            KeyPress::E => 0x08,
            KeyPress::F => 0x09,
            KeyPress::G => 0x0A,
            KeyPress::H => 0x0B,
            KeyPress::I => 0x0C,
            KeyPress::J => 0x0D,
            KeyPress::K => 0x0E,
            KeyPress::L => 0x0F,
            KeyPress::M => 0x10,
            KeyPress::N => 0x11,
            KeyPress::O => 0x12,
            KeyPress::P => 0x13,
            KeyPress::Q => 0x14,
            KeyPress::R => 0x15,
            KeyPress::S => 0x16,
            KeyPress::T => 0x17,
            KeyPress::U => 0x18,
            KeyPress::V => 0x19,
            KeyPress::W => 0x1A,
            KeyPress::X => 0x1B,
            KeyPress::Y => 0x1C,
            KeyPress::Z => 0x1D,
            KeyPress::Keyboard1 => 0x1E,
            KeyPress::Keyboard2 => 0x1F,
            KeyPress::Keyboard3 => 0x20,
            KeyPress::Keyboard4 => 0x21,
            KeyPress::Keyboard5 => 0x22,
            KeyPress::Keyboard6 => 0x23,
            KeyPress::Keyboard7 => 0x24,
            KeyPress::Keyboard8 => 0x25,
            KeyPress::Keyboard9 => 0x26,
            KeyPress::Keyboard0 => 0x27,
            KeyPress::ReturnEnter => 0x28,
            KeyPress::Escape => 0x29,
            KeyPress::DeleteBackspace => 0x2A,
            KeyPress::Tab => 0x2B,
            KeyPress::Space => 0x2C,
            KeyPress::Minus => 0x2D,
            KeyPress::Equal => 0x2E,
            KeyPress::LeftBrace => 0x2F,
            KeyPress::RightBrace => 0x30,
            KeyPress::Backslash => 0x31,
            KeyPress::NonUSHash => 0x32,
            KeyPress::Semicolon => 0x33,
            KeyPress::Apostrophe => 0x34,
            KeyPress::Grave => 0x35,
            KeyPress::Comma => 0x36,
            KeyPress::Dot => 0x37,
            KeyPress::ForwardSlash => 0x38,
            KeyPress::CapsLock => 0x39,
            KeyPress::F1 => 0x3A,
            KeyPress::F2 => 0x3B,
            KeyPress::F3 => 0x3C,
            KeyPress::F4 => 0x3D,
            KeyPress::F5 => 0x3E,
            KeyPress::F6 => 0x3F,
            KeyPress::F7 => 0x40,
            KeyPress::F8 => 0x41,
            KeyPress::F9 => 0x42,
            KeyPress::F10 => 0x43,
            KeyPress::F11 => 0x44,
            KeyPress::F12 => 0x45,
            KeyPress::PrintScreen => 0x46,
            KeyPress::ScrollLock => 0x47,
            KeyPress::Pause => 0x48,
            KeyPress::Insert => 0x49,
            KeyPress::Home => 0x4A,
            KeyPress::PageUp => 0x4B,
            KeyPress::DeleteForward => 0x4C,
            KeyPress::End => 0x4D,
            KeyPress::PageDown => 0x4E,
            KeyPress::RightArrow => 0x4F,
            KeyPress::LeftArrow => 0x50,
            KeyPress::DownArrow => 0x51,
            KeyPress::UpArrow => 0x52,
            KeyPress::KeypadNumLockAndClear => 0x53,
            KeyPress::KeypadDivide => 0x54,
            KeyPress::KeypadMultiply => 0x55,
            KeyPress::KeypadSubtract => 0x56,
            KeyPress::KeypadAdd => 0x57,
            KeyPress::KeypadEnter => 0x58,
            KeyPress::Keypad1 => 0x59,
            KeyPress::Keypad2 => 0x5A,
            KeyPress::Keypad3 => 0x5B,
            KeyPress::Keypad4 => 0x5C,
            KeyPress::Keypad5 => 0x5D,
            KeyPress::Keypad6 => 0x5E,
            KeyPress::Keypad7 => 0x5F,
            KeyPress::Keypad8 => 0x60,
            KeyPress::Keypad9 => 0x61,
            KeyPress::Keypad0 => 0x62,
            KeyPress::KeypadDot => 0x63,
            KeyPress::NonUSBackslash => 0x64,
            KeyPress::Application => 0x65,
            KeyPress::Power => 0x66,
            KeyPress::KeypadEqual => 0x67,
            KeyPress::F13 => 0x68,
            KeyPress::F14 => 0x69,
            KeyPress::F15 => 0x6A,
            KeyPress::F16 => 0x6B,
            KeyPress::F17 => 0x6C,
            KeyPress::F18 => 0x6D,
            KeyPress::F19 => 0x6E,
            KeyPress::F20 => 0x6F,
            KeyPress::F21 => 0x70,
            KeyPress::F22 => 0x71,
            KeyPress::F23 => 0x72,
            KeyPress::F24 => 0x73,
            KeyPress::Execute => 0x74,
            KeyPress::Help => 0x75,
            KeyPress::Menu => 0x76,
            KeyPress::Select => 0x77,
            KeyPress::Stop => 0x78,
            KeyPress::Again => 0x79,
            KeyPress::Undo => 0x7A,
            KeyPress::Cut => 0x7B,
            KeyPress::Copy => 0x7C,
            KeyPress::Paste => 0x7D,
            KeyPress::Find => 0x7E,
            KeyPress::Mute => 0x7F,
            KeyPress::VolumeUp => 0x80,
            KeyPress::VolumeDown => 0x81,
            KeyPress::LockingCapsLock => 0x82,
            KeyPress::LockingNumLock => 0x83,
            KeyPress::LockingScrollLock => 0x84,
            KeyPress::KeypadComma => 0x85,
            KeyPress::KeypadEqualSign => 0x86,
            KeyPress::Kanji1 => 0x87,
            KeyPress::Kanji2 => 0x88,
            KeyPress::Kanji3 => 0x89,
            KeyPress::Kanji4 => 0x8A,
            KeyPress::Kanji5 => 0x8B,
            KeyPress::Kanji6 => 0x8C,
            KeyPress::Kanji7 => 0x8D,
            KeyPress::Kanji8 => 0x8E,
            KeyPress::Kanji9 => 0x8F,
            KeyPress::LANG1 => 0x90,
            KeyPress::LANG2 => 0x91,
            KeyPress::LANG3 => 0x92,
            KeyPress::LANG4 => 0x93,
            KeyPress::LANG5 => 0x94,
            KeyPress::LANG6 => 0x95,
            KeyPress::LANG7 => 0x96,
            KeyPress::LANG8 => 0x97,
            KeyPress::LANG9 => 0x98,
            KeyPress::AlternateErase => 0x99,
            KeyPress::SysReqAttention => 0x9A,
            KeyPress::Cancel => 0x9B,
            KeyPress::Clear => 0x9C,
            KeyPress::Prior => 0x9D,
            KeyPress::Return => 0x9E,
            KeyPress::Separator => 0x9F,
            KeyPress::Out => 0xA0,
            KeyPress::Oper => 0xA1,
            KeyPress::ClearAgain => 0xA2,
            KeyPress::CrSelProps => 0xA3,
            KeyPress::ExSel => 0xA4,
            KeyPress::LeftControl => 0xE0,
            KeyPress::LeftShift => 0xE1,
            KeyPress::LeftAlt => 0xE2,
            KeyPress::LeftGUI => 0xE3,
            KeyPress::RightControl => 0xE4,
            KeyPress::RightShift => 0xE5,
            KeyPress::RightAlt => 0xE6,
            KeyPress::RightGUI => 0xE7,
            KeyPress::LayerIncrement => 0,
            KeyPress::LayerDecrement => 0,
            KeyPress::LayerSet0 => 0,
            KeyPress::LayerSet1 => 0,
            KeyPress::LayerSet2 => 0,
            KeyPress::LayerSet3 => 0,
            KeyPress::LayerSet4 => 0,
            KeyPress::LayerHold0 => 0,
            KeyPress::LayerHold1 => 0,
            KeyPress::LayerHold2 => 0,
            KeyPress::LayerHold3 => 0,
            KeyPress::LayerHold4 => 0,
        }
    }

    /// The layer operation that this code stands for, if it is a layer-control code.
    pub open spec fn spec_layer_action(self) -> Option<LayerAction> {
        match self {
            KeyPress::LayerSet0 => Some(LayerAction::Latch(0)),
            KeyPress::LayerSet1 => Some(LayerAction::Latch(1)),
            KeyPress::LayerSet2 => Some(LayerAction::Latch(2)),
            KeyPress::LayerSet3 => Some(LayerAction::Latch(3)),
            KeyPress::LayerSet4 => Some(LayerAction::Latch(4)),
            KeyPress::LayerHold0 => Some(LayerAction::Hold(0)),
            KeyPress::LayerHold1 => Some(LayerAction::Hold(1)),
            KeyPress::LayerHold2 => Some(LayerAction::Hold(2)),
            KeyPress::LayerHold3 => Some(LayerAction::Hold(3)),
            KeyPress::LayerHold4 => Some(LayerAction::Hold(4)),
            _ => None,
        }
    }

    /// The layer operation that this code stands for, if it is a layer-control code.
    pub fn layer_action(&self) -> (r: Option<LayerAction>)
        ensures
            r == self.spec_layer_action(),
    {
        match self {
            KeyPress::LayerSet0 => Some(LayerAction::Latch(0)),
            KeyPress::LayerSet1 => Some(LayerAction::Latch(1)),
            KeyPress::LayerSet2 => Some(LayerAction::Latch(2)),
            KeyPress::LayerSet3 => Some(LayerAction::Latch(3)),
            KeyPress::LayerSet4 => Some(LayerAction::Latch(4)),
            KeyPress::LayerHold0 => Some(LayerAction::Hold(0)),
            KeyPress::LayerHold1 => Some(LayerAction::Hold(1)),
            KeyPress::LayerHold2 => Some(LayerAction::Hold(2)),
            KeyPress::LayerHold3 => Some(LayerAction::Hold(3)),
            KeyPress::LayerHold4 => Some(LayerAction::Hold(4)),
            _ => None,
        }
    }
}

/// A modifier key that a mapping may add to its key.
#[derive(Clone, Copy, Debug, PartialEq, Eq, Structural)]
pub enum ModifierKey {
    LeftControl,
    LeftShift,
    LeftAlt,
    LeftGUI,
    RightControl,
    RightShift,
    RightAlt,
    RightGUI,
}

impl ModifierKey {
    /// The HID usage code of this modifier.
    pub open spec fn spec_usage(self) -> u8 {
        match self {
            ModifierKey::LeftControl => 0xE0,
            ModifierKey::LeftShift => 0xE1,
            ModifierKey::LeftAlt => 0xE2,
            ModifierKey::LeftGUI => 0xE3,
            ModifierKey::RightControl => 0xE4,
            ModifierKey::RightShift => 0xE5,
            ModifierKey::RightAlt => 0xE6,
            ModifierKey::RightGUI => 0xE7,
        }
    }

    /// The HID usage code of this modifier.
    pub fn usage(&self) -> (r: u8)
        ensures
            r == self.spec_usage(),
    {
        match self {
            ModifierKey::LeftControl => 0xE0,
            ModifierKey::LeftShift => 0xE1,
            ModifierKey::LeftAlt => 0xE2,
            ModifierKey::LeftGUI => 0xE3,
            ModifierKey::RightControl => 0xE4,
            ModifierKey::RightShift => 0xE5,
            ModifierKey::RightAlt => 0xE6,
            ModifierKey::RightGUI => 0xE7,
        }
    }
}

/// An event placed on the engine's queue while a tick resolves key states.
#[derive(Clone, Copy, Debug, PartialEq, Eq, Structural)]
pub enum KeyEvent {
    Pressed(usize),
    DoublePress(usize),
    HeldPress(usize),
}

/// The logical state of one key.
#[derive(Clone, Copy, Debug, PartialEq, Eq, Structural)]
pub enum KeyState {
    FirstPress,
    Pressed,
    HeldPressed,
    Idle,
}

/// A key code with an optional modifier sent along with it.
#[derive(Clone, Copy, Debug, PartialEq, Eq, Structural)]
pub struct KeyMapping {
    pub key: KeyPress,
    pub modifier: Option<ModifierKey>,
}

/// What one key does on one layer: its tap action and its hold action.
#[derive(Clone, Copy, Debug, PartialEq, Eq, Structural)]
pub struct LayerKeyMap {
    pub pressed: Option<KeyMapping>,
    pub held_press: Option<KeyMapping>,
}

/// The usage code of an optional modifier; 0 (no event) when there is none.
pub open spec fn modifier_usage(m: Option<ModifierKey>) -> u8 {
    match m {
        Some(k) => k.spec_usage(),
        None => 0,
    }
}

/// A usage code as a report entry: the no-event code 0 yields nothing.
pub open spec fn report_entry(u: u8) -> Seq<u8> {
    if u == 0 {
        Seq::empty()
    } else {
        seq![u]
    }
}

impl KeyMapping {
    /// The usage codes that this mapping puts in a report, key first, without no-event codes.
    pub open spec fn spec_usages(self) -> Seq<u8> {
        report_entry(self.key.spec_usage()) + report_entry(modifier_usage(self.modifier))
    }

    /// The two usage codes of this mapping, key first; 0 where there is none.
    pub fn usage_pair(&self) -> (r: (u8, u8))
        ensures
            r.0 == self.key.spec_usage(),
            r.1 == modifier_usage(self.modifier),
    {
        let m = match self.modifier {
            Some(k) => k.usage(),
            None => 0,
        };
        (self.key.usage(), m)
    }
}

/// The usage codes of an optional mapping: none when it is absent.
pub open spec fn mapping_usages(m: Option<KeyMapping>) -> Seq<u8> {
    match m {
        Some(k) => k.spec_usages(),
        None => Seq::empty(),
    }
}

} // verus!
