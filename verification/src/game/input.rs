//! The input model: the physical-input vocabulary, clamped activation
//! values, and the rebindable map from physical inputs to game actions.
//!
//! Activations are fixed-point values measured in thousandths of full
//! deflection, so that their arithmetic and clamping is exact.

use vstd::prelude::*;

use crate::game::persist::encode_bindings;
use crate::game::persist::parse_bindings;
use crate::game::persist::spec_encode;
use crate::game::persist::spec_parse;
use crate::game::persist::BindingsParseError;

verus! {

/// One whole unit of activation, in thousandths. A linear activation
/// ranges over `0 ..= ACTIVATION_SCALE`; each axis of a vector
/// activation ranges over `-ACTIVATION_SCALE ..= ACTIVATION_SCALE`.
pub const ACTIVATION_SCALE: u32 = 1000;

/// A pointer movement whose magnitude on both axes is at most this many
/// physical units is treated as jitter and suppressed from the linear
/// input channel (the vector channel still sees it).
pub const POINTER_JITTER_THRESHOLD: i64 = 2;

/// Represents the current state of the keyboard modifiers.
///
/// Each flag represents a modifier and is set if this modifier is active.
#[derive(Debug, Clone, Copy, PartialEq, Eq, Structural)]
pub struct ModifiersState {
    pub shift: bool,
    pub ctrl: bool,
    pub alt: bool,
    /// This is the "windows" key on PC and "command" key on Mac.
    pub logo: bool,
}

impl Default for ModifiersState {
    /// No modifier held.
    fn default() -> (r: Self)
        ensures
            r == (ModifiersState { shift: false, ctrl: false, alt: false, logo: false }),
    {
        ModifiersState { shift: false, ctrl: false, alt: false, logo: false }
    }
}

/// One keyboard modifier, in the fixed order used when reporting
/// modifier changes.
#[derive(Debug, Clone, Copy, PartialEq, Eq, Structural)]
pub enum Modifier {
    Shift,
    Ctrl,
    Alt,
    Logo,
}

impl ModifiersState {
    /// The press/release events synthesized by a change of modifier
    /// state: one entry per flipped modifier, paired with its new state,
    /// in the fixed order shift, ctrl, alt, logo.
    pub open spec fn spec_changes_from(self, previous: ModifiersState) -> Seq<(Modifier, bool)> {
        (if self.shift != previous.shift {
            seq![(Modifier::Shift, self.shift)]
        } else {
            Seq::empty()
        }) + (if self.ctrl != previous.ctrl {
            seq![(Modifier::Ctrl, self.ctrl)]
        } else {
            Seq::empty()
        }) + (if self.alt != previous.alt {
            seq![(Modifier::Alt, self.alt)]
        } else {
            Seq::empty()
        }) + (if self.logo != previous.logo {
            seq![(Modifier::Logo, self.logo)]
        } else {
            Seq::empty()
        })
    }

    /// Compares this snapshot field by field against `previous` and
    /// returns a synthetic press/release entry for every modifier whose
    /// state flipped.
    pub fn changes_from(&self, previous: &ModifiersState) -> (v: Vec<(Modifier, bool)>)
        ensures
            v@ == self.spec_changes_from(*previous),
    {
        let mut v: Vec<(Modifier, bool)> = Vec::new();
        if self.shift != previous.shift {
            v.push((Modifier::Shift, self.shift));
        }
        if self.ctrl != previous.ctrl {
            v.push((Modifier::Ctrl, self.ctrl));
        }
        if self.alt != previous.alt {
            v.push((Modifier::Alt, self.alt));
        }
        if self.logo != previous.logo {
            v.push((Modifier::Logo, self.logo));
        }
        proof {
            assert(v@ =~= self.spec_changes_from(*previous));
        }
        v
    }
}

pub open spec fn spec_abs(v: int) -> int {
    if v < 0 {
        -v
    } else {
        v
    }
}

/// Clamps an integer into `0 ..= ACTIVATION_SCALE`.
pub open spec fn spec_clamp_unit(v: int) -> int {
    if v < 0 {
        0
    } else if v > ACTIVATION_SCALE {
        ACTIVATION_SCALE as int
    } else {
        v
    }
}

/// Clamps an integer into `-ACTIVATION_SCALE ..= ACTIVATION_SCALE`.
pub open spec fn spec_clamp_axis(v: int) -> int {
    if v < -(ACTIVATION_SCALE as int) {
        -(ACTIVATION_SCALE as int)
    } else if v > ACTIVATION_SCALE {
        ACTIVATION_SCALE as int
    } else {
        v
    }
}

/// How much some input has been activated: a value between 0 and 1,
/// stored in thousandths.
#[derive(Debug, Clone, Copy, PartialEq, Eq, Structural)]
pub struct LinearInputActivation(u32);

impl LinearInputActivation {
    #[verifier::type_invariant]
    closed spec fn type_inv(self) -> bool {
        self.0 <= ACTIVATION_SCALE
    }

    /// The stored activation, in thousandths.
    pub closed spec fn spec_get(self) -> u32 {
        self.0
    }

    /// The activation holding `v` thousandths.
    pub closed spec fn spec_new(v: u32) -> LinearInputActivation {
        LinearInputActivation(v)
    }

    pub proof fn lemma_spec_new_get(v: u32)
        ensures
            Self::spec_new(v).spec_get() == v,
    {
    }

    /// Activations with the same stored value are the same activation.
    pub proof fn lemma_ext(a: Self, b: Self)
        requires
            a.spec_get() == b.spec_get(),
        ensures
            a == b,
    {
    }

    /// Accepts exactly the values already within range; anything else is
    /// handed back unchanged as the error.
    pub fn try_from(val: i64) -> (r: Result<Self, i64>)
        ensures
            (r matches Ok(a)) <==> 0 <= val <= ACTIVATION_SCALE,
            r matches Ok(a) ==> a.spec_get() == val,
            r matches Err(e) ==> e == val,
    {
        if 0 <= val && val <= ACTIVATION_SCALE as i64 {
            Ok(LinearInputActivation(val as u32))
        } else {
            Err(val)
        }
    }

    pub fn get(self) -> (r: u32)
        ensures
            r == self.spec_get(),
            r <= ACTIVATION_SCALE,
    {
        proof {
            use_type_invariant(&self);
        }
        self.0
    }

    /// Brings any value into range by clamping.
    pub fn clamp(val: i64) -> (r: Self)
        ensures
            r.spec_get() == spec_clamp_unit(val as int),
    {
        if val < 0 {
            LinearInputActivation(0)
        } else if val > ACTIVATION_SCALE as i64 {
            LinearInputActivation(ACTIVATION_SCALE)
        } else {
            LinearInputActivation(val as u32)
        }
    }
}

/// A 2d activation with both axes between -1 and 1, stored in
/// thousandths.
#[derive(Debug, Clone, Copy, PartialEq, Eq, Structural)]
pub struct VectorInputActivation(i32, i32);

impl VectorInputActivation {
    #[verifier::type_invariant]
    closed spec fn type_inv(self) -> bool {
        &&& -(ACTIVATION_SCALE as int) <= self.0 <= ACTIVATION_SCALE as int
        &&& -(ACTIVATION_SCALE as int) <= self.1 <= ACTIVATION_SCALE as int
    }

    /// The stored horizontal activation, in thousandths.
    pub closed spec fn spec_x(self) -> i32 {
        self.0
    }

    /// The stored vertical activation, in thousandths.
    pub closed spec fn spec_y(self) -> i32 {
        self.1
    }

    /// The activation holding (`x`, `y`) thousandths.
    pub closed spec fn spec_new(x: i32, y: i32) -> VectorInputActivation {
        VectorInputActivation(x, y)
    }

    pub proof fn lemma_spec_new_get(x: i32, y: i32)
        ensures
            Self::spec_new(x, y).spec_x() == x,
            Self::spec_new(x, y).spec_y() == y,
    {
    }

    /// Activations with the same stored axes are the same activation.
    pub proof fn lemma_ext(a: Self, b: Self)
        requires
            a.spec_x() == b.spec_x(),
            a.spec_y() == b.spec_y(),
        ensures
            a == b,
    {
    }

    /// Accepts exactly the pairs already within range; anything else is
    /// handed back unchanged as the error.
    pub fn try_from(x: i64, y: i64) -> (r: Result<Self, (i64, i64)>)
        ensures
            (r matches Ok(a)) <==> (-(ACTIVATION_SCALE as int) <= x <= ACTIVATION_SCALE
                && -(ACTIVATION_SCALE as int) <= y <= ACTIVATION_SCALE),
            r matches Ok(a) ==> a.spec_x() == x && a.spec_y() == y,
            r matches Err(e) ==> e == (x, y),
    {
        let lo: i64 = -(ACTIVATION_SCALE as i64);
        let hi: i64 = ACTIVATION_SCALE as i64;
        if lo <= x && x <= hi && lo <= y && y <= hi {
            Ok(VectorInputActivation(x as i32, y as i32))
        } else {
            Err((x, y))
        }
    }

    pub fn get(self) -> (r: (i32, i32))
        ensures
            r == (self.spec_x(), self.spec_y()),
            -(ACTIVATION_SCALE as int) <= r.0 <= ACTIVATION_SCALE,
            -(ACTIVATION_SCALE as int) <= r.1 <= ACTIVATION_SCALE,
    {
        proof {
            use_type_invariant(&self);
        }
        (self.0, self.1)
    }

    /// Brings any pair into range by clamping each axis independently.
    pub fn clamp(x: i64, y: i64) -> (r: VectorInputActivation)
        ensures
            r.spec_x() == spec_clamp_axis(x as int),
            r.spec_y() == spec_clamp_axis(y as int),
    {
        VectorInputActivation(Self::clamp_axis(x), Self::clamp_axis(y))
    }

    fn clamp_axis(v: i64) -> (r: i32)
        ensures
            r == spec_clamp_axis(v as int),
    {
        if v < -(ACTIVATION_SCALE as i64) {
            -(ACTIVATION_SCALE as i32)
        } else if v > ACTIVATION_SCALE as i64 {
            ACTIVATION_SCALE as i32
        } else {
            v as i32
        }
    }
}

/// A key on a keyboard, named by physical position (W3C code values).
#[derive(Debug, Hash, PartialEq, Eq, Structural, Clone, Copy)]
pub enum KeyCode {
    Backquote,
    Backslash,
    BracketLeft,
    BracketRight,
    Comma,
    Digit0,
    Digit1,
    Digit2,
    Digit3,
    Digit4,
    Digit5,
    Digit6,
    Digit7,
    Digit8,
    Digit9,
    Equal,
    IntlBackslash,
    IntlRo,
    IntlYen,
    KeyA,
    KeyB,
    KeyC,
    KeyD,
    KeyE,
    KeyF,
    KeyG,
    KeyH,
    KeyI,
    KeyJ,
    KeyK,
    KeyL,
    KeyM,
    KeyN,
    KeyO,
    KeyP,
    KeyQ,
    KeyR,
    KeyS,
    KeyT,
    KeyU,
    KeyV,
    KeyW,
    KeyX,
    KeyY,
    KeyZ,
    Minus,
    Period,
    Quote,
    Semicolon,
    Slash,
    AltLeft,
    AltRight,
    Backspace,
    CapsLock,
    ContextMenu,
    ControlLeft,
    ControlRight,
    Enter,
    SuperLeft,
    SuperRight,
    ShiftLeft,
    ShiftRight,
    Space,
    Tab,
    Convert,
    KanaMode,
    Lang1,
    Lang2,
    Lang3,
    Lang4,
    Lang5,
    NonConvert,
    Delete,
    End,
    Help,
    Home,
    Insert,
    PageDown,
    PageUp,
    ArrowDown,
    ArrowLeft,
    ArrowRight,
    ArrowUp,
    NumLock,
    Numpad0,
    Numpad1,
    Numpad2,
    Numpad3,
    Numpad4,
    Numpad5,
    Numpad6,
    Numpad7,
    Numpad8,
    Numpad9,
    NumpadAdd,
    NumpadBackspace,
    NumpadClear,
    NumpadClearEntry,
    NumpadComma,
    NumpadDecimal,
    NumpadDivide,
    NumpadEnter,
    NumpadEqual,
    NumpadHash,
    NumpadMemoryAdd,
    NumpadMemoryClear,
    NumpadMemoryRecall,
    NumpadMemoryStore,
    NumpadMemorySubtract,
    NumpadMultiply,
    NumpadParenLeft,
    NumpadParenRight,
    NumpadStar,
    NumpadSubtract,
    Escape,
    Fn,
    FnLock,
    PrintScreen,
    ScrollLock,
    Pause,
    BrowserBack,
    BrowserFavorites,
    BrowserForward,
    BrowserHome,
    BrowserRefresh,
    BrowserSearch,
    BrowserStop,
    Eject,
    LaunchApp1,
    LaunchApp2,
    LaunchMail,
    MediaPlayPause,
    MediaSelect,
    MediaStop,
    MediaTrackNext,
    MediaTrackPrevious,
    Power,
    Sleep,
    AudioVolumeDown,
    AudioVolumeMute,
    AudioVolumeUp,
    WakeUp,
    Meta,
    Hyper,
    Turbo,
    Abort,
    Resume,
    Suspend,
    Again,
    Copy,
    Cut,
    Find,
    Open,
    Paste,
    Props,
    Select,
    Undo,
    Hiragana,
    Katakana,
    F1,
    F2,
    F3,
    F4,
    F5,
    F6,
    F7,
    F8,
    F9,
    F10,
    F11,
    F12,
    F13,
    F14,
    F15,
    F16,
    F17,
    F18,
    F19,
    F20,
    F21,
    F22,
    F23,
    F24,
    F25,
    F26,
    F27,
    F28,
    F29,
    F30,
    F31,
    F32,
    F33,
    F34,
    F35,
}

impl KeyCode {
    /// A stable small integer for each key, used by the persisted
    /// binding format. Always below `MOUSE_CODE_BASE`.
    pub open spec fn spec_index(self) -> u32 {
        match self {
            KeyCode::Backquote => 0,
            KeyCode::Backslash => 1,
            KeyCode::BracketLeft => 2,
            KeyCode::BracketRight => 3,
            KeyCode::Comma => 4,
            KeyCode::Digit0 => 5,
            KeyCode::Digit1 => 6,
            KeyCode::Digit2 => 7,
            KeyCode::Digit3 => 8,
            KeyCode::Digit4 => 9,
            KeyCode::Digit5 => 10,
            KeyCode::Digit6 => 11,
            KeyCode::Digit7 => 12,
            KeyCode::Digit8 => 13,
            KeyCode::Digit9 => 14,
            KeyCode::Equal => 15,
            KeyCode::IntlBackslash => 16,
            KeyCode::IntlRo => 17,
            KeyCode::IntlYen => 18,
            KeyCode::KeyA => 19,
            KeyCode::KeyB => 20,
            KeyCode::KeyC => 21,
            KeyCode::KeyD => 22,
            KeyCode::KeyE => 23,
            KeyCode::KeyF => 24,
            KeyCode::KeyG => 25,
            KeyCode::KeyH => 26,
            KeyCode::KeyI => 27,
            KeyCode::KeyJ => 28,
            KeyCode::KeyK => 29,
            KeyCode::KeyL => 30,
            KeyCode::KeyM => 31,
            KeyCode::KeyN => 32,
            KeyCode::KeyO => 33,
            KeyCode::KeyP => 34,
            KeyCode::KeyQ => 35,
            KeyCode::KeyR => 36,
            KeyCode::KeyS => 37,
            KeyCode::KeyT => 38,
            KeyCode::KeyU => 39,
            KeyCode::KeyV => 40,
            KeyCode::KeyW => 41,
            KeyCode::KeyX => 42,
            KeyCode::KeyY => 43,
            KeyCode::KeyZ => 44,
            KeyCode::Minus => 45,
            KeyCode::Period => 46,
            KeyCode::Quote => 47,
            KeyCode::Semicolon => 48,
            KeyCode::Slash => 49,
            KeyCode::AltLeft => 50,
            KeyCode::AltRight => 51,
            KeyCode::Backspace => 52,
            KeyCode::CapsLock => 53,
            KeyCode::ContextMenu => 54,
            KeyCode::ControlLeft => 55,
            KeyCode::ControlRight => 56,
            KeyCode::Enter => 57,
            KeyCode::SuperLeft => 58,
            KeyCode::SuperRight => 59,
            KeyCode::ShiftLeft => 60,
            KeyCode::ShiftRight => 61,
            KeyCode::Space => 62,
            KeyCode::Tab => 63,
            KeyCode::Convert => 64,
            KeyCode::KanaMode => 65,
            KeyCode::Lang1 => 66,
            KeyCode::Lang2 => 67,
            KeyCode::Lang3 => 68,
            KeyCode::Lang4 => 69,
            KeyCode::Lang5 => 70,
            KeyCode::NonConvert => 71,
            KeyCode::Delete => 72,
            KeyCode::End => 73,
            KeyCode::Help => 74,
            KeyCode::Home => 75,
            KeyCode::Insert => 76,
            KeyCode::PageDown => 77,
            KeyCode::PageUp => 78,
            KeyCode::ArrowDown => 79,
            KeyCode::ArrowLeft => 80,
            KeyCode::ArrowRight => 81,
            KeyCode::ArrowUp => 82,
            KeyCode::NumLock => 83,
            KeyCode::Numpad0 => 84,
            KeyCode::Numpad1 => 85,
            KeyCode::Numpad2 => 86,
            KeyCode::Numpad3 => 87,
            KeyCode::Numpad4 => 88,
            KeyCode::Numpad5 => 89,
            KeyCode::Numpad6 => 90,
            KeyCode::Numpad7 => 91,
            KeyCode::Numpad8 => 92,
            KeyCode::Numpad9 => 93,
            KeyCode::NumpadAdd => 94,
            KeyCode::NumpadBackspace => 95,
            KeyCode::NumpadClear => 96,
            KeyCode::NumpadClearEntry => 97,
            KeyCode::NumpadComma => 98,
            KeyCode::NumpadDecimal => 99,
            KeyCode::NumpadDivide => 100,
            KeyCode::NumpadEnter => 101,
            KeyCode::NumpadEqual => 102,
            KeyCode::NumpadHash => 103,
            KeyCode::NumpadMemoryAdd => 104,
            KeyCode::NumpadMemoryClear => 105,
            KeyCode::NumpadMemoryRecall => 106,
            KeyCode::NumpadMemoryStore => 107,
            KeyCode::NumpadMemorySubtract => 108,
            KeyCode::NumpadMultiply => 109,
            KeyCode::NumpadParenLeft => 110,
            KeyCode::NumpadParenRight => 111,
            KeyCode::NumpadStar => 112,
            KeyCode::NumpadSubtract => 113,
            KeyCode::Escape => 114,
            KeyCode::Fn => 115,
            KeyCode::FnLock => 116,
            KeyCode::PrintScreen => 117,
            KeyCode::ScrollLock => 118,
            KeyCode::Pause => 119,
            KeyCode::BrowserBack => 120,
            KeyCode::BrowserFavorites => 121,
            KeyCode::BrowserForward => 122,
            KeyCode::BrowserHome => 123,
            KeyCode::BrowserRefresh => 124,
            KeyCode::BrowserSearch => 125,
            KeyCode::BrowserStop => 126,
            KeyCode::Eject => 127,
            KeyCode::LaunchApp1 => 128,
            KeyCode::LaunchApp2 => 129,
            KeyCode::LaunchMail => 130,
            KeyCode::MediaPlayPause => 131,
            KeyCode::MediaSelect => 132,
            KeyCode::MediaStop => 133,
            KeyCode::MediaTrackNext => 134,
            KeyCode::MediaTrackPrevious => 135,
            KeyCode::Power => 136,
            KeyCode::Sleep => 137,
            KeyCode::AudioVolumeDown => 138,
            KeyCode::AudioVolumeMute => 139,
            KeyCode::AudioVolumeUp => 140,
            KeyCode::WakeUp => 141,
            KeyCode::Meta => 142,
            KeyCode::Hyper => 143,
            KeyCode::Turbo => 144,
            KeyCode::Abort => 145,
            KeyCode::Resume => 146,
            KeyCode::Suspend => 147,
            KeyCode::Again => 148,
            KeyCode::Copy => 149,
            KeyCode::Cut => 150,
            KeyCode::Find => 151,
            KeyCode::Open => 152,
            KeyCode::Paste => 153,
            KeyCode::Props => 154,
            KeyCode::Select => 155,
            KeyCode::Undo => 156,
            KeyCode::Hiragana => 157,
            KeyCode::Katakana => 158,
            KeyCode::F1 => 159,
            KeyCode::F2 => 160,
            KeyCode::F3 => 161,
            KeyCode::F4 => 162,
            KeyCode::F5 => 163,
            KeyCode::F6 => 164,
            KeyCode::F7 => 165,
            KeyCode::F8 => 166,
            KeyCode::F9 => 167,
            KeyCode::F10 => 168,
            KeyCode::F11 => 169,
            KeyCode::F12 => 170,
            KeyCode::F13 => 171,
            KeyCode::F14 => 172,
            KeyCode::F15 => 173,
            KeyCode::F16 => 174,
            KeyCode::F17 => 175,
            KeyCode::F18 => 176,
            KeyCode::F19 => 177,
            KeyCode::F20 => 178,
            KeyCode::F21 => 179,
            KeyCode::F22 => 180,
            KeyCode::F23 => 181,
            KeyCode::F24 => 182,
            KeyCode::F25 => 183,
            KeyCode::F26 => 184,
            KeyCode::F27 => 185,
            KeyCode::F28 => 186,
            KeyCode::F29 => 187,
            KeyCode::F30 => 188,
            KeyCode::F31 => 189,
            KeyCode::F32 => 190,
            KeyCode::F33 => 191,
            KeyCode::F34 => 192,
            KeyCode::F35 => 193,
        }
    }

    pub open spec fn spec_from_index(v: u32) -> Option<KeyCode> {
        if v == 0 {
            Some(KeyCode::Backquote)
        } else if v == 1 {
            Some(KeyCode::Backslash)
        } else if v == 2 {
            Some(KeyCode::BracketLeft)
        } else if v == 3 {
            Some(KeyCode::BracketRight)
        } else if v == 4 {
            Some(KeyCode::Comma)
        } else if v == 5 {
            Some(KeyCode::Digit0)
        } else if v == 6 {
            Some(KeyCode::Digit1)
        } else if v == 7 {
            Some(KeyCode::Digit2)
        } else if v == 8 {
            Some(KeyCode::Digit3)
        } else if v == 9 {
            Some(KeyCode::Digit4)
        } else if v == 10 {
            Some(KeyCode::Digit5)
        } else if v == 11 {
            Some(KeyCode::Digit6)
        } else if v == 12 {
            Some(KeyCode::Digit7)
        } else if v == 13 {
            Some(KeyCode::Digit8)
        } else if v == 14 {
            Some(KeyCode::Digit9)
        } else if v == 15 {
            Some(KeyCode::Equal)
        } else if v == 16 {
            Some(KeyCode::IntlBackslash)
        } else if v == 17 {
            Some(KeyCode::IntlRo)
        } else if v == 18 {
            Some(KeyCode::IntlYen)
        } else if v == 19 {
            Some(KeyCode::KeyA)
        } else if v == 20 {
            Some(KeyCode::KeyB)
        } else if v == 21 {
            Some(KeyCode::KeyC)
        } else if v == 22 {
            Some(KeyCode::KeyD)
        } else if v == 23 {
            Some(KeyCode::KeyE)
        } else if v == 24 {
            Some(KeyCode::KeyF)
        } else if v == 25 {
            Some(KeyCode::KeyG)
        } else if v == 26 {
            Some(KeyCode::KeyH)
        } else if v == 27 {
            Some(KeyCode::KeyI)
        } else if v == 28 {
            Some(KeyCode::KeyJ)
        } else if v == 29 {
            Some(KeyCode::KeyK)
        } else if v == 30 {
            Some(KeyCode::KeyL)
        } else if v == 31 {
            Some(KeyCode::KeyM)
        } else if v == 32 {
            Some(KeyCode::KeyN)
        } else if v == 33 {
            Some(KeyCode::KeyO)
        } else if v == 34 {
            Some(KeyCode::KeyP)
        } else if v == 35 {
            Some(KeyCode::KeyQ)
        } else if v == 36 {
            Some(KeyCode::KeyR)
        } else if v == 37 {
            Some(KeyCode::KeyS)
        } else if v == 38 {
            Some(KeyCode::KeyT)
        } else if v == 39 {
            Some(KeyCode::KeyU)
        } else if v == 40 {
            Some(KeyCode::KeyV)
        } else if v == 41 {
            Some(KeyCode::KeyW)
        } else if v == 42 {
            Some(KeyCode::KeyX)
        } else if v == 43 {
            Some(KeyCode::KeyY)
        } else if v == 44 {
            Some(KeyCode::KeyZ)
        } else if v == 45 {
            Some(KeyCode::Minus)
        } else if v == 46 {
            Some(KeyCode::Period)
        } else if v == 47 {
            Some(KeyCode::Quote)
        } else if v == 48 {
            Some(KeyCode::Semicolon)
        } else if v == 49 {
            Some(KeyCode::Slash)
        } else if v == 50 {
            Some(KeyCode::AltLeft)
        } else if v == 51 {
            Some(KeyCode::AltRight)
        } else if v == 52 {
            Some(KeyCode::Backspace)
        } else if v == 53 {
            Some(KeyCode::CapsLock)
        } else if v == 54 {
            Some(KeyCode::ContextMenu)
        } else if v == 55 {
            Some(KeyCode::ControlLeft)
        } else if v == 56 {
            Some(KeyCode::ControlRight)
        } else if v == 57 {
            Some(KeyCode::Enter)
        } else if v == 58 {
            Some(KeyCode::SuperLeft)
        } else if v == 59 {
            Some(KeyCode::SuperRight)
        } else if v == 60 {
            Some(KeyCode::ShiftLeft)
        } else if v == 61 {
            Some(KeyCode::ShiftRight)
        } else if v == 62 {
            Some(KeyCode::Space)
        } else if v == 63 {
            Some(KeyCode::Tab)
        } else if v == 64 {
            Some(KeyCode::Convert)
        } else if v == 65 {
            Some(KeyCode::KanaMode)
        } else if v == 66 {
            Some(KeyCode::Lang1)
        } else if v == 67 {
            Some(KeyCode::Lang2)
        } else if v == 68 {
            Some(KeyCode::Lang3)
        } else if v == 69 {
            Some(KeyCode::Lang4)
        } else if v == 70 {
            Some(KeyCode::Lang5)
        } else if v == 71 {
            Some(KeyCode::NonConvert)
        } else if v == 72 {
            Some(KeyCode::Delete)
        } else if v == 73 {
            Some(KeyCode::End)
        } else if v == 74 {
            Some(KeyCode::Help)
        } else if v == 75 {
            Some(KeyCode::Home)
        } else if v == 76 {
            Some(KeyCode::Insert)
        } else if v == 77 {
            Some(KeyCode::PageDown)
        } else if v == 78 {
            Some(KeyCode::PageUp)
        } else if v == 79 {
            Some(KeyCode::ArrowDown)
        } else if v == 80 {
            Some(KeyCode::ArrowLeft)
        } else if v == 81 {
            Some(KeyCode::ArrowRight)
        } else if v == 82 {
            Some(KeyCode::ArrowUp)
        } else if v == 83 {
            Some(KeyCode::NumLock)
        } else if v == 84 {
            Some(KeyCode::Numpad0)
        } else if v == 85 {
            Some(KeyCode::Numpad1)
        } else if v == 86 {
            Some(KeyCode::Numpad2)
        } else if v == 87 {
            Some(KeyCode::Numpad3)
        } else if v == 88 {
            Some(KeyCode::Numpad4)
        } else if v == 89 {
            Some(KeyCode::Numpad5)
        } else if v == 90 {
            Some(KeyCode::Numpad6)
        } else if v == 91 {
            Some(KeyCode::Numpad7)
        } else if v == 92 {
            Some(KeyCode::Numpad8)
        } else if v == 93 {
            Some(KeyCode::Numpad9)
        } else if v == 94 {
            Some(KeyCode::NumpadAdd)
        } else if v == 95 {
            Some(KeyCode::NumpadBackspace)
        } else if v == 96 {
            Some(KeyCode::NumpadClear)
        } else if v == 97 {
            Some(KeyCode::NumpadClearEntry)
        } else if v == 98 {
            Some(KeyCode::NumpadComma)
        } else if v == 99 {
            Some(KeyCode::NumpadDecimal)
        } else if v == 100 {
            Some(KeyCode::NumpadDivide)
        } else if v == 101 {
            Some(KeyCode::NumpadEnter)
        } else if v == 102 {
            Some(KeyCode::NumpadEqual)
        } else if v == 103 {
            Some(KeyCode::NumpadHash)
        } else if v == 104 {
            Some(KeyCode::NumpadMemoryAdd)
        } else if v == 105 {
            Some(KeyCode::NumpadMemoryClear)
        } else if v == 106 {
            Some(KeyCode::NumpadMemoryRecall)
        } else if v == 107 {
            Some(KeyCode::NumpadMemoryStore)
        } else if v == 108 {
            Some(KeyCode::NumpadMemorySubtract)
        } else if v == 109 {
            Some(KeyCode::NumpadMultiply)
        } else if v == 110 {
            Some(KeyCode::NumpadParenLeft)
        } else if v == 111 {
            Some(KeyCode::NumpadParenRight)
        } else if v == 112 {
            Some(KeyCode::NumpadStar)
        } else if v == 113 {
            Some(KeyCode::NumpadSubtract)
        } else if v == 114 {
            Some(KeyCode::Escape)
        } else if v == 115 {
            Some(KeyCode::Fn)
        } else if v == 116 {
            Some(KeyCode::FnLock)
        } else if v == 117 {
            Some(KeyCode::PrintScreen)
        } else if v == 118 {
            Some(KeyCode::ScrollLock)
        } else if v == 119 {
            Some(KeyCode::Pause)
        } else if v == 120 {
            Some(KeyCode::BrowserBack)
        } else if v == 121 {
            Some(KeyCode::BrowserFavorites)
        } else if v == 122 {
            Some(KeyCode::BrowserForward)
        } else if v == 123 {
            Some(KeyCode::BrowserHome)
        } else if v == 124 {
            Some(KeyCode::BrowserRefresh)
        } else if v == 125 {
            Some(KeyCode::BrowserSearch)
        } else if v == 126 {
            Some(KeyCode::BrowserStop)
        } else if v == 127 {
            Some(KeyCode::Eject)
        } else if v == 128 {
            Some(KeyCode::LaunchApp1)
        } else if v == 129 {
            Some(KeyCode::LaunchApp2)
        } else if v == 130 {
            Some(KeyCode::LaunchMail)
        } else if v == 131 {
            Some(KeyCode::MediaPlayPause)
        } else if v == 132 {
            Some(KeyCode::MediaSelect)
        } else if v == 133 {
            Some(KeyCode::MediaStop)
        } else if v == 134 {
            Some(KeyCode::MediaTrackNext)
        } else if v == 135 {
            Some(KeyCode::MediaTrackPrevious)
        } else if v == 136 {
            Some(KeyCode::Power)
        } else if v == 137 {
            Some(KeyCode::Sleep)
        } else if v == 138 {
            Some(KeyCode::AudioVolumeDown)
        } else if v == 139 {
            Some(KeyCode::AudioVolumeMute)
        } else if v == 140 {
            Some(KeyCode::AudioVolumeUp)
        } else if v == 141 {
            Some(KeyCode::WakeUp)
        } else if v == 142 {
            Some(KeyCode::Meta)
        } else if v == 143 {
            Some(KeyCode::Hyper)
        } else if v == 144 {
            Some(KeyCode::Turbo)
        } else if v == 145 {
            Some(KeyCode::Abort)
        } else if v == 146 {
            Some(KeyCode::Resume)
        } else if v == 147 {
            Some(KeyCode::Suspend)
        } else if v == 148 {
            Some(KeyCode::Again)
        } else if v == 149 {
            Some(KeyCode::Copy)
        } else if v == 150 {
            Some(KeyCode::Cut)
        } else if v == 151 {
            Some(KeyCode::Find)
        } else if v == 152 {
            Some(KeyCode::Open)
        } else if v == 153 {
            Some(KeyCode::Paste)
        } else if v == 154 {
            Some(KeyCode::Props)
        } else if v == 155 {
            Some(KeyCode::Select)
        } else if v == 156 {
            Some(KeyCode::Undo)
        } else if v == 157 {
            Some(KeyCode::Hiragana)
        } else if v == 158 {
            Some(KeyCode::Katakana)
        } else if v == 159 {
            Some(KeyCode::F1)
        } else if v == 160 {
            Some(KeyCode::F2)
        } else if v == 161 {
            Some(KeyCode::F3)
        } else if v == 162 {
            Some(KeyCode::F4)
        } else if v == 163 {
            Some(KeyCode::F5)
        } else if v == 164 {
            Some(KeyCode::F6)
        } else if v == 165 {
            Some(KeyCode::F7)
        } else if v == 166 {
            Some(KeyCode::F8)
        } else if v == 167 {
            Some(KeyCode::F9)
        } else if v == 168 {
            Some(KeyCode::F10)
        } else if v == 169 {
            Some(KeyCode::F11)
        } else if v == 170 {
            Some(KeyCode::F12)
        } else if v == 171 {
            Some(KeyCode::F13)
        } else if v == 172 {
            Some(KeyCode::F14)
        } else if v == 173 {
            Some(KeyCode::F15)
        } else if v == 174 {
            Some(KeyCode::F16)
        } else if v == 175 {
            Some(KeyCode::F17)
        } else if v == 176 {
            Some(KeyCode::F18)
        } else if v == 177 {
            Some(KeyCode::F19)
        } else if v == 178 {
            Some(KeyCode::F20)
        } else if v == 179 {
            Some(KeyCode::F21)
        } else if v == 180 {
            Some(KeyCode::F22)
        } else if v == 181 {
            Some(KeyCode::F23)
        } else if v == 182 {
            Some(KeyCode::F24)
        } else if v == 183 {
            Some(KeyCode::F25)
        } else if v == 184 {
            Some(KeyCode::F26)
        } else if v == 185 {
            Some(KeyCode::F27)
        } else if v == 186 {
            Some(KeyCode::F28)
        } else if v == 187 {
            Some(KeyCode::F29)
        } else if v == 188 {
            Some(KeyCode::F30)
        } else if v == 189 {
            Some(KeyCode::F31)
        } else if v == 190 {
            Some(KeyCode::F32)
        } else if v == 191 {
            Some(KeyCode::F33)
        } else if v == 192 {
            Some(KeyCode::F34)
        } else if v == 193 {
            Some(KeyCode::F35)
        } else {
            None
        }
    }

    pub fn index(self) -> (r: u32)
        ensures
            r == self.spec_index(),
            r < 194,
    {
        match self {
            KeyCode::Backquote => 0,
            KeyCode::Backslash => 1,
            KeyCode::BracketLeft => 2,
            KeyCode::BracketRight => 3,
            KeyCode::Comma => 4,
            KeyCode::Digit0 => 5,
            KeyCode::Digit1 => 6,
            KeyCode::Digit2 => 7,
            KeyCode::Digit3 => 8,
            KeyCode::Digit4 => 9,
            KeyCode::Digit5 => 10,
            KeyCode::Digit6 => 11,
            KeyCode::Digit7 => 12,
            KeyCode::Digit8 => 13,
            KeyCode::Digit9 => 14,
            KeyCode::Equal => 15,
            KeyCode::IntlBackslash => 16,
            KeyCode::IntlRo => 17,
            KeyCode::IntlYen => 18,
            KeyCode::KeyA => 19,
            KeyCode::KeyB => 20,
            KeyCode::KeyC => 21,
            KeyCode::KeyD => 22,
            KeyCode::KeyE => 23,
            KeyCode::KeyF => 24,
            KeyCode::KeyG => 25,
            KeyCode::KeyH => 26,
            KeyCode::KeyI => 27,
            KeyCode::KeyJ => 28,
            KeyCode::KeyK => 29,
            KeyCode::KeyL => 30,
            KeyCode::KeyM => 31,
            KeyCode::KeyN => 32,
            KeyCode::KeyO => 33,
            KeyCode::KeyP => 34,
            KeyCode::KeyQ => 35,
            KeyCode::KeyR => 36,
            KeyCode::KeyS => 37,
            KeyCode::KeyT => 38,
            KeyCode::KeyU => 39,
            KeyCode::KeyV => 40,
            KeyCode::KeyW => 41,
            KeyCode::KeyX => 42,
            KeyCode::KeyY => 43,
            KeyCode::KeyZ => 44,
            KeyCode::Minus => 45,
            KeyCode::Period => 46,
            KeyCode::Quote => 47,
            KeyCode::Semicolon => 48,
            KeyCode::Slash => 49,
            KeyCode::AltLeft => 50,
            KeyCode::AltRight => 51,
            KeyCode::Backspace => 52,
            KeyCode::CapsLock => 53,
            KeyCode::ContextMenu => 54,
            KeyCode::ControlLeft => 55,
            KeyCode::ControlRight => 56,
            KeyCode::Enter => 57,
            KeyCode::SuperLeft => 58,
            KeyCode::SuperRight => 59,
            KeyCode::ShiftLeft => 60,
            KeyCode::ShiftRight => 61,
            KeyCode::Space => 62,
            KeyCode::Tab => 63,
            KeyCode::Convert => 64,
            KeyCode::KanaMode => 65,
            KeyCode::Lang1 => 66,
            KeyCode::Lang2 => 67,
            KeyCode::Lang3 => 68,
            KeyCode::Lang4 => 69,
            KeyCode::Lang5 => 70,
            KeyCode::NonConvert => 71,
            KeyCode::Delete => 72,
            KeyCode::End => 73,
            KeyCode::Help => 74,
            KeyCode::Home => 75,
            KeyCode::Insert => 76,
            KeyCode::PageDown => 77,
            KeyCode::PageUp => 78,
            KeyCode::ArrowDown => 79,
            KeyCode::ArrowLeft => 80,
            KeyCode::ArrowRight => 81,
            KeyCode::ArrowUp => 82,
            KeyCode::NumLock => 83,
            KeyCode::Numpad0 => 84,
            KeyCode::Numpad1 => 85,
            KeyCode::Numpad2 => 86,
            KeyCode::Numpad3 => 87,
            KeyCode::Numpad4 => 88,
            KeyCode::Numpad5 => 89,
            KeyCode::Numpad6 => 90,
            KeyCode::Numpad7 => 91,
            KeyCode::Numpad8 => 92,
            KeyCode::Numpad9 => 93,
            KeyCode::NumpadAdd => 94,
            KeyCode::NumpadBackspace => 95,
            KeyCode::NumpadClear => 96,
            KeyCode::NumpadClearEntry => 97,
            KeyCode::NumpadComma => 98,
            KeyCode::NumpadDecimal => 99,
            KeyCode::NumpadDivide => 100,
            KeyCode::NumpadEnter => 101,
            KeyCode::NumpadEqual => 102,
            KeyCode::NumpadHash => 103,
            KeyCode::NumpadMemoryAdd => 104,
            KeyCode::NumpadMemoryClear => 105,
            KeyCode::NumpadMemoryRecall => 106,
            KeyCode::NumpadMemoryStore => 107,
            KeyCode::NumpadMemorySubtract => 108,
            KeyCode::NumpadMultiply => 109,
            KeyCode::NumpadParenLeft => 110,
            KeyCode::NumpadParenRight => 111,
            KeyCode::NumpadStar => 112,
            KeyCode::NumpadSubtract => 113,
            KeyCode::Escape => 114,
            KeyCode::Fn => 115,
            KeyCode::FnLock => 116,
            KeyCode::PrintScreen => 117,
            KeyCode::ScrollLock => 118,
            KeyCode::Pause => 119,
            KeyCode::BrowserBack => 120,
            KeyCode::BrowserFavorites => 121,
            KeyCode::BrowserForward => 122,
            KeyCode::BrowserHome => 123,
            KeyCode::BrowserRefresh => 124,
            KeyCode::BrowserSearch => 125,
            KeyCode::BrowserStop => 126,
            KeyCode::Eject => 127,
            KeyCode::LaunchApp1 => 128,
            KeyCode::LaunchApp2 => 129,
            KeyCode::LaunchMail => 130,
            KeyCode::MediaPlayPause => 131,
            KeyCode::MediaSelect => 132,
            KeyCode::MediaStop => 133,
            KeyCode::MediaTrackNext => 134,
            KeyCode::MediaTrackPrevious => 135,
            KeyCode::Power => 136,
            KeyCode::Sleep => 137,
            KeyCode::AudioVolumeDown => 138,
            KeyCode::AudioVolumeMute => 139,
            KeyCode::AudioVolumeUp => 140,
            KeyCode::WakeUp => 141,
            KeyCode::Meta => 142,
            KeyCode::Hyper => 143,
            KeyCode::Turbo => 144,
            KeyCode::Abort => 145,
            KeyCode::Resume => 146,
            KeyCode::Suspend => 147,
            KeyCode::Again => 148,
            KeyCode::Copy => 149,
            KeyCode::Cut => 150,
            KeyCode::Find => 151,
            KeyCode::Open => 152,
            KeyCode::Paste => 153,
            KeyCode::Props => 154,
            KeyCode::Select => 155,
            KeyCode::Undo => 156,
            KeyCode::Hiragana => 157,
            KeyCode::Katakana => 158,
            KeyCode::F1 => 159,
            KeyCode::F2 => 160,
            KeyCode::F3 => 161,
            KeyCode::F4 => 162,
            KeyCode::F5 => 163,
            KeyCode::F6 => 164,
            KeyCode::F7 => 165,
            KeyCode::F8 => 166,
            KeyCode::F9 => 167,
            KeyCode::F10 => 168,
            KeyCode::F11 => 169,
            KeyCode::F12 => 170,
            KeyCode::F13 => 171,
            KeyCode::F14 => 172,
            KeyCode::F15 => 173,
            KeyCode::F16 => 174,
            KeyCode::F17 => 175,
            KeyCode::F18 => 176,
            KeyCode::F19 => 177,
            KeyCode::F20 => 178,
            KeyCode::F21 => 179,
            KeyCode::F22 => 180,
            KeyCode::F23 => 181,
            KeyCode::F24 => 182,
            KeyCode::F25 => 183,
            KeyCode::F26 => 184,
            KeyCode::F27 => 185,
            KeyCode::F28 => 186,
            KeyCode::F29 => 187,
            KeyCode::F30 => 188,
            KeyCode::F31 => 189,
            KeyCode::F32 => 190,
            KeyCode::F33 => 191,
            KeyCode::F34 => 192,
            KeyCode::F35 => 193,
        }
    }

    #[verifier::rlimit(60)]
    pub fn from_index(v: u32) -> (r: Option<KeyCode>)
        ensures
            r == Self::spec_from_index(v),
    {
        if v == 0 {
            Some(KeyCode::Backquote)
        } else if v == 1 {
            Some(KeyCode::Backslash)
        } else if v == 2 {
            Some(KeyCode::BracketLeft)
        } else if v == 3 {
            Some(KeyCode::BracketRight)
        } else if v == 4 {
            Some(KeyCode::Comma)
        } else if v == 5 {
            Some(KeyCode::Digit0)
        } else if v == 6 {
            Some(KeyCode::Digit1)
        } else if v == 7 {
            Some(KeyCode::Digit2)
        } else if v == 8 {
            Some(KeyCode::Digit3)
        } else if v == 9 {
            Some(KeyCode::Digit4)
        } else if v == 10 {
            Some(KeyCode::Digit5)
        } else if v == 11 {
            Some(KeyCode::Digit6)
        } else if v == 12 {
            Some(KeyCode::Digit7)
        } else if v == 13 {
            Some(KeyCode::Digit8)
        } else if v == 14 {
            Some(KeyCode::Digit9)
        } else if v == 15 {
            Some(KeyCode::Equal)
        } else if v == 16 {
            Some(KeyCode::IntlBackslash)
        } else if v == 17 {
            Some(KeyCode::IntlRo)
        } else if v == 18 {
            Some(KeyCode::IntlYen)
        } else if v == 19 {
            Some(KeyCode::KeyA)
        } else if v == 20 {
            Some(KeyCode::KeyB)
        } else if v == 21 {
            Some(KeyCode::KeyC)
        } else if v == 22 {
            Some(KeyCode::KeyD)
        } else if v == 23 {
            Some(KeyCode::KeyE)
        } else if v == 24 {
            Some(KeyCode::KeyF)
        } else if v == 25 {
            Some(KeyCode::KeyG)
        } else if v == 26 {
            Some(KeyCode::KeyH)
        } else if v == 27 {
            Some(KeyCode::KeyI)
        } else if v == 28 {
            Some(KeyCode::KeyJ)
        } else if v == 29 {
            Some(KeyCode::KeyK)
        } else if v == 30 {
            Some(KeyCode::KeyL)
        } else if v == 31 {
            Some(KeyCode::KeyM)
        } else if v == 32 {
            Some(KeyCode::KeyN)
        } else if v == 33 {
            Some(KeyCode::KeyO)
        } else if v == 34 {
            Some(KeyCode::KeyP)
        } else if v == 35 {
            Some(KeyCode::KeyQ)
        } else if v == 36 {
            Some(KeyCode::KeyR)
        } else if v == 37 {
            Some(KeyCode::KeyS)
        } else if v == 38 {
            Some(KeyCode::KeyT)
        } else if v == 39 {
            Some(KeyCode::KeyU)
        } else if v == 40 {
            Some(KeyCode::KeyV)
        } else if v == 41 {
            Some(KeyCode::KeyW)
        } else if v == 42 {
            Some(KeyCode::KeyX)
        } else if v == 43 {
            Some(KeyCode::KeyY)
        } else if v == 44 {
            Some(KeyCode::KeyZ)
        } else if v == 45 {
            Some(KeyCode::Minus)
        } else if v == 46 {
            Some(KeyCode::Period)
        } else if v == 47 {
            Some(KeyCode::Quote)
        } else if v == 48 {
            Some(KeyCode::Semicolon)
        } else if v == 49 {
            Some(KeyCode::Slash)
        } else if v == 50 {
            Some(KeyCode::AltLeft)
        } else if v == 51 {
            Some(KeyCode::AltRight)
        } else if v == 52 {
            Some(KeyCode::Backspace)
        } else if v == 53 {
            Some(KeyCode::CapsLock)
        } else if v == 54 {
            Some(KeyCode::ContextMenu)
        } else if v == 55 {
            Some(KeyCode::ControlLeft)
        } else if v == 56 {
            Some(KeyCode::ControlRight)
        } else if v == 57 {
            Some(KeyCode::Enter)
        } else if v == 58 {
            Some(KeyCode::SuperLeft)
        } else if v == 59 {
            Some(KeyCode::SuperRight)
        } else if v == 60 {
            Some(KeyCode::ShiftLeft)
        } else if v == 61 {
            Some(KeyCode::ShiftRight)
        } else if v == 62 {
            Some(KeyCode::Space)
        } else if v == 63 {
            Some(KeyCode::Tab)
        } else if v == 64 {
            Some(KeyCode::Convert)
        } else if v == 65 {
            Some(KeyCode::KanaMode)
        } else if v == 66 {
            Some(KeyCode::Lang1)
        } else if v == 67 {
            Some(KeyCode::Lang2)
        } else if v == 68 {
            Some(KeyCode::Lang3)
        } else if v == 69 {
            Some(KeyCode::Lang4)
        } else if v == 70 {
            Some(KeyCode::Lang5)
        } else if v == 71 {
            Some(KeyCode::NonConvert)
        } else if v == 72 {
            Some(KeyCode::Delete)
        } else if v == 73 {
            Some(KeyCode::End)
        } else if v == 74 {
            Some(KeyCode::Help)
        } else if v == 75 {
            Some(KeyCode::Home)
        } else if v == 76 {
            Some(KeyCode::Insert)
        } else if v == 77 {
            Some(KeyCode::PageDown)
        } else if v == 78 {
            Some(KeyCode::PageUp)
        } else if v == 79 {
            Some(KeyCode::ArrowDown)
        } else if v == 80 {
            Some(KeyCode::ArrowLeft)
        } else if v == 81 {
            Some(KeyCode::ArrowRight)
        } else if v == 82 {
            Some(KeyCode::ArrowUp)
        } else if v == 83 {
            Some(KeyCode::NumLock)
        } else if v == 84 {
            Some(KeyCode::Numpad0)
        } else if v == 85 {
            Some(KeyCode::Numpad1)
        } else if v == 86 {
            Some(KeyCode::Numpad2)
        } else if v == 87 {
            Some(KeyCode::Numpad3)
        } else if v == 88 {
            Some(KeyCode::Numpad4)
        } else if v == 89 {
            Some(KeyCode::Numpad5)
        } else if v == 90 {
            Some(KeyCode::Numpad6)
        } else if v == 91 {
            Some(KeyCode::Numpad7)
        } else if v == 92 {
            Some(KeyCode::Numpad8)
        } else if v == 93 {
            Some(KeyCode::Numpad9)
        } else if v == 94 {
            Some(KeyCode::NumpadAdd)
        } else if v == 95 {
            Some(KeyCode::NumpadBackspace)
        } else if v == 96 {
            Some(KeyCode::NumpadClear)
        } else if v == 97 {
            Some(KeyCode::NumpadClearEntry)
        } else if v == 98 {
            Some(KeyCode::NumpadComma)
        } else if v == 99 {
            Some(KeyCode::NumpadDecimal)
        } else if v == 100 {
            Some(KeyCode::NumpadDivide)
        } else if v == 101 {
            Some(KeyCode::NumpadEnter)
        } else if v == 102 {
            Some(KeyCode::NumpadEqual)
        } else if v == 103 {
            Some(KeyCode::NumpadHash)
        } else if v == 104 {
            Some(KeyCode::NumpadMemoryAdd)
        } else if v == 105 {
            Some(KeyCode::NumpadMemoryClear)
        } else if v == 106 {
            Some(KeyCode::NumpadMemoryRecall)
        } else if v == 107 {
            Some(KeyCode::NumpadMemoryStore)
        } else if v == 108 {
            Some(KeyCode::NumpadMemorySubtract)
        } else if v == 109 {
            Some(KeyCode::NumpadMultiply)
        } else if v == 110 {
            Some(KeyCode::NumpadParenLeft)
        } else if v == 111 {
            Some(KeyCode::NumpadParenRight)
        } else if v == 112 {
            Some(KeyCode::NumpadStar)
        } else if v == 113 {
            Some(KeyCode::NumpadSubtract)
        } else if v == 114 {
            Some(KeyCode::Escape)
        } else if v == 115 {
            Some(KeyCode::Fn)
        } else if v == 116 {
            Some(KeyCode::FnLock)
        } else if v == 117 {
            Some(KeyCode::PrintScreen)
        } else if v == 118 {
            Some(KeyCode::ScrollLock)
        } else if v == 119 {
            Some(KeyCode::Pause)
        } else if v == 120 {
            Some(KeyCode::BrowserBack)
        } else if v == 121 {
            Some(KeyCode::BrowserFavorites)
        } else if v == 122 {
            Some(KeyCode::BrowserForward)
        } else if v == 123 {
            Some(KeyCode::BrowserHome)
        } else if v == 124 {
            Some(KeyCode::BrowserRefresh)
        } else if v == 125 {
            Some(KeyCode::BrowserSearch)
        } else if v == 126 {
            Some(KeyCode::BrowserStop)
        } else if v == 127 {
            Some(KeyCode::Eject)
        } else if v == 128 {
            Some(KeyCode::LaunchApp1)
        } else if v == 129 {
            Some(KeyCode::LaunchApp2)
        } else if v == 130 {
            Some(KeyCode::LaunchMail)
        } else if v == 131 {
            Some(KeyCode::MediaPlayPause)
        } else if v == 132 {
            Some(KeyCode::MediaSelect)
        } else if v == 133 {
            Some(KeyCode::MediaStop)
        } else if v == 134 {
            Some(KeyCode::MediaTrackNext)
        } else if v == 135 {
            Some(KeyCode::MediaTrackPrevious)
        } else if v == 136 {
            Some(KeyCode::Power)
        } else if v == 137 {
            Some(KeyCode::Sleep)
        } else if v == 138 {
            Some(KeyCode::AudioVolumeDown)
        } else if v == 139 {
            Some(KeyCode::AudioVolumeMute)
        } else if v == 140 {
            Some(KeyCode::AudioVolumeUp)
        } else if v == 141 {
            Some(KeyCode::WakeUp)
        } else if v == 142 {
            Some(KeyCode::Meta)
        } else if v == 143 {
            Some(KeyCode::Hyper)
        } else if v == 144 {
            Some(KeyCode::Turbo)
        } else if v == 145 {
            Some(KeyCode::Abort)
        } else if v == 146 {
            Some(KeyCode::Resume)
        } else if v == 147 {
            Some(KeyCode::Suspend)
        } else if v == 148 {
            Some(KeyCode::Again)
        } else if v == 149 {
            Some(KeyCode::Copy)
        } else if v == 150 {
            Some(KeyCode::Cut)
        } else if v == 151 {
            Some(KeyCode::Find)
        } else if v == 152 {
            Some(KeyCode::Open)
        } else if v == 153 {
            Some(KeyCode::Paste)
        } else if v == 154 {
            Some(KeyCode::Props)
        } else if v == 155 {
            Some(KeyCode::Select)
        } else if v == 156 {
            Some(KeyCode::Undo)
        } else if v == 157 {
            Some(KeyCode::Hiragana)
        } else if v == 158 {
            Some(KeyCode::Katakana)
        } else if v == 159 {
            Some(KeyCode::F1)
        } else if v == 160 {
            Some(KeyCode::F2)
        } else if v == 161 {
            Some(KeyCode::F3)
        } else if v == 162 {
            Some(KeyCode::F4)
        } else if v == 163 {
            Some(KeyCode::F5)
        } else if v == 164 {
            Some(KeyCode::F6)
        } else if v == 165 {
            Some(KeyCode::F7)
        } else if v == 166 {
            Some(KeyCode::F8)
        } else if v == 167 {
            Some(KeyCode::F9)
        } else if v == 168 {
            Some(KeyCode::F10)
        } else if v == 169 {
            Some(KeyCode::F11)
        } else if v == 170 {
            Some(KeyCode::F12)
        } else if v == 171 {
            Some(KeyCode::F13)
        } else if v == 172 {
            Some(KeyCode::F14)
        } else if v == 173 {
            Some(KeyCode::F15)
        } else if v == 174 {
            Some(KeyCode::F16)
        } else if v == 175 {
            Some(KeyCode::F17)
        } else if v == 176 {
            Some(KeyCode::F18)
        } else if v == 177 {
            Some(KeyCode::F19)
        } else if v == 178 {
            Some(KeyCode::F20)
        } else if v == 179 {
            Some(KeyCode::F21)
        } else if v == 180 {
            Some(KeyCode::F22)
        } else if v == 181 {
            Some(KeyCode::F23)
        } else if v == 182 {
            Some(KeyCode::F24)
        } else if v == 183 {
            Some(KeyCode::F25)
        } else if v == 184 {
            Some(KeyCode::F26)
        } else if v == 185 {
            Some(KeyCode::F27)
        } else if v == 186 {
            Some(KeyCode::F28)
        } else if v == 187 {
            Some(KeyCode::F29)
        } else if v == 188 {
            Some(KeyCode::F30)
        } else if v == 189 {
            Some(KeyCode::F31)
        } else if v == 190 {
            Some(KeyCode::F32)
        } else if v == 191 {
            Some(KeyCode::F33)
        } else if v == 192 {
            Some(KeyCode::F34)
        } else if v == 193 {
            Some(KeyCode::F35)
        } else {
            None
        }
    }

    /// Decoding a key's index yields the key again.
    #[verifier::rlimit(100)]
    pub proof fn lemma_index_round_trip(self)
        ensures
            Self::spec_from_index(self.spec_index()) == Some(self),
    {
    }
}

/// A coarse mouse gesture that can act as a linear input.
#[derive(Debug, Clone, Copy, PartialEq, Eq, Structural)]
pub enum MouseInputType {
    MoveLeft,
    MoveRight,
    MoveUp,
    MoveDown,
    ScrollUp,
    ScrollDown,
}

impl MouseInputType {
    /// A stable small integer for each gesture, used by the persisted
    /// binding format.
    pub open spec fn spec_index(self) -> u32 {
        match self {
            MouseInputType::MoveLeft => 0,
            MouseInputType::MoveRight => 1,
            MouseInputType::MoveUp => 2,
            MouseInputType::MoveDown => 3,
            MouseInputType::ScrollUp => 4,
            MouseInputType::ScrollDown => 5,
        }
    }

    pub open spec fn spec_from_index(v: u32) -> Option<MouseInputType> {
        if v == 0 {
            Some(MouseInputType::MoveLeft)
        } else if v == 1 {
            Some(MouseInputType::MoveRight)
        } else if v == 2 {
            Some(MouseInputType::MoveUp)
        } else if v == 3 {
            Some(MouseInputType::MoveDown)
        } else if v == 4 {
            Some(MouseInputType::ScrollUp)
        } else if v == 5 {
            Some(MouseInputType::ScrollDown)
        } else {
            None
        }
    }

    pub fn index(self) -> (r: u32)
        ensures
            r == self.spec_index(),
            r < 6,
    {
        match self {
            MouseInputType::MoveLeft => 0,
            MouseInputType::MoveRight => 1,
            MouseInputType::MoveUp => 2,
            MouseInputType::MoveDown => 3,
            MouseInputType::ScrollUp => 4,
            MouseInputType::ScrollDown => 5,
        }
    }

    pub fn from_index(v: u32) -> (r: Option<MouseInputType>)
        ensures
            r == Self::spec_from_index(v),
    {
        if v == 0 {
            Some(MouseInputType::MoveLeft)
        } else if v == 1 {
            Some(MouseInputType::MoveRight)
        } else if v == 2 {
            Some(MouseInputType::MoveUp)
        } else if v == 3 {
            Some(MouseInputType::MoveDown)
        } else if v == 4 {
            Some(MouseInputType::ScrollUp)
        } else if v == 5 {
            Some(MouseInputType::ScrollDown)
        } else {
            None
        }
    }

    pub proof fn lemma_index_round_trip(self)
        ensures
            Self::spec_from_index(self.spec_index()) == Some(self),
    {
    }
}

/// A physical input that produces a one-dimensional activation.
#[derive(Debug, Clone, Copy, PartialEq, Eq, Structural)]
pub enum LinearInputType {
    KnownKeyboard(KeyCode),
    Mouse(MouseInputType),
}

/// Offset separating mouse-gesture codes from key codes in the persisted
/// binding format. Key codes stay well below it.
pub const MOUSE_CODE_BASE: u32 = 1000;

impl LinearInputType {
    /// A stable integer for each linear input, used by the persisted
    /// binding format.
    pub open spec fn spec_code(self) -> u32 {
        match self {
            LinearInputType::KnownKeyboard(k) => k.spec_index(),
            LinearInputType::Mouse(m) => (MOUSE_CODE_BASE + m.spec_index()) as u32,
        }
    }

    pub open spec fn spec_from_code(v: u32) -> Option<LinearInputType> {
        if v < MOUSE_CODE_BASE {
            match KeyCode::spec_from_index(v) {
                Some(k) => Some(LinearInputType::KnownKeyboard(k)),
                None => None,
            }
        } else {
            match MouseInputType::spec_from_index((v - MOUSE_CODE_BASE) as u32) {
                Some(m) => Some(LinearInputType::Mouse(m)),
                None => None,
            }
        }
    }

    pub fn code(self) -> (r: u32)
        ensures
            r == self.spec_code(),
    {
        match self {
            LinearInputType::KnownKeyboard(k) => k.index(),
            LinearInputType::Mouse(m) => MOUSE_CODE_BASE + m.index(),
        }
    }

    pub fn from_code(v: u32) -> (r: Option<LinearInputType>)
        ensures
            r == Self::spec_from_code(v),
    {
        if v < MOUSE_CODE_BASE {
            match KeyCode::from_index(v) {
                Some(k) => Some(LinearInputType::KnownKeyboard(k)),
                None => None,
            }
        } else {
            match MouseInputType::from_index(v - MOUSE_CODE_BASE) {
                Some(m) => Some(LinearInputType::Mouse(m)),
                None => None,
            }
        }
    }

    pub proof fn lemma_code_round_trip(self)
        ensures
            Self::spec_from_code(self.spec_code()) == Some(self),
    {
        match self {
            LinearInputType::KnownKeyboard(k) => {
                k.lemma_index_round_trip();
            },
            LinearInputType::Mouse(m) => {
                m.lemma_index_round_trip();
            },
        }
    }
}

/// A physical input that produces a two-dimensional activation.
#[derive(Debug, Clone, Copy, PartialEq, Eq, Structural)]
pub enum VectorInputType {
    MouseMove,
}

impl VectorInputType {
    /// A stable integer for each vector input, used by the persisted
    /// binding format.
    pub open spec fn spec_code(self) -> u32 {
        match self {
            VectorInputType::MouseMove => 0,
        }
    }

    pub open spec fn spec_from_code(v: u32) -> Option<VectorInputType> {
        if v == 0 {
            Some(VectorInputType::MouseMove)
        } else {
            None
        }
    }

    pub fn code(self) -> (r: u32)
        ensures
            r == self.spec_code(),
    {
        match self {
            VectorInputType::MouseMove => 0,
        }
    }

    pub fn from_code(v: u32) -> (r: Option<VectorInputType>)
        ensures
            r == Self::spec_from_code(v),
    {
        if v == 0 {
            Some(VectorInputType::MouseMove)
        } else {
            None
        }
    }

    pub proof fn lemma_code_round_trip(self)
        ensures
            Self::spec_from_code(self.spec_code()) == Some(self),
    {
    }
}

/// The mapping described by a sequence of key/value pairs, later
/// entries taking precedence.
pub open spec fn map_of<K, V>(s: Seq<(K, V)>) -> Map<K, V>
    decreases s.len(),
{
    if s.len() == 0 {
        Map::empty()
    } else {
        map_of(s.drop_last()).insert(s.last().0, s.last().1)
    }
}

/// No two entries of the sequence bind the same key.
pub open spec fn unique_keys<K, V>(s: Seq<(K, V)>) -> bool {
    forall|i: int, j: int| 0 <= i < j < s.len() ==> s[i].0 != s[j].0
}

/// A key is in the mapping of a pair sequence exactly when some entry
/// binds it.
pub proof fn lemma_map_of_contains<K, V>(s: Seq<(K, V)>, k: K)
    ensures
        map_of(s).contains_key(k) <==> exists|i: int| 0 <= i < s.len() && s[i].0 == k,
    decreases s.len(),
{
    if s.len() > 0 {
        lemma_map_of_contains(s.drop_last(), k);
        if s.last().0 == k {
            assert(s[s.len() - 1].0 == k);
        } else {
            if map_of(s).contains_key(k) {
                let i = choose|i: int|
                    0 <= i < s.drop_last().len() && s.drop_last()[i].0 == k;
                assert(s[i].0 == k);
            }
            if exists|i: int| 0 <= i < s.len() && s[i].0 == k {
                let i = choose|i: int| 0 <= i < s.len() && s[i].0 == k;
                assert(s.drop_last()[i].0 == k);
            }
        }
    }
}

pub proof fn lemma_unique_keys_drop_last<K, V>(s: Seq<(K, V)>)
    requires
        unique_keys(s),
        s.len() > 0,
    ensures
        unique_keys(s.drop_last()),
{
    assert forall|a: int, b: int|
        0 <= a < b < s.drop_last().len() implies s.drop_last()[a].0 != s.drop_last()[b].0 by {
        assert(s.drop_last()[a] == s[a]);
        assert(s.drop_last()[b] == s[b]);
    }
}

/// With unique keys, each entry is bound in the mapping with its own
/// value.
pub proof fn lemma_map_of_index<K, V>(s: Seq<(K, V)>, i: int)
    requires
        unique_keys(s),
        0 <= i < s.len(),
    ensures
        map_of(s).contains_key(s[i].0),
        map_of(s)[s[i].0] == s[i].1,
    decreases s.len(),
{
    if i < s.len() - 1 {
        lemma_unique_keys_drop_last(s);
        lemma_map_of_index(s.drop_last(), i);
        assert(s.drop_last()[i] == s[i]);
        assert(s[i].0 != s.last().0);
    }
}

pub proof fn lemma_unique_keys_remove<K, V>(s: Seq<(K, V)>, i: int)
    requires
        unique_keys(s),
        0 <= i < s.len(),
    ensures
        unique_keys(s.remove(i)),
{
    assert forall|a: int, b: int|
        0 <= a < b < s.remove(i).len() implies s.remove(i)[a].0 != s.remove(i)[b].0 by {
        let sa: int = if a < i { a } else { a + 1 };
        let sb: int = if b < i { b } else { b + 1 };
        assert(s.remove(i)[a] == s[sa]);
        assert(s.remove(i)[b] == s[sb]);
    }
}

/// Removing the entry at `i` removes exactly its key from the mapping.
pub proof fn lemma_map_of_remove<K, V>(s: Seq<(K, V)>, i: int)
    requires
        unique_keys(s),
        0 <= i < s.len(),
    ensures
        map_of(s.remove(i)) == map_of(s).remove(s[i].0),
    decreases s.len(),
{
    if i == s.len() - 1 {
        lemma_map_of_contains(s.drop_last(), s.last().0);
        assert forall|j: int|
            0 <= j < s.drop_last().len() implies s.drop_last()[j].0 != s.last().0 by {
            assert(s.drop_last()[j] == s[j]);
        }
        if map_of(s.drop_last()).contains_key(s.last().0) {
            let j = choose|j: int|
                0 <= j < s.drop_last().len() && s.drop_last()[j].0 == s.last().0;
            assert(false);
        }
        assert(s.remove(i) =~= s.drop_last());
        assert(map_of(s.remove(i)) =~= map_of(s).remove(s[i].0));
    } else {
        lemma_unique_keys_drop_last(s);
        lemma_map_of_remove(s.drop_last(), i);
        assert(s.remove(i).drop_last() =~= s.drop_last().remove(i));
        assert(s.remove(i).last() == s.last());
        assert(s.drop_last()[i] == s[i]);
        assert(s[i].0 != s.last().0);
        assert(map_of(s.remove(i)) =~= map_of(s).remove(s[i].0));
    }
}

/// Maps between physical inputs providable by the user, and whatever
/// action representation the game uses.
///
/// Each physical input carries at most one binding; assigning to a
/// bound input replaces its binding.
pub struct InputMap<TLinear, TVector> {
    linear: Vec<(LinearInputType, TLinear)>,
    vector: Vec<(VectorInputType, TVector)>,
}

impl<TLinear, TVector> InputMap<TLinear, TVector> {
    /// Both entry sequences bind each key at most once. Holds of every
    /// value of the type; exposed so that lemmas about maps can state it.
    #[verifier::type_invariant]
    pub closed spec fn wf(self) -> bool {
        unique_keys(self.linear@) && unique_keys(self.vector@)
    }

    /// The linear bindings, as a mapping.
    pub closed spec fn linear_map(self) -> Map<LinearInputType, TLinear> {
        map_of(self.linear@)
    }

    /// The vector bindings, as a mapping.
    pub closed spec fn vector_map(self) -> Map<VectorInputType, TVector> {
        map_of(self.vector@)
    }

    /// The linear bindings in storage order. Every key appears at most
    /// once, and the mapping they describe is `linear_map`.
    pub closed spec fn linear_entries(self) -> Seq<(LinearInputType, TLinear)> {
        self.linear@
    }

    /// The vector bindings in storage order.
    pub closed spec fn vector_entries(self) -> Seq<(VectorInputType, TVector)> {
        self.vector@
    }

    /// The entry sequences bind each key once and agree with the
    /// mappings.
    pub proof fn lemma_entries_describe_maps(self)
        requires
            self.wf(),
        ensures
            unique_keys(self.linear_entries()),
            unique_keys(self.vector_entries()),
            map_of(self.linear_entries()) == self.linear_map(),
            map_of(self.vector_entries()) == self.vector_map(),
    {
    }

    /// A map with no bindings at all.
    pub fn empty() -> (r: Self)
        ensures
            r.linear_map() == Map::<LinearInputType, TLinear>::empty(),
            r.vector_map() == Map::<VectorInputType, TVector>::empty(),
            r.linear_entries() == Seq::<(LinearInputType, TLinear)>::empty(),
            r.vector_entries() == Seq::<(VectorInputType, TVector)>::empty(),
    {
        InputMap { linear: Vec::new(), vector: Vec::new() }
    }

    /// Binds `input` to `value`, replacing any previous binding.
    pub fn assign_linear(&mut self, input: LinearInputType, value: TLinear)
        ensures
            final(self).linear_map() == old(self).linear_map().insert(input, value),
            final(self).vector_map() == old(self).vector_map(),
            final(self).vector_entries() == old(self).vector_entries(),
    {
        proof {
            use_type_invariant(&*self);
        }
        self.unassign_linear(&input);
        proof {
            use_type_invariant(&*self);
            lemma_map_of_contains(self.linear@, input);
        }
        let ghost pre = self.linear@;
        let mut linear: Vec<(LinearInputType, TLinear)> = Vec::new();
        core::mem::swap(&mut linear, &mut self.linear);
        linear.push((input, value));
        proof {
            assert(linear@.drop_last() =~= pre);
            assert forall|a: int, b: int|
                0 <= a < b < linear@.len() implies linear@[a].0 != linear@[b].0 by {
                if b < linear@.len() - 1 {
                    assert(linear@[a] == pre[a]);
                    assert(linear@[b] == pre[b]);
                } else {
                    assert(linear@[a] == pre[a]);
                    assert(pre[a].0 != input) by {
                        if pre[a].0 == input {
                            assert(map_of(pre).contains_key(input));
                        }
                    }
                }
            }
        }
        self.linear = linear;
        proof {
            assert(final(self).linear_map() =~= old(self).linear_map().insert(input, value));
        }
    }

    /// Drops the binding of `input`, if any.
    pub fn unassign_linear(&mut self, input: &LinearInputType)
        ensures
            final(self).linear_map() == old(self).linear_map().remove(*input),
            final(self).vector_map() == old(self).vector_map(),
            final(self).vector_entries() == old(self).vector_entries(),
    {
        proof {
            use_type_invariant(&*self);
        }
        let ghost orig = self.linear@;
        let mut found: Option<usize> = None;
        let mut i: usize = 0;
        while i < self.linear.len()
            invariant
                self.linear@ == orig,
                i <= orig.len(),
                match found {
                    Some(j) => j < i && orig[j as int].0 == *input,
                    None => forall|j: int| 0 <= j < i ==> orig[j].0 != *input,
                },
            decreases orig.len() - i,
        {
            if found.is_none() && self.linear[i].0 == *input {
                found = Some(i);
            }
            i += 1;
        }
        match found {
            Some(j) => {
                let mut linear: Vec<(LinearInputType, TLinear)> = Vec::new();
                core::mem::swap(&mut linear, &mut self.linear);
                linear.remove(j);
                proof {
                    lemma_unique_keys_remove(orig, j as int);
                    lemma_map_of_remove(orig, j as int);
                }
                self.linear = linear;
            },
            None => {
                proof {
                    lemma_map_of_contains(orig, *input);
                    if map_of(orig).contains_key(*input) {
                        let j = choose|j: int| 0 <= j < orig.len() && orig[j].0 == *input;
                        assert(false);
                    }
                    assert(map_of(orig).remove(*input) =~= map_of(orig));
                }
            },
        }
    }

    /// Looks up the action bound to `input`. `None` simply means the
    /// input is unbound; that is the expected steady state for unmapped
    /// inputs, not an error.
    pub fn get_linear(&self, input: &LinearInputType) -> (r: Option<&TLinear>)
        ensures
            match r {
                Some(v) => self.linear_map().contains_key(*input)
                    && *v == self.linear_map()[*input],
                None => !self.linear_map().contains_key(*input),
            },
    {
        proof {
            use_type_invariant(self);
        }
        let mut i: usize = 0;
        while i < self.linear.len()
            invariant
                unique_keys(self.linear@),
                i <= self.linear@.len(),
                forall|j: int| 0 <= j < i ==> self.linear@[j].0 != *input,
                self.linear_map() == map_of(self.linear@),
            decreases self.linear@.len() - i,
        {
            if self.linear[i].0 == *input {
                proof {
                    lemma_map_of_index(self.linear@, i as int);
                }
                return Some(&self.linear[i].1);
            }
            i += 1;
        }
        proof {
            lemma_map_of_contains(self.linear@, *input);
            if map_of(self.linear@).contains_key(*input) {
                let j = choose|j: int|
                    0 <= j < self.linear@.len() && self.linear@[j].0 == *input;
                assert(false);
            }
        }
        None
    }

    /// Binds `input` to `value`, replacing any previous binding.
    pub fn assign_vector(&mut self, input: VectorInputType, value: TVector)
        ensures
            final(self).vector_map() == old(self).vector_map().insert(input, value),
            final(self).linear_map() == old(self).linear_map(),
            final(self).linear_entries() == old(self).linear_entries(),
    {
        proof {
            use_type_invariant(&*self);
        }
        self.unassign_vector(&input);
        proof {
            use_type_invariant(&*self);
            lemma_map_of_contains(self.vector@, input);
        }
        let ghost pre = self.vector@;
        let mut vector: Vec<(VectorInputType, TVector)> = Vec::new();
        core::mem::swap(&mut vector, &mut self.vector);
        vector.push((input, value));
        proof {
            assert(vector@.drop_last() =~= pre);
            assert forall|a: int, b: int|
                0 <= a < b < vector@.len() implies vector@[a].0 != vector@[b].0 by {
                if b < vector@.len() - 1 {
                    assert(vector@[a] == pre[a]);
                    assert(vector@[b] == pre[b]);
                } else {
                    assert(vector@[a] == pre[a]);
                    assert(pre[a].0 != input) by {
                        if pre[a].0 == input {
                            assert(map_of(pre).contains_key(input));
                        }
                    }
                }
            }
        }
        self.vector = vector;
        proof {
            assert(final(self).vector_map() =~= old(self).vector_map().insert(input, value));
        }
    }

    /// Drops the binding of `input`, if any.
    pub fn unassign_vector(&mut self, input: &VectorInputType)
        ensures
            final(self).vector_map() == old(self).vector_map().remove(*input),
            final(self).linear_map() == old(self).linear_map(),
            final(self).linear_entries() == old(self).linear_entries(),
    {
        proof {
            use_type_invariant(&*self);
        }
        let ghost orig = self.vector@;
        let mut found: Option<usize> = None;
        let mut i: usize = 0;
        while i < self.vector.len()
            invariant
                self.vector@ == orig,
                i <= orig.len(),
                match found {
                    Some(j) => j < i && orig[j as int].0 == *input,
                    None => forall|j: int| 0 <= j < i ==> orig[j].0 != *input,
                },
            decreases orig.len() - i,
        {
            if found.is_none() && self.vector[i].0 == *input {
                found = Some(i);
            }
            i += 1;
        }
        match found {
            Some(j) => {
                let mut vector: Vec<(VectorInputType, TVector)> = Vec::new();
                core::mem::swap(&mut vector, &mut self.vector);
                vector.remove(j);
                proof {
                    lemma_unique_keys_remove(orig, j as int);
                    lemma_map_of_remove(orig, j as int);
                }
                self.vector = vector;
            },
            None => {
                proof {
                    lemma_map_of_contains(orig, *input);
                    if map_of(orig).contains_key(*input) {
                        let j = choose|j: int| 0 <= j < orig.len() && orig[j].0 == *input;
                        assert(false);
                    }
                    assert(map_of(orig).remove(*input) =~= map_of(orig));
                }
            },
        }
    }

    /// Looks up the action bound to `input`; `None` means unbound.
    pub fn get_vector(&self, input: &VectorInputType) -> (r: Option<&TVector>)
        ensures
            match r {
                Some(v) => self.vector_map().contains_key(*input)
                    && *v == self.vector_map()[*input],
                None => !self.vector_map().contains_key(*input),
            },
    {
        proof {
            use_type_invariant(self);
        }
        let mut i: usize = 0;
        while i < self.vector.len()
            invariant
                unique_keys(self.vector@),
                i <= self.vector@.len(),
                forall|j: int| 0 <= j < i ==> self.vector@[j].0 != *input,
                self.vector_map() == map_of(self.vector@),
            decreases self.vector@.len() - i,
        {
            if self.vector[i].0 == *input {
                proof {
                    lemma_map_of_index(self.vector@, i as int);
                }
                return Some(&self.vector[i].1);
            }
            i += 1;
        }
        proof {
            lemma_map_of_contains(self.vector@, *input);
            if map_of(self.vector@).contains_key(*input) {
                let j = choose|j: int|
                    0 <= j < self.vector@.len() && self.vector@[j].0 == *input;
                assert(false);
            }
        }
        None
    }

    /// Overlays `other` on top of this map: every binding of `other` is
    /// taken, and bindings only present here are kept. Used to lay
    /// persisted user preferences over the game's defaults, with the
    /// user's side winning on collision.
    pub fn union(&mut self, other: InputMap<TLinear, TVector>)
        ensures
            final(self).linear_map() == old(self).linear_map().union_prefer_right(
                other.linear_map(),
            ),
            final(self).vector_map() == old(self).vector_map().union_prefer_right(
                other.vector_map(),
            ),
    {
        proof {
            use_type_invariant(&other);
        }
        let InputMap { linear: mut olin, vector: mut ovec } = other;
        let ghost olin_orig = olin@;
        let ghost ovec_orig = ovec@;
        while olin.len() > 0
            invariant
                unique_keys(olin@),
                olin@.len() <= olin_orig.len(),
                olin@ == olin_orig.take(olin@.len() as int),
                self.linear_map().union_prefer_right(map_of(olin@))
                    == old(self).linear_map().union_prefer_right(map_of(olin_orig)),
                self.vector_map() == old(self).vector_map(),
            decreases olin@.len(),
        {
            let ghost before = olin@;
            let p = olin.pop().unwrap();
            proof {
                assert(olin@ =~= before.drop_last());
                assert forall|i: int| 0 <= i < olin@.len() implies olin@[i] == olin_orig[i] by {
                    assert(olin@[i] == before[i]);
                    assert(before[i] == olin_orig.take(before.len() as int)[i]);
                }
                assert(olin@ =~= olin_orig.take(olin@.len() as int));
                lemma_unique_keys_drop_last(before);
                lemma_map_of_contains(olin@, p.0);
                if map_of(olin@).contains_key(p.0) {
                    let j = choose|j: int| 0 <= j < olin@.len() && olin@[j].0 == p.0;
                    assert(before[j] == olin@[j]);
                    assert(false);
                }
            }
            let ghost self_before = self.linear_map();
            self.assign_linear(p.0, p.1);
            proof {
                assert(self.linear_map().union_prefer_right(map_of(olin@))
                    =~= self_before.union_prefer_right(map_of(before)));
            }
        }
        proof {
            assert(self.linear_map().union_prefer_right(map_of(olin@))
                =~= self.linear_map());
        }
        while ovec.len() > 0
            invariant
                unique_keys(ovec@),
                ovec@.len() <= ovec_orig.len(),
                ovec@ == ovec_orig.take(ovec@.len() as int),
                self.vector_map().union_prefer_right(map_of(ovec@))
                    == old(self).vector_map().union_prefer_right(map_of(ovec_orig)),
                self.linear_map() == old(self).linear_map().union_prefer_right(
                    map_of(olin_orig),
                ),
            decreases ovec@.len(),
        {
            let ghost before = ovec@;
            let p = ovec.pop().unwrap();
            proof {
                assert(ovec@ =~= before.drop_last());
                assert forall|i: int| 0 <= i < ovec@.len() implies ovec@[i] == ovec_orig[i] by {
                    assert(ovec@[i] == before[i]);
                    assert(before[i] == ovec_orig.take(before.len() as int)[i]);
                }
                assert(ovec@ =~= ovec_orig.take(ovec@.len() as int));
                lemma_unique_keys_drop_last(before);
                lemma_map_of_contains(ovec@, p.0);
                if map_of(ovec@).contains_key(p.0) {
                    let j = choose|j: int| 0 <= j < ovec@.len() && ovec@[j].0 == p.0;
                    assert(before[j] == ovec@[j]);
                    assert(false);
                }
            }
            let ghost self_before = self.vector_map();
            self.assign_vector(p.0, p.1);
            proof {
                assert(self.vector_map().union_prefer_right(map_of(ovec@))
                    =~= self_before.union_prefer_right(map_of(before)));
            }
        }
        proof {
            assert(self.vector_map().union_prefer_right(map_of(ovec@))
                =~= self.vector_map());
        }
    }
}

/// The direction picked for the linear channel of a pointer movement:
/// the axis with the larger magnitude wins (the horizontal axis only
/// strictly), and the sign of the winning delta picks the direction.
pub open spec fn spec_pointer_direction(dx: int, dy: int) -> MouseInputType {
    if spec_abs(dx) > spec_abs(dy) {
        if dx > 0 {
            MouseInputType::MoveRight
        } else {
            MouseInputType::MoveLeft
        }
    } else {
        if dy > 0 {
            MouseInputType::MoveUp
        } else {
            MouseInputType::MoveDown
        }
    }
}

/// The linear magnitude of a pointer movement: the magnitude of the
/// dominant axis, scaled by the sensitivity and clamped to one unit.
pub open spec fn spec_pointer_magnitude(dx: int, dy: int, sensitivity: int) -> int {
    spec_clamp_unit(spec_abs(if spec_abs(dx) > spec_abs(dy) { dx } else { dy }) * sensitivity)
}

/// Classifies a raw pointer movement of (`dx`, `dy`) physical units.
///
/// The linear channel fires only when the movement clears the jitter
/// threshold on some axis, and then reports exactly one of the four
/// move directions; the vector channel sees every movement, scaled by
/// `sensitivity` (in thousandths) and clamped per axis.
pub fn classify_pointer_delta(dx: i64, dy: i64, sensitivity: u32) -> (r: (
    Option<(LinearInputType, LinearInputActivation)>,
    VectorInputActivation,
))
    requires
        spec_abs(dx as int) <= 0x1_0000_0000,
        spec_abs(dy as int) <= 0x1_0000_0000,
    ensures
        (r.0 matches Some(p)) <==> (spec_abs(dx as int) > POINTER_JITTER_THRESHOLD
            || spec_abs(dy as int) > POINTER_JITTER_THRESHOLD),
        r.0 matches Some(p) ==> p.0 == LinearInputType::Mouse(
            spec_pointer_direction(dx as int, dy as int),
        ),
        r.0 matches Some(p) ==> p.1.spec_get() == spec_pointer_magnitude(
            dx as int,
            dy as int,
            sensitivity as int,
        ),
        r.1.spec_x() == spec_clamp_axis(dx as int * sensitivity as int),
        r.1.spec_y() == spec_clamp_axis(dy as int * sensitivity as int),
{
    let sens: u64 = sensitivity as u64;
    let ax: i64 = if dx < 0 {
        -dx
    } else {
        dx
    };
    let ay: i64 = if dy < 0 {
        -dy
    } else {
        dy
    };
    proof {
        assert((ax as u64) * sens <= 0xffff_ffff_ffff_ffff) by (nonlinear_arith)
            requires
                0 <= ax <= 0x1_0000_0000,
                sens <= 0xffff_ffff,
        ;
        assert((ay as u64) * sens <= 0xffff_ffff_ffff_ffff) by (nonlinear_arith)
            requires
                0 <= ay <= 0x1_0000_0000,
                sens <= 0xffff_ffff,
        ;
        assert(ax as int * sens as int >= 0 && ay as int * sens as int >= 0)
            by (nonlinear_arith)
            requires
                0 <= ax && 0 <= ay && 0 <= sens,
        ;
        assert(dx as int * sens as int == -((-dx) as int * sens as int)
            && dy as int * sens as int == -((-dy) as int * sens as int)) by (nonlinear_arith);
    }
    let magx: u64 = (ax as u64) * sens;
    let magy: u64 = (ay as u64) * sens;
    let cmagx: u64 = if magx > ACTIVATION_SCALE as u64 {
        ACTIVATION_SCALE as u64
    } else {
        magx
    };
    let cmagy: u64 = if magy > ACTIVATION_SCALE as u64 {
        ACTIVATION_SCALE as u64
    } else {
        magy
    };
    let vx: i64 = if dx < 0 {
        -(cmagx as i64)
    } else {
        cmagx as i64
    };
    let vy: i64 = if dy < 0 {
        -(cmagy as i64)
    } else {
        cmagy as i64
    };
    let vector = VectorInputActivation::clamp(vx, vy);
    let linear: Option<(LinearInputType, LinearInputActivation)> = if ax
        > POINTER_JITTER_THRESHOLD || ay > POINTER_JITTER_THRESHOLD {
        let direction: MouseInputType = if ax > ay {
            if dx > 0 {
                MouseInputType::MoveRight
            } else {
                MouseInputType::MoveLeft
            }
        } else {
            if dy > 0 {
                MouseInputType::MoveUp
            } else {
                MouseInputType::MoveDown
            }
        };
        let magnitude: u64 = if ax > ay {
            cmagx
        } else {
            cmagy
        };
        Some((
            LinearInputType::Mouse(direction),
            LinearInputActivation::clamp(magnitude as i64),
        ))
    } else {
        None
    };
    (linear, vector)
}

/// Classifies a key press or release: the key itself becomes the linear
/// input, fully activated on press and released to zero otherwise.
pub fn classify_keyboard(key: KeyCode, pressed: bool) -> (r: (
    LinearInputType,
    LinearInputActivation,
))
    ensures
        r.0 == LinearInputType::KnownKeyboard(key),
        r.1.spec_get() == if pressed {
            ACTIVATION_SCALE as int
        } else {
            0int
        },
{
    let raw: i64 = if pressed {
        ACTIVATION_SCALE as i64
    } else {
        0
    };
    let activation = match LinearInputActivation::try_from(raw) {
        Ok(a) => a,
        Err(_) => LinearInputActivation::clamp(0),
    };
    (LinearInputType::KnownKeyboard(key), activation)
}

impl InputMap<u32, u32> {
    /// Serializes the bindings into the persisted record text: one
    /// fixed-width record per binding, input codes and action values
    /// as numeric identifiers.
    pub fn to_str(&self) -> (r: String)
        ensures
            r@ == spec_encode(self.linear_entries(), self.vector_entries()),
    {
        encode_bindings(&self.linear, &self.vector)
    }

    /// Parses a persisted record text. A malformed text is reported as
    /// an error, never a panic, so that startup can fall back to the
    /// defaults; a well-formed text yields exactly the mapping of its
    /// records, a later record winning a repeated input.
    pub fn from_str(s: &str) -> (r: Result<InputMap<u32, u32>, BindingsParseError>)
        ensures
            (r is Ok) <==> (spec_parse(s@) is Some),
            r matches Ok(m) ==> (spec_parse(s@) matches Some(p) && m.linear_map() == map_of(p.0)
                && m.vector_map() == map_of(p.1)),
    {
        match parse_bindings(s) {
            None => Err(BindingsParseError),
            Some(entries) => {
                let (lv, vv) = entries;
                let mut m = InputMap::<u32, u32>::empty();
                let mut i: usize = 0;
                while i < lv.len()
                    invariant
                        i <= lv@.len(),
                        m.linear_map() == map_of(lv@.take(i as int)),
                        m.vector_map() == Map::<VectorInputType, u32>::empty(),
                    decreases lv@.len() - i,
                {
                    let entry = lv[i];
                    m.assign_linear(entry.0, entry.1);
                    proof {
                        assert(lv@.take(i + 1).drop_last() =~= lv@.take(i as int));
                    }
                    i += 1;
                }
                proof {
                    assert(lv@.take(lv@.len() as int) =~= lv@);
                }
                let mut j: usize = 0;
                while j < vv.len()
                    invariant
                        j <= vv@.len(),
                        m.linear_map() == map_of(lv@),
                        m.vector_map() == map_of(vv@.take(j as int)),
                    decreases vv@.len() - j,
                {
                    let entry = vv[j];
                    m.assign_vector(entry.0, entry.1);
                    proof {
                        assert(vv@.take(j + 1).drop_last() =~= vv@.take(j as int));
                    }
                    j += 1;
                }
                proof {
                    assert(vv@.take(vv@.len() as int) =~= vv@);
                }
                Ok(m)
            },
        }
    }

    /// Restores the bindings a game starts with: the caller-supplied
    /// defaults, overlaid with whatever bindings were persisted. A
    /// missing or malformed persisted text never aborts startup: the
    /// defaults are simply kept, and the caller re-persists the
    /// merged result.
    pub fn restore_bindings(defaults: InputMap<u32, u32>, persisted: Option<&str>) -> (r:
        InputMap<u32, u32>)
        ensures
            match persisted {
                Some(text) => match spec_parse(text@) {
                    Some(p) => r.linear_map() == defaults.linear_map().union_prefer_right(
                        map_of(p.0),
                    ) && r.vector_map() == defaults.vector_map().union_prefer_right(map_of(p.1)),
                    None => r.linear_map() == defaults.linear_map() && r.vector_map()
                        == defaults.vector_map(),
                },
                None => r.linear_map() == defaults.linear_map() && r.vector_map()
                    == defaults.vector_map(),
            },
    {
        let mut merged = defaults;
        if let Some(text) = persisted {
            if let Ok(user_preferences) = InputMap::<u32, u32>::from_str(text) {
                merged.union(user_preferences);
            }
        }
        merged
    }

    /// Round trip: parsing a serialized map recovers exactly the
    /// assigned bindings, and nothing else, so an input unbound before
    /// serialization is still unbound afterwards.
    pub proof fn lemma_round_trip(self)
        ensures
            spec_parse(spec_encode(self.linear_entries(), self.vector_entries())) matches Some(p)
                && map_of(p.0) == self.linear_map() && map_of(p.1) == self.vector_map(),
    {
        crate::game::persist::lemma_parse_encode(self.linear_entries(), self.vector_entries());
    }
}

} // verus!
