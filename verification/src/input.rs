//! Keyboard, mouse and focus input of the window, turned into the events that
//! the immediate-mode GUI consumes.
//!
//! Two windowing back ends feed the GUI: GLFW, whose keys and buttons are the
//! raw GLFW codes (`GLFW_KEY_*`, `GLFW_MOUSE_BUTTON_*`), and winit, whose
//! physical keys are named by [`ScanKey`].  Events that carry positions,
//! sizes or scroll amounts are not handled here.
use vstd::prelude::*;

verus! {

/// A key as the GUI knows it.
#[derive(Clone, Copy, Debug, PartialEq, Eq, Structural)]
pub enum GuiKey {
    Space,
    Apostrophe,
    Comma,
    Minus,
    Period,
    Slash,
    Alpha0,
    Alpha1,
    Alpha2,
    Alpha3,
    Alpha4,
    Alpha5,
    Alpha6,
    Alpha7,
    Alpha8,
    Alpha9,
    Semicolon,
    Equal,
    A,
    B,
    C,
    D,
    E,
    F,
    G,
    H,
    I,
    J,
    K,
    L,
    M,
    N,
    O,
    P,
    Q,
    R,
    S,
    T,
    U,
    V,
    W,
    X,
    Y,
    Z,
    LeftBracket,
    Backslash,
    RightBracket,
    GraveAccent,
    Escape,
    Enter,
    Tab,
    Backspace,
    Insert,
    Delete,
    RightArrow,
    LeftArrow,
    DownArrow,
    UpArrow,
    PageUp,
    PageDown,
    Home,
    End,
    CapsLock,
    ScrollLock,
    NumLock,
    PrintScreen,
    Pause,
    F1,
    F2,
    F3,
    F4,
    F5,
    F6,
    F7,
    F8,
    F9,
    F10,
    F11,
    F12,
    KeypadDecimal,
    KeypadDivide,
    KeypadMultiply,
    KeypadSubtract,
    KeypadAdd,
    KeypadEnter,
    LeftShift,
    LeftCtrl,
    LeftAlt,
    LeftSuper,
    RightShift,
    RightCtrl,
    RightAlt,
    RightSuper,
    Menu,
    Keypad0,
    Keypad1,
    Keypad2,
    Keypad3,
    Keypad4,
    Keypad5,
    Keypad6,
    Keypad7,
    Keypad8,
    Keypad9,
    KeypadEqual,
    ModCtrl,
    ModShift,
    ModAlt,
    ModSuper,
}

/// A mouse button as the GUI knows it.
#[derive(Clone, Copy, Debug, PartialEq, Eq, Structural)]
pub enum GuiMouseButton {
    Left,
    Right,
    Middle,
    Extra1,
    Extra2,
}

/// One input event handed to the GUI.
#[derive(Clone, Copy, Debug, PartialEq, Eq, Structural)]
pub enum GuiInput {
    /// A key went down (`pressed`) or up.
    Key { key: GuiKey, pressed: bool },
    /// A mouse button went down (`pressed`) or up.
    MouseButton { button: GuiMouseButton, pressed: bool },
    /// A character was typed.
    Character(char),
    /// The application lost (`true`) or regained (`false`) the focus.
    FocusLost(bool),
}

/// Unicode general category Cc: the C0 controls, DEL and the C1 controls.
pub open spec fn is_control_char(c: char) -> bool {
    (c as u32) <= 0x1f || (0x7f <= (c as u32) && (c as u32) <= 0x9f)
}

/// Whether `c` is a control character, which the GUI is never sent as text.
pub fn is_control(c: char) -> (b: bool)
    ensures
        b == is_control_char(c),
{
    let v = c as u32;
    v <= 0x1f || (0x7f <= v && v <= 0x9f)
}

// ---------------------------------------------------------------------------
// GLFW

/// `GLFW_PRESS`: the action of a key or button that went down.
pub const GLFW_PRESS: i32 = 1;

/// The GUI key for a GLFW key code, if the GUI has one.
pub open spec fn spec_glfw_key(code: i32) -> Option<GuiKey> {
    match code {
        32 => Some(GuiKey::Space),
        39 => Some(GuiKey::Apostrophe),
        44 => Some(GuiKey::Comma),
        45 => Some(GuiKey::Minus),
        46 => Some(GuiKey::Period),
        47 => Some(GuiKey::Slash),
        48 => Some(GuiKey::Alpha0),
        49 => Some(GuiKey::Alpha1),
        50 => Some(GuiKey::Alpha2),
        51 => Some(GuiKey::Alpha3),
        52 => Some(GuiKey::Alpha4),
        53 => Some(GuiKey::Alpha5),
        54 => Some(GuiKey::Alpha6),
        55 => Some(GuiKey::Alpha7),
        56 => Some(GuiKey::Alpha8),
        57 => Some(GuiKey::Alpha9),
        59 => Some(GuiKey::Semicolon),
        61 => Some(GuiKey::Equal),
        65 => Some(GuiKey::A),
        66 => Some(GuiKey::B),
        67 => Some(GuiKey::C),
        68 => Some(GuiKey::D),
        69 => Some(GuiKey::E),
        70 => Some(GuiKey::F),
        71 => Some(GuiKey::G),
        72 => Some(GuiKey::H),
        73 => Some(GuiKey::I),
        74 => Some(GuiKey::J),
        75 => Some(GuiKey::K),
        76 => Some(GuiKey::L),
        77 => Some(GuiKey::M),
        78 => Some(GuiKey::N),
        79 => Some(GuiKey::O),
        80 => Some(GuiKey::P),
        81 => Some(GuiKey::Q),
        82 => Some(GuiKey::R),
        83 => Some(GuiKey::S),
        84 => Some(GuiKey::T),
        85 => Some(GuiKey::U),
        86 => Some(GuiKey::V),
        87 => Some(GuiKey::W),
        88 => Some(GuiKey::X),
        89 => Some(GuiKey::Y),
        90 => Some(GuiKey::Z),
        91 => Some(GuiKey::LeftBracket),
        92 => Some(GuiKey::Backslash),
        93 => Some(GuiKey::RightBracket),
        96 => Some(GuiKey::GraveAccent),
        256 => Some(GuiKey::Escape),
        257 => Some(GuiKey::Enter),
        258 => Some(GuiKey::Tab),
        259 => Some(GuiKey::Backspace),
        260 => Some(GuiKey::Insert),
        261 => Some(GuiKey::Delete),
        262 => Some(GuiKey::RightArrow),
        263 => Some(GuiKey::LeftArrow),
        264 => Some(GuiKey::DownArrow),
        265 => Some(GuiKey::UpArrow),
        266 => Some(GuiKey::PageUp),
        267 => Some(GuiKey::PageDown),
        268 => Some(GuiKey::Home),
        269 => Some(GuiKey::End),
        280 => Some(GuiKey::CapsLock),
        281 => Some(GuiKey::ScrollLock),
        282 => Some(GuiKey::NumLock),
        283 => Some(GuiKey::PrintScreen),
        284 => Some(GuiKey::Pause),
        290 => Some(GuiKey::F1),
        291 => Some(GuiKey::F2),
        292 => Some(GuiKey::F3),
        293 => Some(GuiKey::F4),
        294 => Some(GuiKey::F5),
        295 => Some(GuiKey::F6),
        296 => Some(GuiKey::F7),
        297 => Some(GuiKey::F8),
        298 => Some(GuiKey::F9),
        299 => Some(GuiKey::F10),
        300 => Some(GuiKey::F11),
        301 => Some(GuiKey::F12),
        330 => Some(GuiKey::KeypadDecimal),
        331 => Some(GuiKey::KeypadDivide),
        332 => Some(GuiKey::KeypadMultiply),
        333 => Some(GuiKey::KeypadSubtract),
        334 => Some(GuiKey::KeypadAdd),
        335 => Some(GuiKey::KeypadEnter),
        336 => Some(GuiKey::Equal),
        340 => Some(GuiKey::LeftShift),
        341 => Some(GuiKey::LeftCtrl),
        342 => Some(GuiKey::LeftAlt),
        343 => Some(GuiKey::LeftSuper),
        344 => Some(GuiKey::RightShift),
        345 => Some(GuiKey::RightCtrl),
        346 => Some(GuiKey::RightAlt),
        347 => Some(GuiKey::RightSuper),
        348 => Some(GuiKey::Menu),
        _ => None,
    }
}

/// Translates a GLFW key code into the GUI's key.
pub fn translate_glfw_key(code: i32) -> (key: Option<GuiKey>)
    ensures
        key == spec_glfw_key(code),
{
    match code {
        32 => Some(GuiKey::Space),
        39 => Some(GuiKey::Apostrophe),
        44 => Some(GuiKey::Comma),
        45 => Some(GuiKey::Minus),
        46 => Some(GuiKey::Period),
        47 => Some(GuiKey::Slash),
        48 => Some(GuiKey::Alpha0),
        49 => Some(GuiKey::Alpha1),
        50 => Some(GuiKey::Alpha2),
        51 => Some(GuiKey::Alpha3),
        52 => Some(GuiKey::Alpha4),
        53 => Some(GuiKey::Alpha5),
        54 => Some(GuiKey::Alpha6),
        55 => Some(GuiKey::Alpha7),
        56 => Some(GuiKey::Alpha8),
        57 => Some(GuiKey::Alpha9),
        59 => Some(GuiKey::Semicolon),
        61 => Some(GuiKey::Equal),
        65 => Some(GuiKey::A),
        66 => Some(GuiKey::B),
        67 => Some(GuiKey::C),
        68 => Some(GuiKey::D),
        69 => Some(GuiKey::E),
        70 => Some(GuiKey::F),
        71 => Some(GuiKey::G),
        72 => Some(GuiKey::H),
        73 => Some(GuiKey::I),
        74 => Some(GuiKey::J),
        75 => Some(GuiKey::K),
        76 => Some(GuiKey::L),
        77 => Some(GuiKey::M),
        78 => Some(GuiKey::N),
        79 => Some(GuiKey::O),
        80 => Some(GuiKey::P),
        81 => Some(GuiKey::Q),
        82 => Some(GuiKey::R),
        83 => Some(GuiKey::S),
        84 => Some(GuiKey::T),
        85 => Some(GuiKey::U),
        86 => Some(GuiKey::V),
        87 => Some(GuiKey::W),
        88 => Some(GuiKey::X),
        89 => Some(GuiKey::Y),
        90 => Some(GuiKey::Z),
        91 => Some(GuiKey::LeftBracket),
        92 => Some(GuiKey::Backslash),
        93 => Some(GuiKey::RightBracket),
        96 => Some(GuiKey::GraveAccent),
        256 => Some(GuiKey::Escape),
        257 => Some(GuiKey::Enter),
        258 => Some(GuiKey::Tab),
        259 => Some(GuiKey::Backspace),
        260 => Some(GuiKey::Insert),
        261 => Some(GuiKey::Delete),
        262 => Some(GuiKey::RightArrow),
        263 => Some(GuiKey::LeftArrow),
        264 => Some(GuiKey::DownArrow),
        265 => Some(GuiKey::UpArrow),
        266 => Some(GuiKey::PageUp),
        267 => Some(GuiKey::PageDown),
        268 => Some(GuiKey::Home),
        269 => Some(GuiKey::End),
        280 => Some(GuiKey::CapsLock),
        281 => Some(GuiKey::ScrollLock),
        282 => Some(GuiKey::NumLock),
        283 => Some(GuiKey::PrintScreen),
        284 => Some(GuiKey::Pause),
        290 => Some(GuiKey::F1),
        291 => Some(GuiKey::F2),
        292 => Some(GuiKey::F3),
        293 => Some(GuiKey::F4),
        294 => Some(GuiKey::F5),
        295 => Some(GuiKey::F6),
        296 => Some(GuiKey::F7),
        297 => Some(GuiKey::F8),
        298 => Some(GuiKey::F9),
        299 => Some(GuiKey::F10),
        300 => Some(GuiKey::F11),
        301 => Some(GuiKey::F12),
        330 => Some(GuiKey::KeypadDecimal),
        331 => Some(GuiKey::KeypadDivide),
        332 => Some(GuiKey::KeypadMultiply),
        333 => Some(GuiKey::KeypadSubtract),
        334 => Some(GuiKey::KeypadAdd),
        335 => Some(GuiKey::KeypadEnter),
        336 => Some(GuiKey::Equal),
        340 => Some(GuiKey::LeftShift),
        341 => Some(GuiKey::LeftCtrl),
        342 => Some(GuiKey::LeftAlt),
        343 => Some(GuiKey::LeftSuper),
        344 => Some(GuiKey::RightShift),
        345 => Some(GuiKey::RightCtrl),
        346 => Some(GuiKey::RightAlt),
        347 => Some(GuiKey::RightSuper),
        348 => Some(GuiKey::Menu),
        _ => None,
    }
}

/// The modifier that a GLFW modifier key (left or right Control, Shift, Alt
/// or Super) stands for.
pub open spec fn spec_glfw_modifier(code: i32) -> Option<GuiKey> {
    if code == 341 || code == 345 {
        Some(GuiKey::ModCtrl)
    } else if code == 340 || code == 344 {
        Some(GuiKey::ModShift)
    } else if code == 342 || code == 346 {
        Some(GuiKey::ModAlt)
    } else if code == 343 || code == 347 {
        Some(GuiKey::ModSuper)
    } else {
        None
    }
}

/// The GUI button for a GLFW mouse button (`GLFW_MOUSE_BUTTON_1` is 0); the
/// fifth and the seventh and eighth buttons are not passed on.
pub open spec fn spec_glfw_mouse_button(button: i32) -> Option<GuiMouseButton> {
    match button {
        0 => Some(GuiMouseButton::Left),
        1 => Some(GuiMouseButton::Right),
        2 => Some(GuiMouseButton::Middle),
        3 => Some(GuiMouseButton::Extra1),
        5 => Some(GuiMouseButton::Extra2),
        _ => None,
    }
}

/// An input event of a GLFW window, with GLFW's codes.
#[derive(Clone, Copy, Debug, PartialEq, Eq, Structural)]
pub enum GlfwInputEvent {
    MouseButton { button: i32, action: i32 },
    Key { key: i32, action: i32, mods: i32 },
    Char(char),
    Focus(bool),
}

pub open spec fn opt_event(key: Option<GuiKey>, pressed: bool) -> Seq<GuiInput> {
    match key {
        Some(k) => seq![GuiInput::Key { key: k, pressed }],
        None => Seq::empty(),
    }
}

/// The GUI events for a GLFW input event.
pub open spec fn spec_glfw_inputs(event: GlfwInputEvent) -> Seq<GuiInput> {
    match event {
        GlfwInputEvent::MouseButton { button, action } => match spec_glfw_mouse_button(button) {
            Some(b) => seq![GuiInput::MouseButton { button: b, pressed: action == GLFW_PRESS }],
            None => Seq::empty(),
        },
        GlfwInputEvent::Key { key, action, .. } =>
            opt_event(spec_glfw_key(key), action == GLFW_PRESS)
                + opt_event(spec_glfw_modifier(key), action == GLFW_PRESS),
        GlfwInputEvent::Char(c) => if is_control_char(c) {
            Seq::empty()
        } else {
            seq![GuiInput::Character(c)]
        },
        GlfwInputEvent::Focus(focused) => seq![GuiInput::FocusLost(!focused)],
    }
}

fn push_opt(out: &mut Vec<GuiInput>, key: Option<GuiKey>, pressed: bool)
    ensures
        final(out)@ == old(out)@ + opt_event(key, pressed),
{
    match key {
        Some(k) => out.push(GuiInput::Key { key: k, pressed }),
        None => {},
    }
}

/// The input state that a GLFW window keeps for the GUI: the modifier bits
/// (`GLFW_MOD_*`) of the last key event.
pub struct GlfwInputState {
    modifiers: i32,
}

impl GlfwInputState {
    pub closed spec fn spec_modifiers(&self) -> i32 {
        self.modifiers
    }

    /// No modifier held.
    pub fn new() -> (s: GlfwInputState)
        ensures
            s.spec_modifiers() == 0,
    {
        GlfwInputState { modifiers: 0 }
    }

    /// Modifier bits of the last key event.
    pub fn modifiers(&self) -> (m: i32)
        ensures
            m == self.spec_modifiers(),
    {
        self.modifiers
    }

    /// The GUI events for an input event of the window, in the order in
    /// which the GUI receives them; a key event also records its modifiers.
    pub fn handle_event(&mut self, event: GlfwInputEvent) -> (inputs: Vec<GuiInput>)
        ensures
            inputs@ == spec_glfw_inputs(event),
            final(self).spec_modifiers() == match event {
                GlfwInputEvent::Key { mods, .. } => mods,
                _ => old(self).spec_modifiers(),
            },
    {
        let mut out: Vec<GuiInput> = Vec::new();
        match event {
            GlfwInputEvent::MouseButton { button, action } => {
                let pressed = action == GLFW_PRESS;
                let b = match button {
                    0 => Some(GuiMouseButton::Left),
                    1 => Some(GuiMouseButton::Right),
                    2 => Some(GuiMouseButton::Middle),
                    3 => Some(GuiMouseButton::Extra1),
                    5 => Some(GuiMouseButton::Extra2),
                    _ => None,
                };
                match b {
                    Some(b) => out.push(GuiInput::MouseButton { button: b, pressed }),
                    None => {},
                }
            },
            GlfwInputEvent::Key { key, action, mods } => {
                self.modifiers = mods;
                let pressed = action == GLFW_PRESS;
                push_opt(&mut out, translate_glfw_key(key), pressed);
                let modifier = if key == 341 || key == 345 {
                    Some(GuiKey::ModCtrl)
                } else if key == 340 || key == 344 {
                    Some(GuiKey::ModShift)
                } else if key == 342 || key == 346 {
                    Some(GuiKey::ModAlt)
                } else if key == 343 || key == 347 {
                    Some(GuiKey::ModSuper)
                } else {
                    None
                };
                push_opt(&mut out, modifier, pressed);
            },
            GlfwInputEvent::Char(c) => {
                if !is_control(c) {
                    out.push(GuiInput::Character(c));
                }
            },
            GlfwInputEvent::Focus(focused) => {
                out.push(GuiInput::FocusLost(!focused));
            },
        }
        out
    }
}

// ---------------------------------------------------------------------------
// winit

/// A physical key of a winit window, named after its position on a US
/// keyboard; `Other` stands for every key the GUI does not know.
#[derive(Clone, Copy, Debug, PartialEq, Eq, Structural)]
pub enum ScanKey {
    Tab,
    ArrowLeft,
    ArrowRight,
    ArrowUp,
    ArrowDown,
    PageUp,
    PageDown,
    Home,
    End,
    Insert,
    Delete,
    Backspace,
    Space,
    Enter,
    Escape,
    Quote,
    Comma,
    Minus,
    Period,
    Slash,
    Semicolon,
    Equal,
    BracketLeft,
    Backslash,
    BracketRight,
    Backquote,
    CapsLock,
    ScrollLock,
    NumLock,
    PrintScreen,
    Pause,
    Numpad0,
    Numpad1,
    Numpad2,
    Numpad3,
    Numpad4,
    Numpad5,
    Numpad6,
    Numpad7,
    Numpad8,
    Numpad9,
    NumpadDecimal,
    NumpadDivide,
    NumpadMultiply,
    NumpadSubtract,
    NumpadAdd,
    NumpadEnter,
    NumpadEqual,
    ControlLeft,
    ShiftLeft,
    AltLeft,
    SuperLeft,
    ControlRight,
    ShiftRight,
    AltRight,
    SuperRight,
    ContextMenu,
    Digit0,
    Digit1,
    Digit2,
    Digit3,
    Digit4,
    Digit5,
    Digit6,
    Digit7,
    Digit8,
    Digit9,
    KeyA,
    KeyB,
    KeyC,
    KeyD,
    KeyE,
    KeyF,
    KeyG,
    KeyH,
    KeyI,
    KeyJ,
    KeyK,
    KeyL,
    KeyM,
    KeyN,
    KeyO,
    KeyP,
    KeyQ,
    KeyR,
    KeyS,
    KeyT,
    KeyU,
    KeyV,
    KeyW,
    KeyX,
    KeyY,
    KeyZ,
    F1,
    F2,
    F3,
    F4,
    F5,
    F6,
    F7,
    F8,
    F9,
    F10,
    F11,
    F12,
    Other,
}

/// A mouse button of a winit window.
#[derive(Clone, Copy, Debug, PartialEq, Eq, Structural)]
pub enum PointerButton {
    Left,
    Right,
    Middle,
    Back,
    Forward,
    Other,
}

/// The modifier keys held, as a winit window reports them.
#[derive(Clone, Copy, Debug, PartialEq, Eq, Structural)]
pub struct ModifierState {
    pub ctrl: bool,
    pub shift: bool,
    pub alt: bool,
    pub logo: bool,
}

/// The GUI key for a physical key, if the GUI has one.
pub open spec fn spec_winit_key(key: ScanKey) -> Option<GuiKey> {
    match key {
        ScanKey::Tab => Some(GuiKey::Tab),
        ScanKey::ArrowLeft => Some(GuiKey::LeftArrow),
        ScanKey::ArrowRight => Some(GuiKey::RightArrow),
        ScanKey::ArrowUp => Some(GuiKey::UpArrow),
        ScanKey::ArrowDown => Some(GuiKey::DownArrow),
        ScanKey::PageUp => Some(GuiKey::PageUp),
        ScanKey::PageDown => Some(GuiKey::PageDown),
        ScanKey::Home => Some(GuiKey::Home),
        ScanKey::End => Some(GuiKey::End),
        ScanKey::Insert => Some(GuiKey::Insert),
        ScanKey::Delete => Some(GuiKey::Delete),
        ScanKey::Backspace => Some(GuiKey::Backspace),
        ScanKey::Space => Some(GuiKey::Space),
        ScanKey::Enter => Some(GuiKey::Enter),
        ScanKey::Escape => Some(GuiKey::Escape),
        ScanKey::Quote => Some(GuiKey::Apostrophe),
        ScanKey::Comma => Some(GuiKey::Comma),
        ScanKey::Minus => Some(GuiKey::Minus),
        ScanKey::Period => Some(GuiKey::Period),
        ScanKey::Slash => Some(GuiKey::Slash),
        ScanKey::Semicolon => Some(GuiKey::Semicolon),
        ScanKey::Equal => Some(GuiKey::Equal),
        ScanKey::BracketLeft => Some(GuiKey::LeftBracket),
        ScanKey::Backslash => Some(GuiKey::Backslash),
        ScanKey::BracketRight => Some(GuiKey::RightBracket),
        ScanKey::Backquote => Some(GuiKey::GraveAccent),
        ScanKey::CapsLock => Some(GuiKey::CapsLock),
        ScanKey::ScrollLock => Some(GuiKey::ScrollLock),
        ScanKey::NumLock => Some(GuiKey::NumLock),
        ScanKey::PrintScreen => Some(GuiKey::PrintScreen),
        ScanKey::Pause => Some(GuiKey::Pause),
        ScanKey::Numpad0 => Some(GuiKey::Keypad0),
        ScanKey::Numpad1 => Some(GuiKey::Keypad1),
        ScanKey::Numpad2 => Some(GuiKey::Keypad2),
        ScanKey::Numpad3 => Some(GuiKey::Keypad3),
        ScanKey::Numpad4 => Some(GuiKey::Keypad4),
        ScanKey::Numpad5 => Some(GuiKey::Keypad5),
        ScanKey::Numpad6 => Some(GuiKey::Keypad6),
        ScanKey::Numpad7 => Some(GuiKey::Keypad7),
        ScanKey::Numpad8 => Some(GuiKey::Keypad8),
        ScanKey::Numpad9 => Some(GuiKey::Keypad9),
        ScanKey::NumpadDecimal => Some(GuiKey::KeypadDecimal),
        ScanKey::NumpadDivide => Some(GuiKey::KeypadDivide),
        ScanKey::NumpadMultiply => Some(GuiKey::KeypadMultiply),
        ScanKey::NumpadSubtract => Some(GuiKey::KeypadSubtract),
        ScanKey::NumpadAdd => Some(GuiKey::KeypadAdd),
        ScanKey::NumpadEnter => Some(GuiKey::KeypadEnter),
        ScanKey::NumpadEqual => Some(GuiKey::KeypadEqual),
        ScanKey::ControlLeft => Some(GuiKey::LeftCtrl),
        ScanKey::ShiftLeft => Some(GuiKey::LeftShift),
        ScanKey::AltLeft => Some(GuiKey::LeftAlt),
        ScanKey::SuperLeft => Some(GuiKey::LeftSuper),
        ScanKey::ControlRight => Some(GuiKey::RightCtrl),
        ScanKey::ShiftRight => Some(GuiKey::RightShift),
        ScanKey::AltRight => Some(GuiKey::RightAlt),
        ScanKey::SuperRight => Some(GuiKey::RightSuper),
        ScanKey::ContextMenu => Some(GuiKey::Menu),
        ScanKey::Digit0 => Some(GuiKey::Alpha0),
        ScanKey::Digit1 => Some(GuiKey::Alpha1),
        ScanKey::Digit2 => Some(GuiKey::Alpha2),
        ScanKey::Digit3 => Some(GuiKey::Alpha3),
        ScanKey::Digit4 => Some(GuiKey::Alpha4),
        ScanKey::Digit5 => Some(GuiKey::Alpha5),
        ScanKey::Digit6 => Some(GuiKey::Alpha6),
        ScanKey::Digit7 => Some(GuiKey::Alpha7),
        ScanKey::Digit8 => Some(GuiKey::Alpha8),
        ScanKey::Digit9 => Some(GuiKey::Alpha9),
        ScanKey::KeyA => Some(GuiKey::A),
        ScanKey::KeyB => Some(GuiKey::B),
        ScanKey::KeyC => Some(GuiKey::C),
        ScanKey::KeyD => Some(GuiKey::D),
        ScanKey::KeyE => Some(GuiKey::E),
        ScanKey::KeyF => Some(GuiKey::F),
        ScanKey::KeyG => Some(GuiKey::G),
        ScanKey::KeyH => Some(GuiKey::H),
        ScanKey::KeyI => Some(GuiKey::I),
        ScanKey::KeyJ => Some(GuiKey::J),
        ScanKey::KeyK => Some(GuiKey::K),
        ScanKey::KeyL => Some(GuiKey::L),
        ScanKey::KeyM => Some(GuiKey::M),
        ScanKey::KeyN => Some(GuiKey::N),
        ScanKey::KeyO => Some(GuiKey::O),
        ScanKey::KeyP => Some(GuiKey::P),
        ScanKey::KeyQ => Some(GuiKey::Q),
        ScanKey::KeyR => Some(GuiKey::R),
        ScanKey::KeyS => Some(GuiKey::S),
        ScanKey::KeyT => Some(GuiKey::T),
        ScanKey::KeyU => Some(GuiKey::U),
        ScanKey::KeyV => Some(GuiKey::V),
        ScanKey::KeyW => Some(GuiKey::W),
        ScanKey::KeyX => Some(GuiKey::X),
        ScanKey::KeyY => Some(GuiKey::Y),
        ScanKey::KeyZ => Some(GuiKey::Z),
        ScanKey::F1 => Some(GuiKey::F1),
        ScanKey::F2 => Some(GuiKey::F2),
        ScanKey::F3 => Some(GuiKey::F3),
        ScanKey::F4 => Some(GuiKey::F4),
        ScanKey::F5 => Some(GuiKey::F5),
        ScanKey::F6 => Some(GuiKey::F6),
        ScanKey::F7 => Some(GuiKey::F7),
        ScanKey::F8 => Some(GuiKey::F8),
        ScanKey::F9 => Some(GuiKey::F9),
        ScanKey::F10 => Some(GuiKey::F10),
        ScanKey::F11 => Some(GuiKey::F11),
        ScanKey::F12 => Some(GuiKey::F12),
        ScanKey::Other => None,
    }
}

/// Translates a physical key of a winit window into the GUI's key.
pub fn translate_winit_key(key: ScanKey) -> (gui: Option<GuiKey>)
    ensures
        gui == spec_winit_key(key),
{
    match key {
        ScanKey::Tab => Some(GuiKey::Tab),
        ScanKey::ArrowLeft => Some(GuiKey::LeftArrow),
        ScanKey::ArrowRight => Some(GuiKey::RightArrow),
        ScanKey::ArrowUp => Some(GuiKey::UpArrow),
        ScanKey::ArrowDown => Some(GuiKey::DownArrow),
        ScanKey::PageUp => Some(GuiKey::PageUp),
        ScanKey::PageDown => Some(GuiKey::PageDown),
        ScanKey::Home => Some(GuiKey::Home),
        ScanKey::End => Some(GuiKey::End),
        ScanKey::Insert => Some(GuiKey::Insert),
        ScanKey::Delete => Some(GuiKey::Delete),
        ScanKey::Backspace => Some(GuiKey::Backspace),
        ScanKey::Space => Some(GuiKey::Space),
        ScanKey::Enter => Some(GuiKey::Enter),
        ScanKey::Escape => Some(GuiKey::Escape),
        ScanKey::Quote => Some(GuiKey::Apostrophe),
        ScanKey::Comma => Some(GuiKey::Comma),
        ScanKey::Minus => Some(GuiKey::Minus),
        ScanKey::Period => Some(GuiKey::Period),
        ScanKey::Slash => Some(GuiKey::Slash),
        ScanKey::Semicolon => Some(GuiKey::Semicolon),
        ScanKey::Equal => Some(GuiKey::Equal),
        ScanKey::BracketLeft => Some(GuiKey::LeftBracket),
        ScanKey::Backslash => Some(GuiKey::Backslash),
        ScanKey::BracketRight => Some(GuiKey::RightBracket),
        ScanKey::Backquote => Some(GuiKey::GraveAccent),
        ScanKey::CapsLock => Some(GuiKey::CapsLock),
        ScanKey::ScrollLock => Some(GuiKey::ScrollLock),
        ScanKey::NumLock => Some(GuiKey::NumLock),
        ScanKey::PrintScreen => Some(GuiKey::PrintScreen),
        ScanKey::Pause => Some(GuiKey::Pause),
        ScanKey::Numpad0 => Some(GuiKey::Keypad0),
        ScanKey::Numpad1 => Some(GuiKey::Keypad1),
        ScanKey::Numpad2 => Some(GuiKey::Keypad2),
        ScanKey::Numpad3 => Some(GuiKey::Keypad3),
        ScanKey::Numpad4 => Some(GuiKey::Keypad4),
        ScanKey::Numpad5 => Some(GuiKey::Keypad5),
        ScanKey::Numpad6 => Some(GuiKey::Keypad6),
        ScanKey::Numpad7 => Some(GuiKey::Keypad7),
        ScanKey::Numpad8 => Some(GuiKey::Keypad8),
        ScanKey::Numpad9 => Some(GuiKey::Keypad9),
        ScanKey::NumpadDecimal => Some(GuiKey::KeypadDecimal),
        ScanKey::NumpadDivide => Some(GuiKey::KeypadDivide),
        ScanKey::NumpadMultiply => Some(GuiKey::KeypadMultiply),
        ScanKey::NumpadSubtract => Some(GuiKey::KeypadSubtract),
        ScanKey::NumpadAdd => Some(GuiKey::KeypadAdd),
        ScanKey::NumpadEnter => Some(GuiKey::KeypadEnter),
        ScanKey::NumpadEqual => Some(GuiKey::KeypadEqual),
        ScanKey::ControlLeft => Some(GuiKey::LeftCtrl),
        ScanKey::ShiftLeft => Some(GuiKey::LeftShift),
        ScanKey::AltLeft => Some(GuiKey::LeftAlt),
        ScanKey::SuperLeft => Some(GuiKey::LeftSuper),
        ScanKey::ControlRight => Some(GuiKey::RightCtrl),
        ScanKey::ShiftRight => Some(GuiKey::RightShift),
        ScanKey::AltRight => Some(GuiKey::RightAlt),
        ScanKey::SuperRight => Some(GuiKey::RightSuper),
        ScanKey::ContextMenu => Some(GuiKey::Menu),
        ScanKey::Digit0 => Some(GuiKey::Alpha0),
        ScanKey::Digit1 => Some(GuiKey::Alpha1),
        ScanKey::Digit2 => Some(GuiKey::Alpha2),
        ScanKey::Digit3 => Some(GuiKey::Alpha3),
        ScanKey::Digit4 => Some(GuiKey::Alpha4),
        ScanKey::Digit5 => Some(GuiKey::Alpha5),
        ScanKey::Digit6 => Some(GuiKey::Alpha6),
        ScanKey::Digit7 => Some(GuiKey::Alpha7),
        ScanKey::Digit8 => Some(GuiKey::Alpha8),
        ScanKey::Digit9 => Some(GuiKey::Alpha9),
        ScanKey::KeyA => Some(GuiKey::A),
        ScanKey::KeyB => Some(GuiKey::B),
        ScanKey::KeyC => Some(GuiKey::C),
        ScanKey::KeyD => Some(GuiKey::D),
        ScanKey::KeyE => Some(GuiKey::E),
        ScanKey::KeyF => Some(GuiKey::F),
        ScanKey::KeyG => Some(GuiKey::G),
        ScanKey::KeyH => Some(GuiKey::H),
        ScanKey::KeyI => Some(GuiKey::I),
        ScanKey::KeyJ => Some(GuiKey::J),
        ScanKey::KeyK => Some(GuiKey::K),
        ScanKey::KeyL => Some(GuiKey::L),
        ScanKey::KeyM => Some(GuiKey::M),
        ScanKey::KeyN => Some(GuiKey::N),
        ScanKey::KeyO => Some(GuiKey::O),
        ScanKey::KeyP => Some(GuiKey::P),
        ScanKey::KeyQ => Some(GuiKey::Q),
        ScanKey::KeyR => Some(GuiKey::R),
        ScanKey::KeyS => Some(GuiKey::S),
        ScanKey::KeyT => Some(GuiKey::T),
        ScanKey::KeyU => Some(GuiKey::U),
        ScanKey::KeyV => Some(GuiKey::V),
        ScanKey::KeyW => Some(GuiKey::W),
        ScanKey::KeyX => Some(GuiKey::X),
        ScanKey::KeyY => Some(GuiKey::Y),
        ScanKey::KeyZ => Some(GuiKey::Z),
        ScanKey::F1 => Some(GuiKey::F1),
        ScanKey::F2 => Some(GuiKey::F2),
        ScanKey::F3 => Some(GuiKey::F3),
        ScanKey::F4 => Some(GuiKey::F4),
        ScanKey::F5 => Some(GuiKey::F5),
        ScanKey::F6 => Some(GuiKey::F6),
        ScanKey::F7 => Some(GuiKey::F7),
        ScanKey::F8 => Some(GuiKey::F8),
        ScanKey::F9 => Some(GuiKey::F9),
        ScanKey::F10 => Some(GuiKey::F10),
        ScanKey::F11 => Some(GuiKey::F11),
        ScanKey::F12 => Some(GuiKey::F12),
        ScanKey::Other => None,
    }
}

/// The modifier that a physical modifier key stands for.
pub open spec fn spec_winit_modifier(key: ScanKey) -> Option<GuiKey> {
    match key {
        ScanKey::ControlLeft | ScanKey::ControlRight => Some(GuiKey::ModCtrl),
        ScanKey::ShiftLeft | ScanKey::ShiftRight => Some(GuiKey::ModShift),
        ScanKey::AltLeft | ScanKey::AltRight => Some(GuiKey::ModAlt),
        ScanKey::SuperLeft | ScanKey::SuperRight => Some(GuiKey::ModSuper),
        _ => None,
    }
}

pub open spec fn spec_pointer_button(button: PointerButton) -> Option<GuiMouseButton> {
    match button {
        PointerButton::Left => Some(GuiMouseButton::Left),
        PointerButton::Right => Some(GuiMouseButton::Right),
        PointerButton::Middle => Some(GuiMouseButton::Middle),
        PointerButton::Back => Some(GuiMouseButton::Extra1),
        PointerButton::Forward => Some(GuiMouseButton::Extra2),
        PointerButton::Other => None,
    }
}

/// An input event of a winit window.
pub enum WinitInputEvent {
    MouseInput { pressed: bool, button: PointerButton },
    /// `key` is `None` when winit could not name the physical key; `text`
    /// is what the key typed, if anything.
    KeyboardInput { pressed: bool, key: Option<ScanKey>, text: Option<Vec<char>> },
    ModifiersChanged(ModifierState),
    Focused(bool),
}

/// The characters of `text` that are not control characters, as GUI events.
pub open spec fn printable_inputs(text: Seq<char>) -> Seq<GuiInput>
    decreases text.len(),
{
    if text.len() == 0 {
        Seq::empty()
    } else if is_control_char(text.last()) {
        printable_inputs(text.drop_last())
    } else {
        printable_inputs(text.drop_last()).push(GuiInput::Character(text.last()))
    }
}

/// The GUI events for a winit input event.
pub open spec fn spec_winit_inputs(event: &WinitInputEvent) -> Seq<GuiInput> {
    match event {
        WinitInputEvent::MouseInput { pressed, button } => match spec_pointer_button(*button) {
            Some(b) => seq![GuiInput::MouseButton { button: b, pressed: *pressed }],
            None => Seq::empty(),
        },
        WinitInputEvent::KeyboardInput { pressed, key, text } => {
            let key_events = match key {
                Some(k) => opt_event(spec_winit_key(*k), *pressed) + opt_event(spec_winit_modifier(*k), *pressed),
                None => Seq::empty(),
            };
            let text_events = match text {
                Some(t) => if *pressed { printable_inputs(t@) } else { Seq::empty() },
                None => Seq::empty(),
            };
            key_events + text_events
        },
        WinitInputEvent::ModifiersChanged(m) => seq![
            GuiInput::Key { key: GuiKey::ModCtrl, pressed: m.ctrl },
            GuiInput::Key { key: GuiKey::ModShift, pressed: m.shift },
            GuiInput::Key { key: GuiKey::ModAlt, pressed: m.alt },
            GuiInput::Key { key: GuiKey::ModSuper, pressed: m.logo },
        ],
        WinitInputEvent::Focused(focused) => seq![GuiInput::FocusLost(!*focused)],
    }
}

/// The input state that a winit window keeps for the GUI: the modifiers
/// last reported.
pub struct WinitInputState {
    modifiers: ModifierState,
}

impl WinitInputState {
    pub closed spec fn spec_modifiers(&self) -> ModifierState {
        self.modifiers
    }

    /// No modifier held.
    pub fn new() -> (s: WinitInputState)
        ensures
            s.spec_modifiers() == (ModifierState { ctrl: false, shift: false, alt: false, logo: false }),
    {
        WinitInputState { modifiers: ModifierState { ctrl: false, shift: false, alt: false, logo: false } }
    }

    /// The modifiers last reported.
    pub fn modifiers(&self) -> (m: ModifierState)
        ensures
            m == self.spec_modifiers(),
    {
        self.modifiers
    }

    /// The GUI events for an input event of the window, in the order in
    /// which the GUI receives them; a change of modifiers is also recorded.
    pub fn handle_event(&mut self, event: &WinitInputEvent) -> (inputs: Vec<GuiInput>)
        ensures
            inputs@ == spec_winit_inputs(event),
            final(self).spec_modifiers() == match event {
                WinitInputEvent::ModifiersChanged(m) => *m,
                _ => old(self).spec_modifiers(),
            },
    {
        let mut out: Vec<GuiInput> = Vec::new();
        match event {
            WinitInputEvent::MouseInput { pressed, button } => {
                let b = match button {
                    PointerButton::Left => Some(GuiMouseButton::Left),
                    PointerButton::Right => Some(GuiMouseButton::Right),
                    PointerButton::Middle => Some(GuiMouseButton::Middle),
                    PointerButton::Back => Some(GuiMouseButton::Extra1),
                    PointerButton::Forward => Some(GuiMouseButton::Extra2),
                    PointerButton::Other => None,
                };
                match b {
                    Some(b) => out.push(GuiInput::MouseButton { button: b, pressed: *pressed }),
                    None => {},
                }
            },
            WinitInputEvent::KeyboardInput { pressed, key, text } => {
                let pressed = *pressed;
                match key {
                    Some(k) => {
                        let k = *k;
                        push_opt(&mut out, translate_winit_key(k), pressed);
                        let modifier = match k {
                            ScanKey::ControlLeft | ScanKey::ControlRight => Some(GuiKey::ModCtrl),
                            ScanKey::ShiftLeft | ScanKey::ShiftRight => Some(GuiKey::ModShift),
                            ScanKey::AltLeft | ScanKey::AltRight => Some(GuiKey::ModAlt),
                            ScanKey::SuperLeft | ScanKey::SuperRight => Some(GuiKey::ModSuper),
                            _ => None,
                        };
                        push_opt(&mut out, modifier, pressed);
                    },
                    None => {},
                }
                if pressed {
                    match text {
                        Some(t) => push_printable(&mut out, t),
                        None => {},
                    }
                }
            },
            WinitInputEvent::ModifiersChanged(m) => {
                self.modifiers = *m;
                out.push(GuiInput::Key { key: GuiKey::ModCtrl, pressed: m.ctrl });
                out.push(GuiInput::Key { key: GuiKey::ModShift, pressed: m.shift });
                out.push(GuiInput::Key { key: GuiKey::ModAlt, pressed: m.alt });
                out.push(GuiInput::Key { key: GuiKey::ModSuper, pressed: m.logo });
            },
            WinitInputEvent::Focused(focused) => {
                out.push(GuiInput::FocusLost(!*focused));
            },
        }
        out
    }
}

/// One more character of `text` handled: the events so far grow by that
/// character's event, if it has one.
proof fn lemma_printable_step(
    start: Seq<GuiInput>,
    text: Seq<char>,
    i: int,
    c: char,
    before: Seq<GuiInput>,
    after: Seq<GuiInput>,
)
    requires
        0 <= i < text.len(),
        text[i] == c,
        before == start + printable_inputs(text.take(i)),
        is_control_char(c) ==> after == before,
        !is_control_char(c) ==> after == before.push(GuiInput::Character(c)),
    ensures
        after == start + printable_inputs(text.take(i + 1)),
{
    let q = text.take(i + 1);
    assert(q =~= text.take(i).push(c));
    lemma_printable_push(text.take(i), c);
    if !is_control_char(c) {
        lemma_push_after_concat(start, printable_inputs(text.take(i)), GuiInput::Character(c));
    }
}

proof fn lemma_push_after_concat(a: Seq<GuiInput>, b: Seq<GuiInput>, x: GuiInput)
    ensures
        (a + b).push(x) == a + b.push(x),
{
    assert((a + b).push(x) =~= a + b.push(x));
}

proof fn lemma_printable_push(s: Seq<char>, c: char)
    ensures
        is_control_char(c) ==> printable_inputs(s.push(c)) == printable_inputs(s),
        !is_control_char(c) ==> printable_inputs(s.push(c)) == printable_inputs(s).push(GuiInput::Character(c)),
{
    assert(s.push(c).drop_last() =~= s);
}

fn push_printable(out: &mut Vec<GuiInput>, text: &Vec<char>)
    ensures
        final(out)@ == old(out)@ + printable_inputs(text@),
{
    let ghost start = out@;
    let mut i: usize = 0;
    while i < text.len()
        invariant
            i <= text.len(),
            out@ == start + printable_inputs(text@.take(i as int)),
        decreases text.len() - i,
    {
        let c = text[i];
        let ghost before = out@;
        if !is_control(c) {
            out.push(GuiInput::Character(c));
        }
        proof {
            lemma_printable_step(start, text@, i as int, c, before, out@);
        }
        i = i + 1;
    }
    assert(text@.take(text.len() as int) =~= text@);
}

/// Whether `key` is one of the modifier states rather than a key of its own.
pub open spec fn is_modifier_state(key: GuiKey) -> bool {
    key == GuiKey::ModCtrl || key == GuiKey::ModShift || key == GuiKey::ModAlt || key == GuiKey::ModSuper
}

/// Whether no event of `inputs` hands the GUI a control character.
pub open spec fn no_control_text(inputs: Seq<GuiInput>) -> bool {
    forall|k: int| 0 <= k < inputs.len() ==> match #[trigger] inputs[k] {
        GuiInput::Character(c) => !is_control_char(c),
        _ => true,
    }
}

/// Key translation never yields a modifier state: those are only reported
/// for the modifier keys, after the key itself.
pub proof fn lemma_translation_yields_plain_keys(code: i32, key: ScanKey)
    ensures
        spec_glfw_key(code) matches Some(k) ==> !is_modifier_state(k),
        spec_winit_key(key) matches Some(k) ==> !is_modifier_state(k),
{
}

/// A modifier key is reported twice, as the key itself and as the modifier
/// state, both with the key's pressed state; any other key at most once.
pub proof fn lemma_modifier_keys_report_both(code: i32, action: i32, mods: i32, key: ScanKey, pressed: bool)
    ensures
        ({
            let inputs = spec_glfw_inputs(GlfwInputEvent::Key { key: code, action, mods });
            &&& spec_glfw_modifier(code) matches Some(m) ==> inputs.len() == 2
                && inputs[0] == (GuiInput::Key { key: spec_glfw_key(code)->0, pressed: action == GLFW_PRESS })
                && inputs[1] == (GuiInput::Key { key: m, pressed: action == GLFW_PRESS })
            &&& spec_glfw_modifier(code) is None ==> inputs.len() <= 1
        }),
        ({
            let inputs = spec_winit_inputs(&WinitInputEvent::KeyboardInput { pressed, key: Some(key), text: None });
            &&& spec_winit_modifier(key) matches Some(m) ==> inputs.len() == 2
                && inputs[0] == (GuiInput::Key { key: spec_winit_key(key)->0, pressed })
                && inputs[1] == (GuiInput::Key { key: m, pressed })
            &&& spec_winit_modifier(key) is None ==> inputs.len() <= 1
        }),
{
}

proof fn lemma_printable_has_no_control(text: Seq<char>)
    ensures
        no_control_text(printable_inputs(text)),
    decreases text.len(),
{
    if text.len() > 0 {
        lemma_printable_has_no_control(text.drop_last());
        assert(text =~= text.drop_last().push(text.last()));
        lemma_no_control_push(text.drop_last(), text.last());
    }
}

proof fn lemma_no_control_push(s: Seq<char>, c: char)
    requires
        no_control_text(printable_inputs(s)),
    ensures
        no_control_text(printable_inputs(s.push(c))),
{
    lemma_printable_push(s, c);
    let p = printable_inputs(s);
    if !is_control_char(c) {
        let q = p.push(GuiInput::Character(c));
        assert forall|k: int| 0 <= k < q.len() implies match #[trigger] q[k] {
            GuiInput::Character(d) => !is_control_char(d),
            _ => true,
        } by {
            if k < p.len() {
                assert(q[k] == p[k]);
            }
        }
    }
}

/// Control characters never reach the GUI as text, whichever back end and
/// whatever the event.
pub proof fn lemma_no_control_characters(glfw_event: GlfwInputEvent, winit_event: WinitInputEvent)
    ensures
        no_control_text(spec_glfw_inputs(glfw_event)),
        no_control_text(spec_winit_inputs(&winit_event)),
{
    match &winit_event {
        WinitInputEvent::KeyboardInput { pressed, key, text } => {
            match text {
                Some(t) => lemma_printable_has_no_control(t@),
                None => {},
            }
            let key_events = match key {
                Some(k) => opt_event(spec_winit_key(*k), *pressed) + opt_event(spec_winit_modifier(*k), *pressed),
                None => Seq::empty(),
            };
            let text_events = match text {
                Some(t) => if *pressed { printable_inputs(t@) } else { Seq::empty() },
                None => Seq::empty(),
            };
            assert forall|k: int| 0 <= k < key_events.len() implies !(#[trigger] key_events[k] is Character) by {
            }
            let all = key_events + text_events;
            assert forall|k: int| 0 <= k < all.len() implies match #[trigger] all[k] {
                GuiInput::Character(c) => !is_control_char(c),
                _ => true,
            } by {
                if k >= key_events.len() {
                    assert(all[k] == text_events[k - key_events.len()]);
                }
            }
        },
        _ => {},
    }
}

/// The GLFW key code (`GLFW_KEY_*`) of the physical key that winit calls `key`.
pub open spec fn glfw_code_of(key: ScanKey) -> Option<i32> {
    match key {
        ScanKey::Tab => Some(258),
        ScanKey::ArrowLeft => Some(263),
        ScanKey::ArrowRight => Some(262),
        ScanKey::ArrowUp => Some(265),
        ScanKey::ArrowDown => Some(264),
        ScanKey::PageUp => Some(266),
        ScanKey::PageDown => Some(267),
        ScanKey::Home => Some(268),
        ScanKey::End => Some(269),
        ScanKey::Insert => Some(260),
        ScanKey::Delete => Some(261),
        ScanKey::Backspace => Some(259),
        ScanKey::Space => Some(32),
        ScanKey::Enter => Some(257),
        ScanKey::Escape => Some(256),
        ScanKey::Quote => Some(39),
        ScanKey::Comma => Some(44),
        ScanKey::Minus => Some(45),
        ScanKey::Period => Some(46),
        ScanKey::Slash => Some(47),
        ScanKey::Semicolon => Some(59),
        ScanKey::Equal => Some(61),
        ScanKey::BracketLeft => Some(91),
        ScanKey::Backslash => Some(92),
        ScanKey::BracketRight => Some(93),
        ScanKey::Backquote => Some(96),
        ScanKey::CapsLock => Some(280),
        ScanKey::ScrollLock => Some(281),
        ScanKey::NumLock => Some(282),
        ScanKey::PrintScreen => Some(283),
        ScanKey::Pause => Some(284),
        ScanKey::Numpad0 => Some(320),
        ScanKey::Numpad1 => Some(321),
        ScanKey::Numpad2 => Some(322),
        ScanKey::Numpad3 => Some(323),
        ScanKey::Numpad4 => Some(324),
        ScanKey::Numpad5 => Some(325),
        ScanKey::Numpad6 => Some(326),
        ScanKey::Numpad7 => Some(327),
        ScanKey::Numpad8 => Some(328),
        ScanKey::Numpad9 => Some(329),
        ScanKey::NumpadDecimal => Some(330),
        ScanKey::NumpadDivide => Some(331),
        ScanKey::NumpadMultiply => Some(332),
        ScanKey::NumpadSubtract => Some(333),
        ScanKey::NumpadAdd => Some(334),
        ScanKey::NumpadEnter => Some(335),
        ScanKey::NumpadEqual => Some(336),
        ScanKey::ControlLeft => Some(341),
        ScanKey::ShiftLeft => Some(340),
        ScanKey::AltLeft => Some(342),
        ScanKey::SuperLeft => Some(343),
        ScanKey::ControlRight => Some(345),
        ScanKey::ShiftRight => Some(344),
        ScanKey::AltRight => Some(346),
        ScanKey::SuperRight => Some(347),
        ScanKey::ContextMenu => Some(348),
        ScanKey::Digit0 => Some(48),
        ScanKey::Digit1 => Some(49),
        ScanKey::Digit2 => Some(50),
        ScanKey::Digit3 => Some(51),
        ScanKey::Digit4 => Some(52),
        ScanKey::Digit5 => Some(53),
        ScanKey::Digit6 => Some(54),
        ScanKey::Digit7 => Some(55),
        ScanKey::Digit8 => Some(56),
        ScanKey::Digit9 => Some(57),
        ScanKey::KeyA => Some(65),
        ScanKey::KeyB => Some(66),
        ScanKey::KeyC => Some(67),
        ScanKey::KeyD => Some(68),
        ScanKey::KeyE => Some(69),
        ScanKey::KeyF => Some(70),
        ScanKey::KeyG => Some(71),
        ScanKey::KeyH => Some(72),
        ScanKey::KeyI => Some(73),
        ScanKey::KeyJ => Some(74),
        ScanKey::KeyK => Some(75),
        ScanKey::KeyL => Some(76),
        ScanKey::KeyM => Some(77),
        ScanKey::KeyN => Some(78),
        ScanKey::KeyO => Some(79),
        ScanKey::KeyP => Some(80),
        ScanKey::KeyQ => Some(81),
        ScanKey::KeyR => Some(82),
        ScanKey::KeyS => Some(83),
        ScanKey::KeyT => Some(84),
        ScanKey::KeyU => Some(85),
        ScanKey::KeyV => Some(86),
        ScanKey::KeyW => Some(87),
        ScanKey::KeyX => Some(88),
        ScanKey::KeyY => Some(89),
        ScanKey::KeyZ => Some(90),
        ScanKey::F1 => Some(290),
        ScanKey::F2 => Some(291),
        ScanKey::F3 => Some(292),
        ScanKey::F4 => Some(293),
        ScanKey::F5 => Some(294),
        ScanKey::F6 => Some(295),
        ScanKey::F7 => Some(296),
        ScanKey::F8 => Some(297),
        ScanKey::F9 => Some(298),
        ScanKey::F10 => Some(299),
        ScanKey::F11 => Some(300),
        ScanKey::F12 => Some(301),
        ScanKey::Other => None,
    }
}

/// Whether `key` is a keypad digit or the keypad's equals sign, the keys on
/// which the two back ends part (see `lemma_backends_part_on_keypad`).
pub open spec fn keypad_digit_or_equal(key: ScanKey) -> bool {
    match key {
        ScanKey::Numpad0 | ScanKey::Numpad1 | ScanKey::Numpad2 | ScanKey::Numpad3 | ScanKey::Numpad4
        | ScanKey::Numpad5 | ScanKey::Numpad6 | ScanKey::Numpad7 | ScanKey::Numpad8 | ScanKey::Numpad9
        | ScanKey::NumpadEqual => true,
        _ => false,
    }
}

/// Both back ends hand the GUI the same key for the same physical key, and
/// the same modifier: a key reaches the GUI alike whichever window it was
/// pressed in.  (The keypad digits and the keypad's equals sign are the
/// exceptions, see `lemma_backends_part_on_keypad`.)
pub proof fn lemma_backends_agree_on_keys(key: ScanKey)
    ensures
        glfw_code_of(key) matches Some(code) ==> {
            &&& !keypad_digit_or_equal(key) ==> spec_glfw_key(code) == spec_winit_key(key)
            &&& spec_glfw_modifier(code) == spec_winit_modifier(key)
        },
{
}

/// On the keypad the back ends part: the GLFW window passes no keypad digit
/// on and reports the keypad's equals sign as the main equals key, while
/// the winit window passes them on as keypad keys.
pub proof fn lemma_backends_part_on_keypad(key: ScanKey)
    requires
        keypad_digit_or_equal(key),
    ensures
        key == ScanKey::NumpadEqual ==> spec_glfw_key(glfw_code_of(key)->0) == Some(GuiKey::Equal)
            && spec_winit_key(key) == Some(GuiKey::KeypadEqual),
        key != ScanKey::NumpadEqual ==> spec_glfw_key(glfw_code_of(key)->0) is None
            && spec_winit_key(key) is Some,
{
}

/// The GLFW button code (`GLFW_MOUSE_BUTTON_*`, counted from 0) of a winit
/// mouse button: left, right and middle are buttons 1 to 3, back and forward
/// buttons 4 and 5.
pub open spec fn glfw_button_of(button: PointerButton) -> Option<i32> {
    match button {
        PointerButton::Left => Some(0),
        PointerButton::Right => Some(1),
        PointerButton::Middle => Some(2),
        PointerButton::Back => Some(3),
        PointerButton::Forward => Some(4),
        PointerButton::Other => None,
    }
}

/// Left, right, middle and back buttons reach the GUI as the same button
/// from either back end, and no two winit buttons are taken for one GUI
/// button.  (The forward button is the exception: winit passes it on as the
/// second extra button, which GLFW takes from its sixth button, and GLFW's
/// fifth button is not passed on.)
pub proof fn lemma_backends_agree_on_buttons(a: PointerButton, b: PointerButton)
    ensures
        a != PointerButton::Forward && a != PointerButton::Other
            ==> spec_glfw_mouse_button(glfw_button_of(a)->0) == spec_pointer_button(a),
        spec_pointer_button(a) is Some && spec_pointer_button(a) == spec_pointer_button(b) ==> a == b,
        spec_pointer_button(PointerButton::Forward) == spec_glfw_mouse_button(5),
        spec_glfw_mouse_button(4) is None,
{
}

} // verus!
