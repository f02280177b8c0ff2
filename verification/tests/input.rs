use nova_ge::input::{
    is_control, translate_glfw_key, translate_winit_key, GlfwInputEvent, GlfwInputState, GuiInput,
    GuiKey, GuiMouseButton, ModifierState, PointerButton, ScanKey, WinitInputEvent,
    WinitInputState, GLFW_PRESS,
};

const GLFW_RELEASE: i32 = 0;
const GLFW_REPEAT: i32 = 2;

#[test]
fn glfw_key_table() {
    assert_eq!(translate_glfw_key(32), Some(GuiKey::Space));
    assert_eq!(translate_glfw_key(48), Some(GuiKey::Alpha0));
    assert_eq!(translate_glfw_key(57), Some(GuiKey::Alpha9));
    assert_eq!(translate_glfw_key(65), Some(GuiKey::A));
    assert_eq!(translate_glfw_key(90), Some(GuiKey::Z));
    assert_eq!(translate_glfw_key(256), Some(GuiKey::Escape));
    assert_eq!(translate_glfw_key(262), Some(GuiKey::RightArrow));
    assert_eq!(translate_glfw_key(263), Some(GuiKey::LeftArrow));
    assert_eq!(translate_glfw_key(290), Some(GuiKey::F1));
    assert_eq!(translate_glfw_key(301), Some(GuiKey::F12));
    assert_eq!(translate_glfw_key(336), Some(GuiKey::Equal));
    assert_eq!(translate_glfw_key(341), Some(GuiKey::LeftCtrl));
    assert_eq!(translate_glfw_key(348), Some(GuiKey::Menu));
    // F13, keypad digits, world keys and unknown codes have no GUI key
    assert_eq!(translate_glfw_key(302), None);
    assert_eq!(translate_glfw_key(320), None);
    assert_eq!(translate_glfw_key(161), None);
    assert_eq!(translate_glfw_key(-1), None);
}

#[test]
fn glfw_key_codes_match_the_glfw_crate_values() {
    // GLFW_KEY_* values as defined by GLFW 3
    assert_eq!(translate_glfw_key(39), Some(GuiKey::Apostrophe));
    assert_eq!(translate_glfw_key(96), Some(GuiKey::GraveAccent));
    assert_eq!(translate_glfw_key(280), Some(GuiKey::CapsLock));
    assert_eq!(translate_glfw_key(335), Some(GuiKey::KeypadEnter));
}

#[test]
fn glfw_modifier_key_reports_key_and_modifier() {
    let mut st = GlfwInputState::new();
    assert_eq!(
        st.handle_event(GlfwInputEvent::Key { key: 345, action: GLFW_PRESS, mods: 2 }),
        vec![
            GuiInput::Key { key: GuiKey::RightCtrl, pressed: true },
            GuiInput::Key { key: GuiKey::ModCtrl, pressed: true }
        ]
    );
    assert_eq!(st.modifiers(), 2);
    assert_eq!(
        st.handle_event(GlfwInputEvent::Key { key: 340, action: GLFW_RELEASE, mods: 0 }),
        vec![
            GuiInput::Key { key: GuiKey::LeftShift, pressed: false },
            GuiInput::Key { key: GuiKey::ModShift, pressed: false }
        ]
    );
    assert_eq!(st.modifiers(), 0);
}

#[test]
fn glfw_plain_keys_and_repeats() {
    let mut st = GlfwInputState::new();
    assert_eq!(
        st.handle_event(GlfwInputEvent::Key { key: 65, action: GLFW_PRESS, mods: 1 }),
        vec![GuiInput::Key { key: GuiKey::A, pressed: true }]
    );
    // a repeat is not a press
    assert_eq!(
        st.handle_event(GlfwInputEvent::Key { key: 65, action: GLFW_REPEAT, mods: 1 }),
        vec![GuiInput::Key { key: GuiKey::A, pressed: false }]
    );
    assert_eq!(st.handle_event(GlfwInputEvent::Key { key: 161, action: GLFW_PRESS, mods: 4 }), vec![]);
    assert_eq!(st.modifiers(), 4);
}

#[test]
fn glfw_mouse_buttons() {
    let mut st = GlfwInputState::new();
    let press = |st: &mut GlfwInputState, b: i32| st.handle_event(GlfwInputEvent::MouseButton { button: b, action: GLFW_PRESS });
    assert_eq!(press(&mut st, 0), vec![GuiInput::MouseButton { button: GuiMouseButton::Left, pressed: true }]);
    assert_eq!(press(&mut st, 1), vec![GuiInput::MouseButton { button: GuiMouseButton::Right, pressed: true }]);
    assert_eq!(press(&mut st, 2), vec![GuiInput::MouseButton { button: GuiMouseButton::Middle, pressed: true }]);
    assert_eq!(press(&mut st, 3), vec![GuiInput::MouseButton { button: GuiMouseButton::Extra1, pressed: true }]);
    assert_eq!(press(&mut st, 4), vec![]);
    assert_eq!(press(&mut st, 5), vec![GuiInput::MouseButton { button: GuiMouseButton::Extra2, pressed: true }]);
    assert_eq!(press(&mut st, 7), vec![]);
    assert_eq!(
        st.handle_event(GlfwInputEvent::MouseButton { button: 0, action: GLFW_RELEASE }),
        vec![GuiInput::MouseButton { button: GuiMouseButton::Left, pressed: false }]
    );
}

#[test]
fn glfw_characters_and_focus() {
    let mut st = GlfwInputState::new();
    assert_eq!(st.handle_event(GlfwInputEvent::Char('é')), vec![GuiInput::Character('é')]);
    assert_eq!(st.handle_event(GlfwInputEvent::Char('\n')), vec![]);
    assert_eq!(st.handle_event(GlfwInputEvent::Char('\u{7f}')), vec![]);
    assert_eq!(st.handle_event(GlfwInputEvent::Focus(false)), vec![GuiInput::FocusLost(true)]);
    assert_eq!(st.handle_event(GlfwInputEvent::Focus(true)), vec![GuiInput::FocusLost(false)]);
    assert_eq!(st.modifiers(), 0);
}

#[test]
fn control_characters_match_std() {
    for c in ['\0', '\t', '\u{1f}', ' ', 'a', '\u{7f}', '\u{80}', '\u{9f}', '\u{a0}', '€', '\u{10ffff}'] {
        assert_eq!(is_control(c), c.is_control(), "{:?}", c);
    }
}

#[test]
fn winit_key_table() {
    assert_eq!(translate_winit_key(ScanKey::KeyA), Some(GuiKey::A));
    assert_eq!(translate_winit_key(ScanKey::Digit5), Some(GuiKey::Alpha5));
    assert_eq!(translate_winit_key(ScanKey::Numpad5), Some(GuiKey::Keypad5));
    assert_eq!(translate_winit_key(ScanKey::NumpadEqual), Some(GuiKey::KeypadEqual));
    assert_eq!(translate_winit_key(ScanKey::Quote), Some(GuiKey::Apostrophe));
    assert_eq!(translate_winit_key(ScanKey::ContextMenu), Some(GuiKey::Menu));
    assert_eq!(translate_winit_key(ScanKey::ArrowUp), Some(GuiKey::UpArrow));
    assert_eq!(translate_winit_key(ScanKey::Other), None);
}

#[test]
fn winit_keyboard_with_text() {
    let mut st = WinitInputState::new();
    let ev = WinitInputEvent::KeyboardInput {
        pressed: true,
        key: Some(ScanKey::KeyQ),
        text: Some(vec!['q', '\u{8}', 'ü']),
    };
    assert_eq!(
        st.handle_event(&ev),
        vec![
            GuiInput::Key { key: GuiKey::Q, pressed: true },
            GuiInput::Character('q'),
            GuiInput::Character('ü')
        ]
    );
    let ev = WinitInputEvent::KeyboardInput { pressed: false, key: Some(ScanKey::KeyQ), text: Some(vec!['q']) };
    assert_eq!(st.handle_event(&ev), vec![GuiInput::Key { key: GuiKey::Q, pressed: false }]);
    let ev = WinitInputEvent::KeyboardInput { pressed: true, key: None, text: Some(vec!['x']) };
    assert_eq!(st.handle_event(&ev), vec![GuiInput::Character('x')]);
}

#[test]
fn winit_modifier_keys() {
    let mut st = WinitInputState::new();
    let ev = WinitInputEvent::KeyboardInput { pressed: true, key: Some(ScanKey::SuperRight), text: None };
    assert_eq!(
        st.handle_event(&ev),
        vec![
            GuiInput::Key { key: GuiKey::RightSuper, pressed: true },
            GuiInput::Key { key: GuiKey::ModSuper, pressed: true }
        ]
    );
    let m = ModifierState { ctrl: true, shift: false, alt: true, logo: false };
    assert_eq!(
        st.handle_event(&WinitInputEvent::ModifiersChanged(m)),
        vec![
            GuiInput::Key { key: GuiKey::ModCtrl, pressed: true },
            GuiInput::Key { key: GuiKey::ModShift, pressed: false },
            GuiInput::Key { key: GuiKey::ModAlt, pressed: true },
            GuiInput::Key { key: GuiKey::ModSuper, pressed: false }
        ]
    );
    assert_eq!(st.modifiers(), m);
}

#[test]
fn winit_mouse_and_focus() {
    let mut st = WinitInputState::new();
    assert_eq!(
        st.handle_event(&WinitInputEvent::MouseInput { pressed: true, button: PointerButton::Back }),
        vec![GuiInput::MouseButton { button: GuiMouseButton::Extra1, pressed: true }]
    );
    assert_eq!(
        st.handle_event(&WinitInputEvent::MouseInput { pressed: false, button: PointerButton::Forward }),
        vec![GuiInput::MouseButton { button: GuiMouseButton::Extra2, pressed: false }]
    );
    assert_eq!(st.handle_event(&WinitInputEvent::MouseInput { pressed: true, button: PointerButton::Other }), vec![]);
    assert_eq!(st.handle_event(&WinitInputEvent::Focused(false)), vec![GuiInput::FocusLost(true)]);
    assert_eq!(st.modifiers(), ModifierState { ctrl: false, shift: false, alt: false, logo: false });
}
