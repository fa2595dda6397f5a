use turbofish::keyboard::{CapsLockSensitive, KeyCode, KeySymb, KeyboardDriver, Ps2Controler};

#[test]
fn scancodes_are_assembled() {
    let mut ps2 = Ps2Controler::new();
    assert_eq!(ps2.read_scancode(0x1e), Some(0x1e));
    assert_eq!(ps2.read_scancode(0xe0), None);
    assert_eq!(ps2.read_scancode(0x48), Some(0xe048));
    assert_eq!(ps2.read_scancode(0xe0), None);
    assert_eq!(ps2.read_scancode(0xf0), None);
    assert_eq!(ps2.read_scancode(0x48), Some(0xe0f048));
}

#[test]
fn keycodes_of_scancodes() {
    assert_eq!(KeyCode::from_scancode(0x1e), Some(KeyCode::Pressed(0x1e)));
    assert_eq!(KeyCode::from_scancode(0x9e), Some(KeyCode::Released(0x1e)));
    assert_eq!(KeyCode::from_scancode(0x59), None);
    assert_eq!(KeyCode::from_scancode(0x0), None);
    assert!(matches!(KeyCode::from_scancode(0xe048), Some(KeyCode::Pressed(_))));
    assert!(matches!(KeyCode::from_scancode(0xe0c8), Some(KeyCode::Released(_))));
    assert_eq!(KeyCode::from_scancode(0xe0ee), None);
}

fn keymap() -> Vec<Vec<CapsLockSensitive>> {
    let mut m = vec![vec![CapsLockSensitive::No(KeySymb::Symbol(0)); 16]; 4];
    m[1] = vec![CapsLockSensitive::No(KeySymb::Shift); 16];
    m[2] = vec![CapsLockSensitive::No(KeySymb::CtrlLLock); 16];
    m[3] = (0..16).map(|i| CapsLockSensitive::Yes(KeySymb::Symbol(0x61 + i))).collect();
    m
}

#[test]
fn modifiers_and_caps_lock() {
    let map = keymap();
    let mut k = KeyboardDriver::new();
    assert_eq!(k.keycode_to_keymap(KeyCode::Pressed(3), &map), Some(KeySymb::Symbol(0x61)));
    assert_eq!(k.keycode_to_keymap(KeyCode::Pressed(1), &map), None);
    assert_eq!(k.keycode_to_keymap(KeyCode::Pressed(3), &map), Some(KeySymb::Symbol(0x62)));
    assert_eq!(k.keycode_to_keymap(KeyCode::Released(1), &map), None);
    assert_eq!(k.keycode_to_keymap(KeyCode::Pressed(3), &map), Some(KeySymb::Symbol(0x61)));
    assert_eq!(k.keycode_to_keymap(KeyCode::Pressed(2), &map), None);
    assert_eq!(k.keycode_to_keymap(KeyCode::Pressed(3), &map), Some(KeySymb::Symbol(0x62)));
    assert_eq!(k.keycode_to_keymap(KeyCode::Released(3), &map), None);
}
