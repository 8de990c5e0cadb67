use scene_engine::io::{Input, Keyboard, KeyboardKey, Mouse, MouseButton};

#[test]
fn mouse_button_mask_bits() {
    let m = Mouse::new(0b0000_0101, 3, -4);
    assert!(m.is_down(MouseButton::PRIMARY));
    assert!(!m.is_down(MouseButton::SECONDARY));
    assert!(m.is_down(MouseButton::AUXILIARY));
    assert!(!m.is_down(MouseButton::FORTH));
    assert!(!m.is_down(MouseButton::FIFTH));
    assert!(m.is_up(MouseButton::FIFTH));
    assert_eq!(m.get_dx(), 3);
    assert_eq!(m.get_dy(), -4);
}

#[test]
fn idle_mouse_is_up_everywhere() {
    let m = Mouse::default();
    assert!(m.is_up(MouseButton::PRIMARY));
    assert!(m.is_up(MouseButton::SECONDARY));
    assert_eq!(m.get_dx(), 0);
    assert_eq!(m.get_dy(), 0);
}

#[test]
fn keyboard_reports_held_keys() {
    let mut k = Keyboard::default();
    assert!(!k.is_down(KeyboardKey::FORWARD));
    k.forward = true;
    k.down = true;
    assert!(k.is_down(KeyboardKey::FORWARD));
    assert!(k.is_down(KeyboardKey::DOWN));
    assert!(!k.is_down(KeyboardKey::BACKWARD));
    assert!(!k.is_down(KeyboardKey::LEFT));
    assert!(!k.is_down(KeyboardKey::RIGHT));
    assert!(!k.is_down(KeyboardKey::UP));
}

#[test]
fn input_snapshot_exposes_parts() {
    let i = Input::new(Mouse::new(1, 5, 6), Keyboard::default());
    assert!(i.get_mouse().is_down(MouseButton::PRIMARY));
    assert_eq!(i.get_mouse().get_dx(), 5);
    assert!(!i.get_keyboard().is_down(KeyboardKey::UP));
}
