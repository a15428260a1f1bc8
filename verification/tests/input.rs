use platformer_core::controller::{
    ButtonState, Controller, InputEvent, Key, MButton, Mouse, KEY_NUM,
};
use platformer_core::interface::{ButtonColumnBuilder, BUTTON_HEIGHT, BUTTON_WIDTH};

#[test]
fn fresh_controller_is_idle() {
    let c = Controller::new();
    assert!(!c.is_key_active(Key::Left));
    assert!(!c.was_key_pressed(Key::Up));
    assert!(!c.is_button_active(MButton::Left));
    assert_eq!(c.mouse().pos(), (0, 0));
    assert_eq!(c.mouse().scroll(), 0);
    assert_eq!(c.keys.len(), KEY_NUM);
}

#[test]
fn key_press_and_hold_times() {
    let mut c = Controller::new();
    c.update(&vec![InputEvent::KeyDown(Key::Left)]);
    assert!(c.is_key_active(Key::Left));
    assert!(c.was_key_pressed(Key::Left));
    assert!(c.is_key_active_time_limited(Key::Left, 0));

    // One tick later the press edge is gone but the key is still held.
    c.update(&vec![]);
    assert!(c.is_key_active(Key::Left));
    assert!(!c.was_key_pressed(Key::Left));
    assert!(c.is_key_active_time_limited(Key::Left, 1));
    assert!(!c.is_key_active_time_limited(Key::Left, 0));
    assert!(c.is_key_active_delayed(Key::Left, 1));

    c.update(&vec![InputEvent::KeyUp(Key::Left)]);
    assert!(!c.is_key_active(Key::Left));
}

#[test]
fn x_acceleration_follows_arrows() {
    let mut c = Controller::new();
    assert_eq!(c.x_acceleration().raw, 0);
    c.update(&vec![InputEvent::KeyDown(Key::Left)]);
    assert_eq!(c.x_acceleration().raw, -1024);
    c.update(&vec![InputEvent::KeyUp(Key::Left), InputEvent::KeyDown(Key::Right)]);
    assert_eq!(c.x_acceleration().raw, 1024);
}

#[test]
fn mouse_motion_buttons_and_wheel() {
    let mut c = Controller::new();
    c.update(&vec![
        InputEvent::MouseMotion(55, 66),
        InputEvent::MouseButtonDown(MButton::Right),
        InputEvent::MouseWheel(-2),
    ]);
    assert_eq!(c.mouse().pos(), (55, 66));
    assert!(c.is_button_active(MButton::Right));
    assert!(c.was_button_pressed(MButton::Right));
    assert!(c.is_button_active_delayed(MButton::Right, 5));
    assert_eq!(c.mouse().scroll(), -2);

    // The wheel resets every tick; the button ages.
    c.update(&vec![]);
    assert_eq!(c.mouse().scroll(), 0);
    assert!(c.is_button_active(MButton::Right));
    assert!(!c.was_button_pressed(MButton::Right));

    c.clear_mouse();
    assert!(!c.is_button_active(MButton::Right));
}

#[test]
fn mouse_tracks_its_own_state() {
    let mut m = Mouse::new();
    m.update_position(10, 20);
    assert_eq!(m.pos(), (10, 20));
    assert!(!m.was_left_button_pressed());
    assert!(!m.is_button_active_timed(MButton::Middle, 0));
}

#[test]
fn hold_time_saturates() {
    let mut c = Controller::new();
    c.update(&vec![InputEvent::KeyDown(Key::Tab)]);
    for _ in 0..300 {
        c.update(&vec![]);
    }
    assert!(c.is_key_active(Key::Tab));
    assert_eq!(
        c.keys[platformer_core::controller::Key::Tab.index()],
        ButtonState::Active(255)
    );
}

#[test]
fn button_column_lays_out_centered() {
    let column = ButtonColumnBuilder::<u8>::new()
        .add(("RESUME", 1))
        .add(("RESTART", 2))
        .add(("MENU", 3))
        .build();

    assert_eq!(column.buttons.len(), 3);
    // Defaults: 300x90 buttons, 20 apart; free height (720 - 270 - 40) / 2.
    let x = ((1280 - BUTTON_WIDTH) / 2) as i32;
    assert_eq!(column.buttons[0].rect.x, x);
    assert_eq!(column.buttons[0].rect.y, 205);
    assert_eq!(column.buttons[1].rect.y, 205 + (BUTTON_HEIGHT + 20) as i32);
    assert_eq!(column.buttons[2].rect.y, 205 + 2 * (BUTTON_HEIGHT + 20) as i32);
    assert_eq!(column.buttons[0].text(), "RESUME");
    assert_eq!(column.buttons[2].effect, 3);
}

#[test]
fn click_picks_the_button_under_the_mouse() {
    let column = ButtonColumnBuilder::<u8>::new()
        .add(("RESUME", 1))
        .add(("RESTART", 2))
        .build();

    let mut c = Controller::new();
    // Middle of the second button (it spans y 370..460, x 490..790).
    c.update(&vec![
        InputEvent::MouseMotion(640, 380),
        InputEvent::MouseButtonDown(MButton::Left),
    ]);
    assert_eq!(column.effect_if_clicked(&c), Some(&2));

    // Without a fresh press nothing is clicked.
    c.update(&vec![]);
    assert_eq!(column.effect_if_clicked(&c), None);

    // A press far away hits nothing.
    c.update(&vec![
        InputEvent::MouseMotion(0, 0),
        InputEvent::MouseButtonUp(MButton::Left),
    ]);
    c.update(&vec![InputEvent::MouseButtonDown(MButton::Left)]);
    assert_eq!(column.effect_if_clicked(&c), None);
}

#[test]
fn builder_adjustments_apply() {
    let column = ButtonColumnBuilder::<u8>::new()
        .width(100)
        .height(50)
        .separation(10)
        .shift((6, -8))
        .shift_x(4)
        .shift_y(8)
        .add(("A", 9))
        .build();
    // Free height (720 - 50) / 2 = 335, then shifted down by 0.
    assert_eq!(column.buttons[0].rect.width, 100);
    assert_eq!(column.buttons[0].rect.height, 50);
    assert_eq!(column.buttons[0].rect.x, (1280 - 100) / 2 + 10);
    assert_eq!(column.buttons[0].rect.y, 335);
    assert_eq!(column.buttons[0].effect, 9);
}
