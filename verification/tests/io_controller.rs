use shoyu::input::InputEvent;
use shoyu::input::Keycode;
use shoyu::input::MouseButton;
use shoyu::input::KEY_A;
use shoyu::input::KEY_B;
use shoyu::io_controller::HatState;
use shoyu::io_controller::IOController;
use shoyu::io_controller::JoystickController;

fn key_down(code: i32) -> InputEvent {
    InputEvent::KeyDown { keycode: Some(Keycode::new(code)), repeat: false }
}

#[test]
fn test_io_controller() {
    let mut io_controller = IOController::new();
    io_controller.map_action_keys("kick", vec![Keycode::new(KEY_A)]);
    io_controller.map_action_keys("punch", vec![Keycode::new(KEY_B)]);

    io_controller.update(&vec![]);
    assert_eq!(io_controller.is_action_active("kick"), false);
    assert_eq!(io_controller.is_action_active("punch"), false);
}

#[test]
fn an_action_is_active_while_one_of_its_keys_is_held() {
    let mut io = IOController::new();
    io.map_action_keys("kick", vec![Keycode::new(KEY_A), Keycode::new(KEY_B)]);
    io.update(&vec![key_down(KEY_B)]);
    assert!(io.is_action_active("kick"));
    assert!(io.is_action_pressed("kick"));
    assert!(!io.is_action_released("kick"));
    assert!(!io.is_action_active("punch"));
    io.update(&vec![]);
    assert!(io.is_action_active("kick"));
    assert!(!io.is_action_pressed("kick"));
    io.update(&vec![InputEvent::KeyUp { keycode: Some(Keycode::new(KEY_B)) }]);
    assert!(!io.is_action_active("kick"));
    assert!(io.is_action_released("kick"));
}

#[test]
fn a_new_binding_takes_the_place_of_the_old_one() {
    let mut io = IOController::new();
    io.map_action_keys("fire", vec![Keycode::new(KEY_A)]);
    io.map_action_buttons("fire", vec![MouseButton::Left]);
    io.update(&vec![key_down(KEY_A)]);
    assert!(!io.is_action_active("fire"));
    io.update(&vec![InputEvent::MouseButtonDown { mouse_btn: MouseButton::Left }]);
    assert!(io.is_action_active("fire"));
    assert!(io.is_action_pressed("fire"));
}

#[test]
fn the_mouse_position_comes_with_its_change() {
    let mut io = IOController::new();
    io.update(&vec![InputEvent::MouseMotion { x: 10, y: 20 }]);
    io.update(&vec![InputEvent::MouseMotion { x: 4, y: 25 }]);
    let mouse = io.get_mouse_position();
    assert_eq!(mouse.position, (4, 25));
    assert_eq!(mouse.delta, (-6, 5));
}

#[test]
fn a_joystick_action_is_active_when_the_hat_points_there() {
    let mut joystick = JoystickController::new();
    joystick.map_action("up", HatState::Up);
    assert!(!joystick.is_action_active("up"));
    joystick.observe(Some(HatState::Up), Some((0, 0)));
    assert!(joystick.is_action_active("up"));
    assert!(!joystick.is_action_active("down"));
    joystick.observe(Some(HatState::Left), None);
    assert!(!joystick.is_action_active("up"));
    assert_eq!(joystick.get_axes(), None);

    let mut io = IOController::new();
    assert!(io.joystick().is_none());
    joystick.observe(Some(HatState::Up), None);
    io.attach_joystick(joystick);
    assert!(io.is_action_active("up"));
    assert!(!io.is_action_pressed("up"));
}
