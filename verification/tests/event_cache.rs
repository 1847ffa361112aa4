use shoyu::input::EventCache;
use shoyu::input::InputEvent;
use shoyu::input::Keycode;
use shoyu::input::MouseButton;
use shoyu::input::KEY_A;
use shoyu::input::KEY_ESCAPE;
use shoyu::input::KEY_SPACE;

fn key_down(code: i32) -> InputEvent {
    InputEvent::KeyDown { keycode: Some(Keycode::new(code)), repeat: false }
}

fn key_up(code: i32) -> InputEvent {
    InputEvent::KeyUp { keycode: Some(Keycode::new(code)) }
}

#[test]
fn test_is_quit() {
    let events = vec![InputEvent::Quit];
    let mut event_cache = EventCache::new();
    event_cache.poll_events(&events);
    assert_eq!(event_cache.is_quit(), true);
}

#[test]
fn test_key_pressed() {
    let events = vec![key_down(KEY_ESCAPE)];
    let mut event_cache = EventCache::new();
    event_cache.poll_events(&events);
    assert_eq!(event_cache.is_key_pressed(Keycode::new(KEY_ESCAPE)), true);
}

#[test]
fn test_key_released() {
    let events = vec![key_up(KEY_ESCAPE)];
    let mut event_cache = EventCache::new();
    event_cache.poll_events(&events);
    assert_eq!(event_cache.is_key_released(Keycode::new(KEY_ESCAPE)), true);
}

#[test]
fn test_key_held() {
    let events = vec![key_down(KEY_SPACE)];
    let mut event_cache = EventCache::new();
    event_cache.poll_events(&events);
    assert_eq!(event_cache.is_key_held(Keycode::new(KEY_SPACE)), true);
}

#[test]
fn test_key_changed_to_pressed() {
    let events = vec![key_down(KEY_A)];
    let mut event_cache = EventCache::new();
    event_cache.poll_events(&events);
    assert_eq!(event_cache.is_key_changed_to_pressed(Keycode::new(KEY_A)), true);
}

#[test]
fn test_key_changed_to_released() {
    let events = vec![key_down(KEY_A), key_up(KEY_A)];
    let mut event_cache = EventCache::new();
    event_cache.poll_events(&events);
    assert_eq!(event_cache.is_key_changed_to_released(Keycode::new(KEY_A)), true);
}

#[test]
fn a_new_frame_forgets_presses_and_keeps_what_is_held() {
    let mut cache = EventCache::new();
    cache.poll_events(&vec![key_down(KEY_A), InputEvent::MouseMotion { x: 3, y: 4 }]);
    assert!(cache.is_key_pressed(Keycode::new(KEY_A)));
    assert_eq!(cache.get_mouse_position(), (3, 4));
    assert_eq!(cache.get_last_mouse_position(), (0, 0));
    cache.poll_events(&vec![]);
    assert!(!cache.is_key_pressed(Keycode::new(KEY_A)));
    assert!(!cache.is_key_changed_to_pressed(Keycode::new(KEY_A)));
    assert!(cache.is_key_held(Keycode::new(KEY_A)));
    assert_eq!(cache.get_last_mouse_position(), (3, 4));
    assert!(!cache.is_quit());
}

#[test]
fn a_key_that_is_held_does_not_change_to_pressed_again() {
    let mut cache = EventCache::new();
    cache.poll_events(&vec![key_down(KEY_A)]);
    cache.poll_events(&vec![key_down(KEY_A)]);
    assert!(cache.is_key_pressed(Keycode::new(KEY_A)));
    assert!(!cache.is_key_changed_to_pressed(Keycode::new(KEY_A)));
}

#[test]
fn repeats_and_events_without_a_key_change_nothing() {
    let mut cache = EventCache::new();
    cache.poll_events(&vec![
        InputEvent::KeyDown { keycode: Some(Keycode::new(KEY_A)), repeat: true },
        InputEvent::KeyDown { keycode: None, repeat: false },
        InputEvent::KeyUp { keycode: None },
        InputEvent::Other,
    ]);
    assert!(!cache.is_key_pressed(Keycode::new(KEY_A)));
    assert!(!cache.is_key_held(Keycode::new(KEY_A)));
    assert!(!cache.is_key_released(Keycode::new(KEY_A)));
}

#[test]
fn a_key_released_without_being_held_has_not_changed() {
    let mut cache = EventCache::new();
    cache.poll_events(&vec![key_up(KEY_A)]);
    assert!(cache.is_key_released(Keycode::new(KEY_A)));
    assert!(!cache.is_key_changed_to_released(Keycode::new(KEY_A)));
}

#[test]
fn mouse_buttons_are_pressed_held_and_released() {
    let mut cache = EventCache::new();
    cache.poll_events(&vec![InputEvent::MouseButtonDown { mouse_btn: MouseButton::Left }]);
    assert!(cache.is_mouse_pressed(MouseButton::Left));
    assert!(cache.is_mouse_held(MouseButton::Left));
    assert!(!cache.is_mouse_held(MouseButton::Right));
    cache.poll_events(&vec![InputEvent::MouseButtonUp { mouse_btn: MouseButton::Left }]);
    assert!(!cache.is_mouse_pressed(MouseButton::Left));
    assert!(cache.is_mouse_released(MouseButton::Left));
    assert!(!cache.is_mouse_held(MouseButton::Left));
}
