use shoyu::error::Error;
use shoyu::error::LoadingError;
use shoyu::error::LookupError;
use shoyu::error::SlotError;

#[test]
fn the_messages_name_entry_and_path() {
    assert_eq!(SlotError {}.message(), "Ran out of slots!");
    assert_eq!(
        LookupError { entry: "hero".to_string() }.message(),
        "Could not find requested entry hero in database!"
    );
    assert_eq!(
        LoadingError { entry: "hero".to_string(), path: "db/hero.png".to_string() }.message(),
        "Failed to load requested entry hero in database! Attempted path: db/hero.png"
    );
}

#[test]
fn an_error_shows_the_message_of_what_it_wraps() {
    assert_eq!(Error::SlotError().message(), "Ran out of slots!");
    assert_eq!(
        Error::LookupError(LookupError { entry: "x".to_string() }).message(),
        "Could not find requested entry x in database!"
    );
    assert_eq!(
        Error::LoadingError(LoadingError { entry: "a".to_string(), path: "b".to_string() })
            .message(),
        "Failed to load requested entry a in database! Attempted path: b"
    );
}

#[test]
fn a_path_becomes_a_loading_error_for_an_unknown_entry() {
    match Error::from("db/missing.png".to_string()) {
        Error::LoadingError(e) => {
            assert_eq!(e.entry, "[UNKNOWN]");
            assert_eq!(e.path, "db/missing.png");
        }
        _ => panic!("not a loading error"),
    }
}

#[test]
fn an_image_error_becomes_a_loading_error_with_its_message() {
    let failure = image::load_from_memory(&[1u8, 2, 3, 4]).unwrap_err();
    let message = failure.to_string();
    assert!(!message.is_empty());
    match Error::from(failure) {
        Error::LoadingError(e) => {
            assert_eq!(e.entry, "[UNKNOWN]");
            assert_eq!(e.path, message);
        }
        _ => panic!("not a loading error"),
    }
}

#[test]
fn a_json_error_becomes_a_loading_error_for_the_json_file() {
    let failure = serde_json::from_str::<u32>("{").unwrap_err();
    match Error::json(failure.to_string()) {
        Error::LoadingError(e) => {
            assert_eq!(e.entry, "JSON FILE");
            assert_eq!(e.path, failure.to_string());
        }
        _ => panic!("not a loading error"),
    }
}

#[test]
fn an_io_error_becomes_a_loading_error_for_an_unknown_entry() {
    match Error::io("No such file or directory".to_string()) {
        Error::LoadingError(e) => {
            assert_eq!(e.entry, "[UNKNOWN]");
            assert_eq!(e.path, "No such file or directory");
        }
        _ => panic!("not a loading error"),
    }
}
