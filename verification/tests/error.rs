use floresta_ffi::error::FlorestaFfiError;

#[test]
fn start_error_shows_its_details() {
    let e = FlorestaFfiError::StartError { details: "data directory is not writable".to_string() };
    assert_eq!(e.to_string(), "data directory is not writable");
    let empty = FlorestaFfiError::StartError { details: String::new() };
    assert_eq!(empty.to_string(), "");
}
