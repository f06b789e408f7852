use locate_cargo_manifest::error::{
    CONVERSION_MESSAGE, EXECUTION_MESSAGE, IO_MESSAGE, NO_ROOT_MESSAGE, PARSE_MESSAGE,
};
use locate_cargo_manifest::{
    compose_message, locate_manifest, ErrorKind, Invocation, LocateManifestError,
};

fn error_of(success: bool, stdout: &[u8], stderr: &[u8]) -> LocateManifestError {
    let run = Invocation { success, stdout: stdout.to_vec(), stderr: stderr.to_vec() };
    locate_manifest(Ok(run)).unwrap_err()
}

#[test]
fn each_kind_has_its_message() {
    assert_eq!(
        compose_message(ErrorKind::Io, "No such file or directory (os error 2)"),
        "An I/O error occurred while trying to execute `cargo locate-project`: \
         No such file or directory (os error 2)"
    );
    assert_eq!(
        compose_message(ErrorKind::CargoExecution, "error: could not find `Cargo.toml`"),
        "The command `cargo locate-project` did not exit successfully.\n\
         Stderr: error: could not find `Cargo.toml`"
    );
    assert_eq!(
        compose_message(ErrorKind::StringConversion, "invalid utf-8"),
        "The output of `cargo locate-project` was not valid UTF-8: invalid utf-8"
    );
    assert_eq!(
        compose_message(ErrorKind::ParseJson, "Unexpected end of JSON"),
        "The output of `cargo locate-project` was not valid JSON: Unexpected end of JSON"
    );
    assert_eq!(
        compose_message(ErrorKind::NoRoot, ""),
        "The JSON output of `cargo locate-project` did not contain the expected \"root\" string."
    );
}

#[test]
fn message_without_detail_is_its_head() {
    assert_eq!(compose_message(ErrorKind::Io, ""), IO_MESSAGE);
    assert_eq!(compose_message(ErrorKind::CargoExecution, ""), EXECUTION_MESSAGE);
    assert_eq!(compose_message(ErrorKind::StringConversion, ""), CONVERSION_MESSAGE);
    assert_eq!(compose_message(ErrorKind::ParseJson, ""), PARSE_MESSAGE);
    assert_eq!(compose_message(ErrorKind::NoRoot, ""), NO_ROOT_MESSAGE);
}

#[test]
fn missing_root_takes_no_detail() {
    assert_eq!(compose_message(ErrorKind::NoRoot, "ignored"), NO_ROOT_MESSAGE);
}

#[test]
fn error_kinds_are_told_apart() {
    let io = LocateManifestError::Io(std::io::Error::from(std::io::ErrorKind::NotFound));
    assert_eq!(io.kind(), ErrorKind::Io);
    assert_eq!(error_of(false, b"", b"no").kind(), ErrorKind::CargoExecution);
    assert_eq!(error_of(true, &[0xff], b"").kind(), ErrorKind::StringConversion);
    assert_eq!(error_of(true, b"not json", b"").kind(), ErrorKind::ParseJson);
    assert_eq!(error_of(true, b"{}", b"").kind(), ErrorKind::NoRoot);
    assert_eq!(LocateManifestError::NoRoot.kind(), ErrorKind::NoRoot);
}

#[test]
fn message_of_a_failed_run_shows_its_standard_error() {
    let error = error_of(false, b"", b"error: could not find `Cargo.toml`");
    assert_eq!(
        error.message(),
        "The command `cargo locate-project` did not exit successfully.\n\
         Stderr: error: could not find `Cargo.toml`"
    );
}

#[test]
fn message_of_a_failed_run_replaces_what_is_no_text() {
    let error = error_of(false, b"", &[b'f', 0xff, b'o', 0xc3]);
    assert_eq!(
        error.message(),
        "The command `cargo locate-project` did not exit successfully.\n\
         Stderr: f\u{fffd}o\u{fffd}"
    );
}

#[test]
fn message_of_a_missing_root_is_fixed() {
    assert_eq!(
        error_of(true, b"{\"root\": 123}", b"").message(),
        "The JSON output of `cargo locate-project` did not contain the expected \"root\" string."
    );
}

#[test]
fn message_of_a_parse_error_shows_where_it_is() {
    assert_eq!(
        error_of(true, b"not json", b"").message(),
        "The output of `cargo locate-project` was not valid JSON: \
         Unexpected character: o at (1:2)"
    );
}

#[test]
fn message_of_a_conversion_error_shows_where_it_is() {
    assert_eq!(
        error_of(true, &[b'{', 0xff], b"").message(),
        "The output of `cargo locate-project` was not valid UTF-8: \
         invalid utf-8 sequence of 1 bytes from index 1"
    );
}

#[test]
fn message_of_an_io_error_shows_its_cause() {
    let cause = std::io::Error::new(std::io::ErrorKind::NotFound, "no such tool");
    let error = locate_manifest(Err(cause)).unwrap_err();
    assert_eq!(
        error.message(),
        "An I/O error occurred while trying to execute `cargo locate-project`: no such tool"
    );
}

#[test]
fn causes_convert_into_their_kind() {
    let io = std::io::Error::new(std::io::ErrorKind::Other, "spawn");
    match LocateManifestError::from(io) {
        LocateManifestError::Io(cause) => assert_eq!(cause.to_string(), "spawn"),
        other => panic!("unexpected error: {:?}", other),
    }
    let utf8 = String::from_utf8(vec![0x80]).unwrap_err();
    match LocateManifestError::from(utf8) {
        LocateManifestError::StringConversion(cause) => assert_eq!(cause.as_bytes(), &[0x80]),
        other => panic!("unexpected error: {:?}", other),
    }
    match LocateManifestError::from(json::Error::UnexpectedEndOfJson) {
        LocateManifestError::ParseJson(cause) => {
            assert_eq!(cause, json::Error::UnexpectedEndOfJson)
        },
        other => panic!("unexpected error: {:?}", other),
    }
}
