use rclib::Error;

#[test]
fn test_error_generic_display() {
    let err = Error::Generic("test error".to_string());
    assert_eq!(err.message(), "test error");
}

#[test]
fn test_error_io_display() {
    let io_err = std::io::Error::new(std::io::ErrorKind::NotFound, "file not found");
    let err = Error::Io(io_err);
    assert!(err.message().contains("IO error"));
}

#[test]
fn test_error_cli_display() {
    let err = Error::CliError("invalid argument".to_string());
    assert_eq!(err.message(), "CLI error: invalid argument");
}

#[test]
fn test_error_source_io() {
    let io_err = std::io::Error::new(std::io::ErrorKind::NotFound, "file not found");
    let err = Error::Io(io_err);
    assert!(err.source().is_some());
}

#[test]
fn test_error_source_generic() {
    let err = Error::Generic("test".to_string());
    assert!(err.source().is_none());
}

#[test]
fn test_error_source_cli() {
    let err = Error::CliError("test".to_string());
    assert!(err.source().is_none());
}

#[test]
fn test_error_from_io() {
    let io_err = std::io::Error::new(std::io::ErrorKind::PermissionDenied, "access denied");
    let err: Error = io_err.into();
    assert!(matches!(err, Error::Io(_)));
}

#[test]
fn test_error_debug() {
    let err = Error::Generic("debug test".to_string());
    let debug_str = format!("{:?}", err);
    assert!(debug_str.contains("Generic"));
    assert!(debug_str.contains("debug test"));
}


#[test]
fn an_io_error_shows_its_cause() {
    let io_err = std::io::Error::new(std::io::ErrorKind::NotFound, "file not found");
    let err = Error::Io(io_err);
    assert_eq!(err.message(), "IO error: file not found");
    assert_eq!(err.source().unwrap().kind(), std::io::ErrorKind::NotFound);
}

#[test]
fn a_status_is_written_with_its_reason_phrase() {
    assert_eq!(rclib::status_line(404), "404 Not Found");
    assert_eq!(rclib::status_line(200), "200 OK");
    assert_eq!(rclib::status_line(100), "100 Continue");
    assert_eq!(rclib::status_line(418), "418 I'm a teapot");
    assert_eq!(rclib::status_line(511), "511 Network Authentication Required");
}

#[test]
fn a_status_without_a_phrase_says_so() {
    assert_eq!(rclib::status_line(299), "299 <unknown status code>");
    assert_eq!(rclib::status_line(999), "999 <unknown status code>");
}

#[test]
fn a_number_that_is_no_status_stands_alone() {
    assert_eq!(rclib::status_line(0), "0");
    assert_eq!(rclib::status_line(99), "99");
    assert_eq!(rclib::status_line(1000), "1000");
    assert_eq!(rclib::status_line(65535), "65535");
}

#[test]
fn a_status_text_takes_the_phrase_it_is_given() {
    assert_eq!(rclib::status_text(404, &Some("Gone Fishing".to_string())), "404 Gone Fishing");
    assert_eq!(rclib::status_text(404, &None), "404 <unknown status code>");
    assert_eq!(rclib::status_text(100, &Some(String::new())), "100 ");
    assert_eq!(rclib::status_text(99, &Some("Low".to_string())), "99");
    assert_eq!(rclib::status_text(1000, &None), "1000");
}

#[test]
fn the_message_of_a_refused_request_names_the_status() {
    let e = rclib::ExecError::HttpStatus { status: 404, body: "no such job".to_string() };
    assert_eq!(e.message(), "HTTP request failed with status 404 Not Found: no such job");
    let e = rclib::ExecError::HttpStatus { status: 500, body: String::new() };
    assert_eq!(e.message(), "HTTP request failed with status 500 Internal Server Error: ");
    let e = rclib::ExecError::HttpStatus { status: 7, body: "x".to_string() };
    assert_eq!(e.message(), "HTTP request failed with status 7: x");
}
