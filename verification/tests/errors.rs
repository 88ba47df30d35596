use lemmy_search::error::{failure_report, LemmySearchError, LogError, Result};

#[test]
fn error_descriptions() {
    assert_eq!(LemmySearchError::Generic("boom".to_string()).message(), "Error 'boom'");
    assert_eq!(LemmySearchError::Unknown("what".to_string()).message(), "Unknown Error 'what'");
    assert_eq!(LemmySearchError::Database("db down".to_string()).message(), "db down");
    assert_eq!(LemmySearchError::Network("timeout".to_string()).message(), "timeout");
}

#[test]
fn logging_leaves_the_result_unchanged() {
    let ok: Result<u8> = Ok(3);
    assert!(matches!(ok.log_error("never printed", true), Ok(3)));
    let err: Result<u8> = Err(LemmySearchError::IO("disk".to_string()));
    match err.log_error("...failed", true) {
        Err(LemmySearchError::IO(s)) => assert_eq!(s, "disk"),
        _ => panic!("the error should come back"),
    }
}

#[test]
fn failure_reports_print_the_error_only_when_asked() {
    let err = LemmySearchError::Generic("x".to_string());
    assert_eq!(failure_report("msg", &err, true), vec!["msg", "Error 'x'"]);
    assert_eq!(failure_report("msg", &err, false), vec!["msg"]);
}
