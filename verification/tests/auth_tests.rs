use corerpc::auth::{cookie_user_pass, Auth};
use corerpc::error::Error;

#[test]
fn user_pass_returned_unchanged() {
    let auth = Auth::UserPass("user".to_string(), "pass".to_string());
    let r = auth.get_user_pass(Ok(None)).unwrap();
    assert_eq!(r, (Some("user".to_string()), Some("pass".to_string())));
}

#[test]
fn cookie_line_splits_at_first_colon() {
    let auth = Auth::CookieFile("/tmp/cookie".to_string());
    let r = auth
        .get_user_pass(Ok(Some("alice:s3cret".to_string())))
        .unwrap();
    assert_eq!(r, (Some("alice".to_string()), Some("s3cret".to_string())));
}

#[test]
fn cookie_line_with_several_colons_splits_at_the_first() {
    let r = cookie_user_pass("alice:s3:cret").unwrap();
    assert_eq!(r, (Some("alice".to_string()), Some("s3:cret".to_string())));
}

#[test]
fn cookie_line_without_colon_is_malformed() {
    let auth = Auth::CookieFile("/tmp/cookie".to_string());
    let r = auth.get_user_pass(Ok(Some("no delimiter here".to_string())));
    assert!(matches!(r, Err(Error::InvalidCookieFile)));
}

#[test]
fn empty_cookie_file_is_malformed() {
    let auth = Auth::CookieFile("/tmp/cookie".to_string());
    let r = auth.get_user_pass(Ok(None));
    assert!(matches!(r, Err(Error::InvalidCookieFile)));
}

#[test]
fn unreadable_cookie_file_is_io_not_malformed() {
    let auth = Auth::CookieFile("/nonexistent/cookie".to_string());
    let r = auth.get_user_pass(Err("No such file or directory".to_string()));
    match r {
        Err(Error::Io(cause)) => assert_eq!(cause, "No such file or directory"),
        other => panic!("expected Io error, got {:?}", other),
    }
}

#[test]
fn cookie_line_starting_with_colon_gives_empty_user() {
    let r = cookie_user_pass(":pass").unwrap();
    assert_eq!(r, (Some("".to_string()), Some("pass".to_string())));
}

#[test]
fn cookie_line_ending_with_colon_gives_empty_pass() {
    let r = cookie_user_pass("user:").unwrap();
    assert_eq!(r, (Some("user".to_string()), Some("".to_string())));
}
