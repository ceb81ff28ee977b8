use corerpc::digits::{i32_to_string, parse_u64, u64_to_string};
use corerpc::error::{Error, RpcError};

#[test]
fn renders_zero() {
    assert_eq!(u64_to_string(0), "0");
}

#[test]
fn renders_large_number() {
    assert_eq!(u64_to_string(1234567890), "1234567890");
    assert_eq!(u64_to_string(u64::MAX), "18446744073709551615");
}

#[test]
fn renders_negative_numbers() {
    assert_eq!(i32_to_string(-42), "-42");
    assert_eq!(i32_to_string(0), "0");
    assert_eq!(i32_to_string(i32::MIN), "-2147483648");
    assert_eq!(i32_to_string(i32::MAX), "2147483647");
}

#[test]
fn parses_canonical_decimals() {
    assert_eq!(parse_u64("0"), Some(0));
    assert_eq!(parse_u64("123"), Some(123));
    assert_eq!(parse_u64("18446744073709551615"), Some(u64::MAX));
}

#[test]
fn rejects_non_canonical_decimals() {
    assert_eq!(parse_u64(""), None);
    assert_eq!(parse_u64("01"), None);
    assert_eq!(parse_u64("12a"), None);
    assert_eq!(parse_u64("-1"), None);
    assert_eq!(parse_u64("18446744073709551616"), None);
}

#[test]
fn error_messages_name_the_cause() {
    assert_eq!(
        Error::Io("read failed".to_string()).message(),
        "I/O error: read failed"
    );
    assert_eq!(Error::InvalidCookieFile.message(), "invalid cookie file");
    assert_eq!(
        Error::NonceMismatch.message(),
        "nonce mismatch: response id does not match request id"
    );
    assert_eq!(
        Error::Json("eof".to_string()).message(),
        "JSON error: eof"
    );
    assert_eq!(
        Error::Transport("timed out".to_string()).message(),
        "transport error: timed out"
    );
    assert_eq!(
        Error::TryFromInt("too big".to_string()).message(),
        "integer conversion overflow error: too big"
    );
    assert_eq!(
        Error::HexToArray("bad char".to_string()).message(),
        "hash parsing error: bad char"
    );
    assert_eq!(
        Error::Model("missing field".to_string()).message(),
        "model conversion error: missing field"
    );
}

#[test]
fn rpc_error_message_names_code_and_text() {
    let e = Error::Rpc(RpcError {
        code: -32601,
        message: "Method not found".to_string(),
        data: None,
    });
    assert_eq!(e.message(), "JSON-RPC error: code -32601: Method not found");
}
