use ziggy::database::Database;
use ziggy::error::DbError;
use ziggy::lookup::{Decision, GetRetry, GetStep, RetryPolicy};
use ziggy::text::decode_value;

/// Plays a native `get` that needs `threshold` bytes of buffer for `value`,
/// and counts the calls the lookup makes.
fn run_lookup(policy: RetryPolicy, threshold: usize, value: &[u8]) -> (Result<Option<String>, DbError>, usize) {
    let mut retry = GetRetry::new(policy);
    let mut calls: usize = 0;
    loop {
        let size = retry.buffer_size();
        let mut buf = vec![0u8; size];
        calls += 1;
        let n: isize = if size < threshold {
            -2
        } else {
            buf[..value.len()].copy_from_slice(value);
            value.len() as isize
        };
        match retry.on_result(n, &buf) {
            GetStep::Grow(next) => assert_eq!(next, 2 * size),
            GetStep::Done(r) => return (r, calls),
        }
    }
}

#[test]
fn open_null_handle_is_creation_failure() {
    assert!(matches!(Database::from_native(0), Err(DbError::CreationFailed)));
}

#[test]
fn open_handle_is_owned() {
    let db = Database::from_native(0x1000).unwrap();
    assert!(db.is_open());
    assert_eq!(db.handle(), Ok(0x1000));
}

#[test]
fn close_twice_releases_once() {
    let mut db = Database::from_native(0x2000).unwrap();
    assert_eq!(db.close(), Some(0x2000));
    assert!(!db.is_open());
    assert_eq!(db.close(), None);
    assert_eq!(db.close(), None);
}

#[test]
fn closed_database_hands_out_no_handle() {
    let mut db = Database::from_native(0x3000).unwrap();
    db.close();
    assert_eq!(db.handle(), Err(DbError::InvalidArgument));
}

#[test]
fn set_status_zero_is_success() {
    assert_eq!(Database::set_outcome(0), Ok(()));
}

#[test]
fn set_status_nonzero_is_failure() {
    assert_eq!(Database::set_outcome(1), Err(DbError::OperationFailed));
    assert_eq!(Database::set_outcome(-1), Err(DbError::OperationFailed));
}

#[test]
fn error_messages() {
    assert_eq!(DbError::CreationFailed.message(), "Database creation failed");
    assert_eq!(DbError::OperationFailed.message(), "Database operation failed");
    assert_eq!(DbError::Utf8Error.message(), "Invalid UTF-8");
    assert_eq!(
        DbError::BufferTooSmall.message(),
        "Provided buffer was too small to retrieve data"
    );
    assert_eq!(
        DbError::InvalidArgument.message(),
        "Invalid argument passed to FFI function"
    );
    assert_eq!(DbError::FfiError("boom".to_string()).message(), "FFI error: boom");
}

#[test]
fn standard_policy() {
    let p = RetryPolicy::standard();
    assert_eq!(p.initial_size, 256);
    assert_eq!(p.max_attempts, 16);
    assert_eq!(GetRetry::new(p).buffer_size(), 256);
}

#[test]
fn get_missing_key_is_not_found() {
    let mut retry = GetRetry::new(RetryPolicy::standard());
    let buf = vec![0u8; 256];
    assert!(matches!(retry.on_result(0, &buf), GetStep::Done(Ok(None))));
}

#[test]
fn get_generic_failure() {
    let mut retry = GetRetry::new(RetryPolicy::standard());
    let buf = vec![0u8; 256];
    assert!(matches!(retry.on_result(-1, &buf), GetStep::Done(Err(DbError::OperationFailed))));
}

#[test]
fn get_unknown_negative_status_is_failure() {
    let mut retry = GetRetry::new(RetryPolicy::standard());
    let buf = vec![0u8; 256];
    assert!(matches!(retry.on_result(-7, &buf), GetStep::Done(Err(DbError::OperationFailed))));
}

#[test]
fn get_length_past_buffer_is_failure() {
    let mut retry = GetRetry::new(RetryPolicy::standard());
    let buf = vec![b'x'; 256];
    assert!(matches!(retry.on_result(257, &buf), GetStep::Done(Err(DbError::OperationFailed))));
}

#[test]
fn get_found_value() {
    let mut retry = GetRetry::new(RetryPolicy::standard());
    let mut buf = vec![0u8; 256];
    buf[..3].copy_from_slice(b"bar");
    match retry.on_result(3, &buf) {
        GetStep::Done(Ok(Some(v))) => assert_eq!(v, "bar"),
        other => panic!("unexpected step {:?}", other),
    }
}

#[test]
fn get_value_with_multibyte_text() {
    let value = "héllo wörld";
    let (r, calls) = run_lookup(RetryPolicy::standard(), 10, value.as_bytes());
    assert_eq!(r, Ok(Some(value.to_string())));
    assert_eq!(calls, 1);
}

#[test]
fn get_invalid_utf8_is_decoding_error() {
    let mut retry = GetRetry::new(RetryPolicy::standard());
    let mut buf = vec![0u8; 256];
    buf[0] = 0xff;
    buf[1] = b'a';
    assert!(matches!(retry.on_result(2, &buf), GetStep::Done(Err(DbError::Utf8Error))));
}

#[test]
fn get_too_small_grows_buffer() {
    let mut retry = GetRetry::new(RetryPolicy::standard());
    let buf = vec![0u8; 256];
    assert!(matches!(retry.on_result(-2, &buf), GetStep::Grow(512)));
    assert_eq!(retry.buffer_size(), 512);
}

#[test]
fn grow_and_retry_reaches_threshold() {
    // 256, 512, 1024: ceil(log2(1000 / 256)) + 1 = 3 calls.
    let value = vec![b'v'; 1000];
    let (r, calls) = run_lookup(RetryPolicy::standard(), 1000, &value);
    assert_eq!(r, Ok(Some(String::from_utf8(value).unwrap())));
    assert_eq!(calls, 3);
}

#[test]
fn grow_and_retry_exact_threshold() {
    let (r, calls) = run_lookup(RetryPolicy::standard(), 256, b"ok");
    assert_eq!(r, Ok(Some("ok".to_string())));
    assert_eq!(calls, 1);
    let (r, calls) = run_lookup(RetryPolicy::standard(), 257, b"ok");
    assert_eq!(r, Ok(Some("ok".to_string())));
    assert_eq!(calls, 2);
}

#[test]
fn grow_and_retry_gives_up_after_max_attempts() {
    let policy = RetryPolicy { initial_size: 1, max_attempts: 3 };
    let (r, calls) = run_lookup(policy, 1 << 20, b"big");
    assert_eq!(r, Err(DbError::BufferTooSmall));
    assert_eq!(calls, 3);
}

#[test]
fn decide_reports_decisions() {
    let mut retry = GetRetry::new(RetryPolicy { initial_size: 4, max_attempts: 2 });
    assert_eq!(retry.decide(-2), Decision::Retry { size: 8 });
    assert_eq!(retry.decide(-2), Decision::TooSmall);
    assert_eq!(retry.decide(8), Decision::Found { len: 8 });
    assert_eq!(retry.decide(0), Decision::Missing);
    assert_eq!(retry.decide(9), Decision::Failed);
}

#[test]
fn decode_value_strict() {
    assert_eq!(decode_value("añb".as_bytes()), Some("añb".to_string()));
    assert_eq!(decode_value(&[b'a', 0xc3]), None);
    assert_eq!(decode_value(&[]), Some(String::new()));
}
