use wvwasi::response::{error_body, init_body, success_body};

#[test]
fn success_body_is_errno_zero() {
    assert_eq!(success_body(), b"[0]".to_vec());
}

#[test]
fn init_body_lists_index_and_root() {
    assert_eq!(init_body(0, 3), b"[0,0,3]".to_vec());
    assert_eq!(init_body(12, 4294967295), b"[0,12,4294967295]".to_vec());
    assert_eq!(init_body(usize::MAX, 10), format!("[0,{},10]", usize::MAX).into_bytes());
}

#[test]
fn error_body_is_errno_io_with_message() {
    assert_eq!(error_body(b"bad fd"), b"[29,\"bad fd\"]".to_vec());
    assert_eq!(error_body(b""), b"[29,\"\"]".to_vec());
    // The message is written as it is, quotes included.
    assert_eq!(error_body(b"a\"b"), b"[29,\"a\"b\"]".to_vec());
}
