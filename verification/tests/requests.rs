use wvwasi::method::{IntKind, Method};
use wvwasi::request::{check_arguments, decode_request, ArgFault, RequestError};

fn fault(r: Result<Vec<i128>, RequestError>) -> ArgFault {
    match r {
        Err(RequestError::Arguments(f)) => f,
        other => panic!("expected an argument fault, got {:?}", other),
    }
}

#[test]
fn decodes_declared_arguments() {
    let a = decode_request(Method::FdClose, b"[3]").unwrap();
    assert_eq!(a, vec![3]);
    let a = decode_request(Method::ClockTimeGet, b" [ 1 , -5 , 64 ] ").unwrap();
    assert_eq!(a, vec![1, -5, 64]);
    let a = decode_request(Method::FdFilestatSetSize, b"[4,18446744073709551615]").unwrap();
    assert_eq!(a, vec![4, 18446744073709551615]);
}

#[test]
fn fd_seek_takes_a_signed_offset_and_a_byte_whence() {
    assert_eq!(decode_request(Method::FdSeek, b"[3,-1,1,16]").unwrap(), vec![3, -1, 1, 16]);
    assert_eq!(
        fault(decode_request(Method::FdSeek, b"[3,0,257,16]")),
        ArgFault::OutOfRange { position: 2, value: 257, kind: IntKind::U8 }
    );
    assert_eq!(
        fault(decode_request(Method::FdSeek, b"[3,9223372036854775808,0,16]")),
        ArgFault::OutOfRange { position: 1, value: 9223372036854775808, kind: IntKind::I64 }
    );
}

#[test]
fn sched_yield_ignores_its_body() {
    assert_eq!(decode_request(Method::SchedYield, b"not json").unwrap(), Vec::<i128>::new());
}

#[test]
fn rejects_non_utf8() {
    assert!(matches!(decode_request(Method::FdClose, &[0x5b, 0xff, 0x5d]), Err(RequestError::NotUtf8(_))));
}

#[test]
fn rejects_non_json() {
    assert!(matches!(decode_request(Method::FdClose, b"3"), Err(RequestError::Json(_))));
    assert!(matches!(decode_request(Method::FdClose, b"[\"3\"]"), Err(RequestError::Json(_))));
    assert!(matches!(decode_request(Method::FdClose, b"[3,]"), Err(RequestError::Json(_))));
    assert!(matches!(decode_request(Method::FdClose, b"[03]"), Err(RequestError::Json(_))));
}

#[test]
fn rejects_wrong_length() {
    assert_eq!(
        fault(decode_request(Method::FdClose, b"[]")),
        ArgFault::Length { expected: 1, found: 0 }
    );
    assert_eq!(
        fault(decode_request(Method::FdClose, b"[1,2]")),
        ArgFault::Length { expected: 1, found: 2 }
    );
}

#[test]
fn rejects_non_integers() {
    assert_eq!(fault(decode_request(Method::FdClose, b"[1.5]")), ArgFault::NotInteger { position: 0 });
    // serde_json reads `-0` as a floating point number.
    assert_eq!(fault(decode_request(Method::ProcExit, b"[-0]")), ArgFault::NotInteger { position: 0 });
    assert_eq!(fault(decode_request(Method::ProcExit, b"[1e2]")), ArgFault::NotInteger { position: 0 });
    // Too large for any integer type of serde_json.
    assert_eq!(
        fault(decode_request(Method::FdSeek, b"[1,18446744073709551616,0,0]")),
        ArgFault::NotInteger { position: 1 }
    );
}

#[test]
fn rejects_out_of_range() {
    assert_eq!(
        fault(decode_request(Method::FdClose, b"[-1]")),
        ArgFault::OutOfRange { position: 0, value: -1, kind: IntKind::U32 }
    );
    assert_eq!(
        fault(decode_request(Method::ProcExit, b"[2147483648]")),
        ArgFault::OutOfRange { position: 0, value: 2147483648, kind: IntKind::I32 }
    );
    assert_eq!(
        fault(decode_request(Method::FdAllocate, b"[1,9223372036854775808,0]")),
        ArgFault::OutOfRange { position: 1, value: 9223372036854775808, kind: IntKind::I64 }
    );
}

#[test]
fn first_fault_in_order_wins() {
    assert_eq!(
        fault(decode_request(Method::FdFdstatGet, b"[-1,1.5]")),
        ArgFault::OutOfRange { position: 0, value: -1, kind: IntKind::U32 }
    );
    // Element faults come before the length fault.
    assert_eq!(
        fault(decode_request(Method::FdFdstatGet, b"[1,-1,5]")),
        ArgFault::OutOfRange { position: 1, value: -1, kind: IntKind::U32 }
    );
}

#[test]
fn check_arguments_law_on_values() {
    let kinds = vec![IntKind::I32, IntKind::U64];
    assert_eq!(check_arguments(&kinds, &vec![Some(-3), Some(7)]), Ok(vec![-3, 7]));
    assert_eq!(
        check_arguments(&kinds, &vec![Some(-3)]),
        Err(ArgFault::Length { expected: 2, found: 1 })
    );
    assert_eq!(check_arguments(&kinds, &vec![None, Some(7)]), Err(ArgFault::NotInteger { position: 0 }));
}

#[test]
fn signatures_match_the_calls() {
    assert_eq!(Method::PathOpen.arg_kinds().len(), 9);
    assert_eq!(Method::FdPwrite.arg_kinds(), vec![IntKind::U32, IntKind::U32, IntKind::U32, IntKind::U64, IntKind::U32]);
    assert!(Method::SchedYield.arg_kinds().is_empty());
    assert!(!Method::SchedYield.reads_request());
    assert!(Method::FdClose.reads_request());
}
