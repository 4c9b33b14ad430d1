use opus::error::{check_count, check_done, check_len, len};
use opus::{Error, ErrorCode};

#[test]
fn error_code_from_int_all() {
    assert_eq!(ErrorCode::from_int(-1), ErrorCode::BadArg);
    assert_eq!(ErrorCode::from_int(-2), ErrorCode::BufferTooSmall);
    assert_eq!(ErrorCode::from_int(-3), ErrorCode::InternalError);
    assert_eq!(ErrorCode::from_int(-4), ErrorCode::InvalidPacket);
    assert_eq!(ErrorCode::from_int(-5), ErrorCode::Unimplemented);
    assert_eq!(ErrorCode::from_int(-6), ErrorCode::InvalidState);
    assert_eq!(ErrorCode::from_int(-7), ErrorCode::AllocFail);
    assert_eq!(ErrorCode::from_int(-8), ErrorCode::Unknown);
    assert_eq!(ErrorCode::from_int(0), ErrorCode::Unknown);
    assert_eq!(ErrorCode::from_int(5), ErrorCode::Unknown);
}

#[test]
fn error_code_numbers_round_trip() {
    let codes = [
        (ErrorCode::BadArg, -1),
        (ErrorCode::BufferTooSmall, -2),
        (ErrorCode::InternalError, -3),
        (ErrorCode::InvalidPacket, -4),
        (ErrorCode::Unimplemented, -5),
        (ErrorCode::InvalidState, -6),
        (ErrorCode::AllocFail, -7),
        (ErrorCode::Unknown, -8),
    ];
    for (code, number) in codes {
        assert_eq!(code.raw(), number);
        assert_eq!(ErrorCode::from_int(code.raw()), code);
    }
}

#[test]
fn error_code_descriptions() {
    assert_eq!(ErrorCode::BadArg.description(), "invalid argument");
    assert_eq!(ErrorCode::BufferTooSmall.description(), "buffer too small");
    assert_eq!(ErrorCode::InternalError.description(), "internal error");
    assert_eq!(ErrorCode::InvalidPacket.description(), "corrupted stream");
    assert_eq!(ErrorCode::Unimplemented.description(), "request not implemented");
    assert_eq!(ErrorCode::InvalidState.description(), "invalid state");
    assert_eq!(ErrorCode::AllocFail.description(), "memory allocation failed");
    assert_eq!(ErrorCode::Unknown.description(), "unknown error");
}

#[test]
fn error_accessors_and_text() {
    let e = Error::from_code("opus_encode", -2);
    assert_eq!(e.function(), "opus_encode");
    assert_eq!(e.code(), ErrorCode::BufferTooSmall);
    assert_eq!(e.description(), "buffer too small");
    assert_eq!(e.to_string(), "opus_encode: buffer too small");
    let b = Error::bad_arg("opus_packet_get_bandwidth");
    assert_eq!(b.code(), ErrorCode::BadArg);
    assert_eq!(b.to_string(), "opus_packet_get_bandwidth: invalid argument");
}

#[test]
fn error_from_unknown_code() {
    let e = Error::from_code("opus_decode", -100);
    assert_eq!(e.code(), ErrorCode::Unknown);
    assert_eq!(e.description(), "unknown error");
}

#[test]
fn check_count_and_done() {
    assert_eq!(check_count("f", 0).unwrap(), 0);
    assert_eq!(check_count("f", 17).unwrap(), 17);
    let e = check_count("f", -4).unwrap_err();
    assert_eq!(e.code(), ErrorCode::InvalidPacket);
    assert_eq!(e.function(), "f");
    assert!(check_done("g", 0).is_ok());
    assert!(check_done("g", 3).is_ok());
    assert_eq!(check_done("g", -6).unwrap_err().code(), ErrorCode::InvalidState);
}

#[test]
fn lengths_as_c_int() {
    assert_eq!(check_len(0), 0);
    assert_eq!(check_len(i32::MAX as usize), i32::MAX);
    assert_eq!(len(&[1u8, 2, 3]), 3);
    let empty: [i16; 0] = [];
    assert_eq!(len(&empty), 0);
}
