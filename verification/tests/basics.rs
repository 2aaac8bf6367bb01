use watchparty::add;
use watchparty::averror::{averror, check_status, write_status, Error, AVERROR_EOF, AVERROR_EXTERNAL, ENOMEM};

#[test]
fn it_works() {
    let result = add(2, 2);
    assert_eq!(result, 4);
}

#[test]
fn add_large_values() {
    assert_eq!(add(u64::MAX - 1, 1), u64::MAX);
    assert_eq!(add(0, 0), 0);
    assert_eq!(add(7, 5), add(5, 7));
}

#[test]
fn averror_negates_errno() {
    assert_eq!(averror(12), -12);
    assert_eq!(averror(22), -22);
    assert_eq!(averror(0), 0);
}

#[test]
fn error_codes_match_ffmpeg_tags() {
    let mktag = |a: u8, b: u8, c: u8, d: u8| -> i32 {
        -((a as u32 | (b as u32) << 8 | (c as u32) << 16 | (d as u32) << 24) as i32)
    };
    assert_eq!(AVERROR_EOF, mktag(b'E', b'O', b'F', b' '));
    assert_eq!(AVERROR_EXTERNAL, mktag(b'E', b'X', b'T', b' '));
    assert_eq!(Error::enomem(), Error(ENOMEM));
    assert_eq!(Error::enomem().code(), -12);
}

#[test]
fn check_status_splits_on_sign() {
    assert_eq!(check_status(-1), Err(Error(-1)));
    assert_eq!(check_status(AVERROR_EOF), Err(Error(AVERROR_EOF)));
    assert_eq!(check_status(0), Ok(0));
    assert_eq!(check_status(42), Ok(42));
}

#[test]
fn write_status_reports_failure() {
    assert_eq!(write_status(true), 0);
    assert_eq!(write_status(false), AVERROR_EXTERNAL);
}
