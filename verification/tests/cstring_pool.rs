use ffi_pool::CStringPool;
use ffi_pool::NulError;

#[test]
fn round_trip() {
    let pool = CStringPool::new(128);
    let s = "foo";
    let cstr = pool.get_str(s).unwrap();
    assert_eq!(cstr.to_bytes(), s.as_bytes().to_vec());
}

#[test]
#[should_panic]
fn bad_string() {
    let pool = CStringPool::new(128);
    let s = "fo\0o";
    let _cstr = pool.get_str(s).unwrap();
}

#[test]
fn example_sequence() {
    let pool = CStringPool::new(128);
    let ok = pool.get_str("foo").unwrap();
    assert_eq!(ok.to_bytes(), b"foo".to_vec());
    drop(ok);
    let err: NulError = pool.get_str("fo\0o").unwrap_err();
    assert_eq!(err.position, 2);
}

#[test]
fn rejection_reports_first_null() {
    let pool = CStringPool::new(16);
    assert_eq!(pool.get_str("\0abc").unwrap_err().position, 0);
    assert_eq!(pool.get_str("ab\0c\0d").unwrap_err().position, 2);
    assert_eq!(pool.get_str("abc\0").unwrap_err().position, 3);
}

#[test]
fn empty_text() {
    let pool = CStringPool::new(8);
    let h = pool.get_str("").unwrap();
    assert_eq!(h.to_bytes().len(), 0);
    assert_eq!(h.as_bytes_with_nul(), &b"\0".to_vec());
}

#[test]
fn terminator_is_appended() {
    let pool = CStringPool::new(8);
    let h = pool.get_str("hey").unwrap();
    assert_eq!(h.as_bytes_with_nul(), &b"hey\0".to_vec());
}

#[test]
fn unicode_text_round_trip() {
    let pool = CStringPool::new(8);
    let s = "h\u{e9}llo \u{1f980}";
    let h = pool.get_str(s).unwrap();
    assert_eq!(h.to_bytes(), s.as_bytes().to_vec());
}

#[test]
fn reuse_reflects_only_latest_input() {
    let pool = CStringPool::with_capacity(1, 4);
    let long = pool.get_str("a rather long piece of text").unwrap();
    assert_eq!(long.to_bytes(), b"a rather long piece of text".to_vec());
    drop(long);
    let short = pool.get_str("ab").unwrap();
    assert_eq!(short.to_bytes(), b"ab".to_vec());
    assert_eq!(short.as_bytes_with_nul(), &b"ab\0".to_vec());
    drop(short);
    let from_bytes = pool.get_c_str(b"zz\0");
    assert_eq!(from_bytes.to_bytes(), b"zz".to_vec());
    drop(from_bytes);
    let empty = pool.get_str("").unwrap();
    assert_eq!(empty.as_bytes_with_nul(), &b"\0".to_vec());
}

#[test]
fn bounded_pool_repeated_acquire_release() {
    let pool = CStringPool::with_capacity(1, 16);
    for i in 0..32 {
        let text = format!("round {}", i);
        let h = pool.get_str(&text).unwrap();
        assert_eq!(h.to_bytes(), text.as_bytes().to_vec());
    }
}

#[test]
fn byte_sourced_content_is_exact() {
    let pool = CStringPool::new(16);
    let h = pool.get_c_str(b"bar\0");
    assert_eq!(h.to_bytes(), b"bar".to_vec());
    assert_eq!(h.as_bytes_with_nul(), &b"bar\0".to_vec());
}

#[test]
fn byte_sourced_accepts_non_text_bytes() {
    let pool = CStringPool::new(16);
    let source: Vec<u8> = vec![0xFF, 0x01, 0x80, 0x00];
    let h = pool.get_c_str(source.as_slice());
    assert_eq!(h.to_bytes(), vec![0xFF, 0x01, 0x80]);
}

#[test]
fn byte_sourced_empty_content() {
    let pool = CStringPool::new(16);
    let h = pool.get_c_str(b"\0");
    assert_eq!(h.to_bytes().len(), 0);
    assert_eq!(h.as_bytes_with_nul(), &b"\0".to_vec());
}

#[test]
fn cloned_pool_shares_buffers() {
    let pool = CStringPool::with_capacity(2, 8);
    let other = pool.clone();
    let a = pool.get_str("one").unwrap();
    let b = other.get_str("two").unwrap();
    assert_eq!(a.to_bytes(), b"one".to_vec());
    assert_eq!(b.to_bytes(), b"two".to_vec());
}

#[test]
fn rejection_leaves_pool_usable() {
    let pool = CStringPool::with_capacity(1, 8);
    assert_eq!(pool.get_str("a\0b").unwrap_err().position, 1);
    let h = pool.get_str("fine").unwrap();
    assert_eq!(h.to_bytes(), b"fine".to_vec());
}
