use snowflake::cstr::{CByteStr, CStringArray};

#[test]
fn from_bytes_appends_single_nul() {
    let c = CByteStr::from_bytes(b"abc".to_vec()).unwrap();
    assert_eq!(c.bytes, b"abc\0".to_vec());
    let nuls = c.bytes.iter().filter(|&&b| b == 0).count();
    assert_eq!(nuls, 1);
    assert_eq!(*c.bytes.last().unwrap(), 0);
}

#[test]
fn from_bytes_rejects_interior_nul() {
    assert!(CByteStr::from_bytes(b"a\0b".to_vec()).is_none());
    assert!(CByteStr::from_bytes(b"\0".to_vec()).is_none());
}

#[test]
fn from_bytes_accepts_empty() {
    let c = CByteStr::from_bytes(Vec::new()).unwrap();
    assert_eq!(c.bytes, vec![0u8]);
}

#[test]
fn empty_is_one_nul() {
    assert_eq!(CByteStr::empty().bytes, vec![0u8]);
}

#[test]
fn from_nul_free_str_encodes_utf8() {
    let c = CByteStr::from_nul_free_str("/nix/store");
    assert_eq!(c.bytes, b"/nix/store\0".to_vec());
}

#[test]
fn clone_preserves_bytes() {
    let c = CByteStr::from_nul_free_str("x/y");
    assert_eq!(c.clone().bytes, c.bytes);
}

#[test]
fn string_array_collects_in_order() {
    let mut a = CStringArray::new();
    assert_eq!(a.elements.len(), 0);
    a.push(CByteStr::from_nul_free_str("sleep"));
    a.push(CByteStr::from_nul_free_str("1"));
    assert_eq!(a.elements.len(), 2);
    assert_eq!(a.elements[0].bytes, b"sleep\0".to_vec());
    assert_eq!(a.elements[1].bytes, b"1\0".to_vec());
}
