use turbofish::ffi::{c_char, strlen, CString, CStringArray};

fn c_chars(s: &str) -> Vec<c_char> {
    s.bytes().map(c_char).collect()
}

#[test]
fn test_strlen() {
    let s = c_chars("12345\0");
    assert_eq!(strlen(&s), 5);
    let s = c_chars("\0");
    assert_eq!(strlen(&s), 0);
}

#[test]
fn cstring_from_str_ends_with_nul() {
    let s = CString::from("abc");
    assert_eq!(s.len(), 3);
    assert_eq!(s.as_slice(), &c_chars("abc\0")[..]);
}

#[test]
fn cstring_from_c_chars_stops_at_nul() {
    let raw = c_chars("hello\0world\0");
    let s = CString::from_c_chars(&raw);
    assert_eq!(s.len(), 5);
    assert_eq!(s.as_slice(), &c_chars("hello\0")[..]);
}

#[test]
fn cstring_array_keeps_order() {
    let a = CStringArray::from(&["ls", "-l"]);
    assert_eq!(a.as_slice().len(), 2);
    assert_eq!(a.as_slice()[0].as_slice(), &c_chars("ls\0")[..]);
    assert_eq!(a.as_slice()[1].as_slice(), &c_chars("-l\0")[..]);
    let b = CStringArray::from_c_strings(&vec![c_chars("a\0b"), c_chars("cd\0")]);
    assert_eq!(b.as_slice()[0].len(), 1);
    assert_eq!(b.as_slice()[1].len(), 2);
}
