use taskchampion_lib::string::{c_strlen, contains_nul};
use taskchampion_lib::{
    tc_string_borrow, tc_string_clone, tc_string_clone_with_len, tc_string_content,
    tc_string_content_with_len, tc_string_free, tc_string_is_null, tc_string_null,
    EmbeddedNulError, InvalidUtf8Error, TCString,
};

const INVALID_UTF8: &[u8] = b"abc\xf0\x28\x8c\x28";

fn make_cstring() -> TCString<'static> {
    tc_string_clone(b"a string\0")
}

fn make_cstr() -> TCString<'static> {
    tc_string_borrow(b"a string\0")
}

fn make_string() -> TCString<'static> {
    TCString::from_string("a string".into())
}

fn make_string_with_nul() -> TCString<'static> {
    TCString::from_string("a \0 nul!".into())
}

fn make_invalid_bytes() -> TCString<'static> {
    TCString::from_bytes(INVALID_UTF8.to_vec())
}

fn make_bytes() -> TCString<'static> {
    TCString::from_bytes(b"bytes".to_vec())
}

#[test]
fn cstring_as_str() {
    assert_eq!(make_cstring().as_str().unwrap(), Some("a string"));
}

#[test]
fn cstr_as_str() {
    assert_eq!(make_cstr().as_str().unwrap(), Some("a string"));
}

#[test]
fn string_as_str() {
    assert_eq!(make_string().as_str().unwrap(), Some("a string"));
}

#[test]
fn string_with_nul_as_str() {
    assert_eq!(make_string_with_nul().as_str().unwrap(), Some("a \0 nul!"));
}

#[test]
fn invalid_bytes_as_str() {
    let as_str_err = make_invalid_bytes().as_str().unwrap_err();
    assert_eq!(as_str_err.valid_up_to(), 3); // "abc" is valid
}

#[test]
fn valid_bytes_as_str() {
    assert_eq!(make_bytes().as_str().unwrap(), Some("bytes"));
}

#[test]
fn cstring_as_bytes() {
    assert_eq!(make_cstring().as_bytes(), Some(&b"a string"[..]));
}

#[test]
fn cstr_as_bytes() {
    assert_eq!(make_cstr().as_bytes(), Some(&b"a string"[..]));
}

#[test]
fn string_as_bytes() {
    assert_eq!(make_string().as_bytes(), Some(&b"a string"[..]));
}

#[test]
fn string_with_nul_as_bytes() {
    assert_eq!(make_string_with_nul().as_bytes(), Some(&b"a \0 nul!"[..]));
}

#[test]
fn invalid_bytes_as_bytes() {
    assert_eq!(make_invalid_bytes().as_bytes(), Some(INVALID_UTF8));
}

#[test]
fn cstring_string_to_cstring() {
    let mut tcstring = make_cstring();
    tcstring.string_to_cstring();
    assert_eq!(tcstring, make_cstring()); // unchanged
}

#[test]
fn cstr_string_to_cstring() {
    let mut tcstring = make_cstr();
    tcstring.string_to_cstring();
    assert_eq!(tcstring, make_cstr()); // unchanged
}

#[test]
fn string_string_to_cstring() {
    let mut tcstring = make_string();
    tcstring.string_to_cstring();
    assert_eq!(tcstring, make_cstring()); // converted to CString, same content
}

#[test]
fn string_with_nul_string_to_cstring() {
    let mut tcstring = make_string_with_nul();
    tcstring.string_to_cstring();
    assert_eq!(tcstring, make_string_with_nul()); // unchanged
}

#[test]
fn bytes_string_to_cstring() {
    let mut tcstring = make_bytes();
    tcstring.string_to_cstring();
    assert_eq!(tcstring, make_bytes()); // unchanged
}

// reading as text

#[test]
fn null_as_str_is_absent() {
    assert_eq!(tc_string_null().as_str(), Ok(None));
}

#[test]
fn valid_text_round_trips_in_every_form() {
    let text = "h\u{e9}llo \u{2713} \u{1f600}";
    let mut with_nul = text.as_bytes().to_vec();
    with_nul.push(0);

    assert_eq!(tc_string_borrow(&with_nul).as_str(), Ok(Some(text)));
    assert_eq!(tc_string_clone(&with_nul).as_str(), Ok(Some(text)));
    assert_eq!(
        tc_string_clone_with_len(text.as_bytes(), text.len()).as_str(),
        Ok(Some(text))
    );
    assert_eq!(TCString::from_string(text.to_string()).as_str(), Ok(Some(text)));
    assert_eq!(
        TCString::from_bytes(text.as_bytes().to_vec()).as_str(),
        Ok(Some(text))
    );
}

#[test]
fn reading_valid_bytes_as_text_turns_them_into_text() {
    let mut tcstring = make_bytes();
    assert_eq!(tcstring.as_str(), Ok(Some("bytes")));
    assert_eq!(tcstring, TCString::from_string("bytes".into()));
    // and what it holds has not changed
    assert_eq!(tcstring.as_bytes(), Some(&b"bytes"[..]));
}

#[test]
fn reading_invalid_bytes_as_text_fails_and_keeps_the_value() {
    let mut tcstring = make_invalid_bytes();
    assert_eq!(tcstring.as_str(), Err(InvalidUtf8Error { valid_up_to: 3 }));
    assert_eq!(tcstring, make_invalid_bytes());
    assert_eq!(tcstring.as_bytes(), Some(INVALID_UTF8));
}

#[test]
fn invalid_c_strings_fail_as_text() {
    let mut buf = INVALID_UTF8.to_vec();
    buf.push(0);
    assert_eq!(tc_string_clone(&buf).as_str().unwrap_err().valid_up_to(), 3);
    assert_eq!(tc_string_borrow(&buf).as_str().unwrap_err().valid_up_to(), 3);
}

#[test]
fn valid_up_to_is_the_longest_valid_prefix() {
    // invalid from the start
    let mut s = TCString::from_bytes(vec![0xff, b'a']);
    assert_eq!(s.as_str().unwrap_err().valid_up_to(), 0);
    // a sequence that is cut short at the end
    let mut s = TCString::from_bytes(vec![b'o', b'k', 0xe2, 0x9c]);
    assert_eq!(s.as_str().unwrap_err().valid_up_to(), 2);
    // valid characters of several bytes before the bad one
    let mut s = TCString::from_bytes(vec![0xc3, 0xa9, 0xe2, 0x9c, 0x93, 0x80]);
    assert_eq!(s.as_str().unwrap_err().valid_up_to(), 5);
}

#[test]
fn empty_content_is_valid_text() {
    assert_eq!(TCString::from_bytes(Vec::new()).as_str(), Ok(Some("")));
    assert_eq!(tc_string_clone(b"\0").as_str(), Ok(Some("")));
    assert_eq!(tc_string_clone(b"").as_bytes(), Some(&b""[..]));
}

#[test]
fn into_string_gives_the_text_or_the_error() {
    assert_eq!(make_cstring().into_string(), Ok(Some("a string".to_string())));
    assert_eq!(make_cstr().into_string(), Ok(Some("a string".to_string())));
    assert_eq!(make_string().into_string(), Ok(Some("a string".to_string())));
    assert_eq!(make_bytes().into_string(), Ok(Some("bytes".to_string())));
    assert_eq!(tc_string_null().into_string(), Ok(None));
    assert_eq!(
        make_invalid_bytes().into_string(),
        Err(InvalidUtf8Error { valid_up_to: 3 })
    );
}

#[test]
fn error_messages() {
    assert_eq!(
        InvalidUtf8Error { valid_up_to: 3 }.message(),
        "value contains invalid UTF-8 bytes"
    );
    assert_eq!(EmbeddedNulError.message(), "value contains embedded NUL bytes");
}

// C strings in and out

#[test]
fn a_c_string_ends_at_its_first_nul() {
    assert_eq!(
        tc_string_borrow(b"abc\0def\0").as_bytes(),
        Some(&b"abc"[..])
    );
    assert_eq!(tc_string_clone(b"abc\0def\0").as_bytes(), Some(&b"abc"[..]));
    // a clone needs no terminator in what it copies from
    assert_eq!(tc_string_clone(b"abc").as_bytes(), Some(&b"abc"[..]));
    assert_eq!(tc_string_clone(b"abc"), tc_string_clone(b"abc\0"));
}

#[test]
fn a_clone_is_independent_of_its_source() {
    let mut source = b"hello!\0".to_vec();
    let mut tcstring = tc_string_clone(&source);
    source[0] = b'j';
    drop(source);
    assert_eq!(tc_string_content(&mut tcstring), Some(&b"hello!\0"[..]));
}

#[test]
fn a_borrow_reads_the_source() {
    let source = b"hello!\0".to_vec();
    let mut tcstring = tc_string_borrow(&source);
    assert!(!tc_string_is_null(Some(&tcstring)));
    assert_eq!(tc_string_content(&mut tcstring), Some(&b"hello!\0"[..]));
    let mut len = 99;
    assert_eq!(
        tc_string_content_with_len(&mut tcstring, &mut len),
        Some(&b"hello!"[..])
    );
    assert_eq!(len, 6);
    tc_string_free(&mut tcstring);
    assert!(tc_string_is_null(Some(&tcstring)));
}

#[test]
fn content_is_terminated() {
    assert_eq!(tc_string_content(&mut make_cstring()), Some(&b"a string\0"[..]));
    assert_eq!(tc_string_content(&mut make_cstr()), Some(&b"a string\0"[..]));
    assert_eq!(tc_string_content(&mut make_string()), Some(&b"a string\0"[..]));
    assert_eq!(tc_string_content(&mut make_bytes()), Some(&b"bytes\0"[..]));
    // invalid UTF-8 is no obstacle
    let mut expected = INVALID_UTF8.to_vec();
    expected.push(0);
    assert_eq!(
        tc_string_content(&mut make_invalid_bytes()),
        Some(&expected[..])
    );
}

#[test]
fn content_turns_the_string_into_a_c_string() {
    let mut tcstring = make_string();
    let _ = tc_string_content(&mut tcstring);
    assert_eq!(tcstring, make_cstring());

    let mut tcstring = TCString::from_bytes(b"a string".to_vec());
    let _ = tc_string_content(&mut tcstring);
    assert_eq!(tcstring, make_cstring());
}

#[test]
fn content_with_nul_bytes_is_no_c_string() {
    let mut tcstring = make_string_with_nul();
    assert_eq!(tc_string_content(&mut tcstring), None);
    assert_eq!(tcstring, make_string_with_nul());
    assert_eq!(tcstring.as_cstr(), Err(EmbeddedNulError));

    let mut tcstring = tc_string_clone_with_len(b"abc\0123", 7);
    assert_eq!(tc_string_content(&mut tcstring), None);
    assert_eq!(tcstring, TCString::from_bytes(b"abc\0123".to_vec()));
    assert_eq!(tcstring.as_cstr(), Err(EmbeddedNulError));
}

#[test]
fn content_of_null_is_absent() {
    let mut tcstring = tc_string_null();
    assert_eq!(tc_string_content(&mut tcstring), None);
    assert_eq!(tcstring.as_cstr(), Ok(None));
    let mut len = 99;
    assert_eq!(tc_string_content_with_len(&mut tcstring, &mut len), None);
    assert_eq!(len, 0);
    assert_eq!(tcstring.as_bytes(), None);
}

#[test]
fn as_cstr_gives_content_and_terminator() {
    assert_eq!(make_cstring().as_cstr(), Ok(Some(&b"a string\0"[..])));
    assert_eq!(make_cstr().as_cstr(), Ok(Some(&b"a string\0"[..])));
    assert_eq!(make_string().as_cstr(), Ok(Some(&b"a string\0"[..])));
    assert_eq!(make_bytes().as_cstr(), Ok(Some(&b"bytes\0"[..])));
}

// bytes with a length

#[test]
fn clone_with_len_keeps_nul_bytes_and_length() {
    let source = b"a \0 nul!\0 and more";
    let mut tcstring = tc_string_clone_with_len(source, 9);
    let mut len = 0;
    assert_eq!(
        tc_string_content_with_len(&mut tcstring, &mut len),
        Some(&b"a \0 nul!\0"[..])
    );
    assert_eq!(len, 9);
    // reading did not change it
    assert_eq!(tcstring, TCString::from_bytes(b"a \0 nul!\0".to_vec()));
}

#[test]
fn clone_with_len_zero_is_empty_not_null() {
    let mut tcstring = tc_string_clone_with_len(b"abc", 0);
    assert!(!tc_string_is_null(Some(&tcstring)));
    let mut len = 99;
    assert_eq!(
        tc_string_content_with_len(&mut tcstring, &mut len),
        Some(&b""[..])
    );
    assert_eq!(len, 0);
}

#[test]
fn invalid_bytes_with_len_scenario() {
    let mut tcstring = tc_string_clone_with_len(INVALID_UTF8, 7);
    let mut len = 0;
    assert_eq!(
        tc_string_content_with_len(&mut tcstring, &mut len),
        Some(INVALID_UTF8)
    );
    assert_eq!(len, 7);
    assert_eq!(tcstring.as_str().unwrap_err().valid_up_to(), 3);
    // still the same seven bytes
    assert_eq!(
        tc_string_content_with_len(&mut tcstring, &mut len),
        Some(INVALID_UTF8)
    );
    assert_eq!(len, 7);
}

// Null

#[test]
fn only_null_is_null() {
    assert!(tc_string_is_null(Some(&tc_string_null())));
    assert!(tc_string_is_null(None));
    assert!(tc_string_null().is_null());
    assert!(!tc_string_is_null(Some(&make_cstring())));
    assert!(!tc_string_is_null(Some(&make_cstr())));
    assert!(!tc_string_is_null(Some(&make_string())));
    assert!(!tc_string_is_null(Some(&make_bytes())));
    assert!(!tc_string_is_null(Some(&tc_string_clone(b"\0"))));
    assert!(!tc_string_is_null(Some(&tc_string_borrow(b"\0"))));
    assert!(!tc_string_is_null(Some(&tc_string_clone_with_len(b"", 0))));
}

// freeing

#[test]
fn free_leaves_null() {
    let mut tcstring = make_cstring();
    assert_eq!(tcstring.allocations(), 1);
    tc_string_free(&mut tcstring);
    assert_eq!(tcstring, tc_string_null());
    assert_eq!(tcstring.allocations(), 0);
    // freeing a Null string is safe
    tc_string_free(&mut tcstring);
    assert_eq!(tcstring, tc_string_null());
}

#[test]
fn allocations_count_owned_buffers() {
    assert_eq!(tc_string_null().allocations(), 0);
    assert_eq!(make_cstr().allocations(), 0);
    assert_eq!(make_cstring().allocations(), 1);
    assert_eq!(make_string().allocations(), 1);
    assert_eq!(make_bytes().allocations(), 1);
}

// helpers on bytes

#[test]
fn c_strlen_is_the_index_of_the_first_nul() {
    assert_eq!(c_strlen(b""), 0);
    assert_eq!(c_strlen(b"\0"), 0);
    assert_eq!(c_strlen(b"abc"), 3);
    assert_eq!(c_strlen(b"abc\0"), 3);
    assert_eq!(c_strlen(b"abc\0def\0"), 3);
    assert_eq!(c_strlen(b"\0abc"), 0);
}

#[test]
fn contains_nul_finds_nul_bytes_anywhere() {
    assert!(!contains_nul(b""));
    assert!(!contains_nul(b"abc"));
    assert!(contains_nul(b"\0abc"));
    assert!(contains_nul(b"a\0bc"));
    assert!(contains_nul(b"abc\0"));
}
