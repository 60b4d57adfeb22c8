use crate::traits::{list_freed, list_in_use, parts_items, CList, PassByValue};
use vstd::prelude::*;
use vstd::slice::*;
use vstd::string::*;
use vstd::utf8::*;

verus! {

/// True when some byte of `bytes` is the NUL byte.
pub open spec fn has_nul(bytes: Seq<u8>) -> bool {
    exists|i: int| 0 <= i < bytes.len() && bytes[i] == 0u8
}

/// The length of the C string that starts at the beginning of `bytes`: the
/// index of the first NUL byte, or the whole length where there is none.
pub open spec fn c_str_len(bytes: Seq<u8>) -> int
    decreases bytes.len(),
{
    if bytes.len() == 0 || bytes[0] == 0u8 {
        0
    } else {
        1 + c_str_len(bytes.skip(1))
    }
}

/// The content of the C string that starts at the beginning of `bytes`,
/// without its terminator.
pub open spec fn c_str_content(bytes: Seq<u8>) -> Seq<u8> {
    bytes.take(c_str_len(bytes))
}

/// True when `bytes` is a C string in memory: content free of NUL bytes,
/// followed by exactly one NUL terminator.
pub open spec fn is_c_string(bytes: Seq<u8>) -> bool {
    &&& bytes.len() >= 1
    &&& bytes.last() == 0u8
    &&& !has_nul(bytes.drop_last())
}

/// True when `n` is the length of the longest prefix of `bytes` that is
/// valid UTF-8.
pub open spec fn is_valid_up_to(bytes: Seq<u8>, n: int) -> bool {
    &&& partial_valid_utf8(bytes, n)
    &&& forall|k: int| n < k <= bytes.len() ==> !partial_valid_utf8(bytes, k)
}

/// `c_str_len` is the position of the first NUL byte.
pub proof fn lemma_c_str_len(bytes: Seq<u8>)
    ensures
        0 <= c_str_len(bytes) <= bytes.len(),
        !has_nul(c_str_content(bytes)),
        has_nul(bytes) <==> c_str_len(bytes) < bytes.len(),
        c_str_len(bytes) < bytes.len() ==> bytes[c_str_len(bytes)] == 0u8,
    decreases bytes.len(),
{
    if bytes.len() == 0 || bytes[0] == 0u8 {
        if bytes.len() > 0 {
            assert(0 <= 0 < bytes.len() && bytes[0] == 0u8);
        }
    } else {
        let rest = bytes.skip(1);
        lemma_c_str_len(rest);
        let n = c_str_len(rest);
        let head = bytes.take(1 + n);
        let tail = rest.take(n);
        assert forall|i: int| 0 <= i < head.len() implies head[i] != 0u8 by {
            if i > 0 {
                assert(tail[i - 1] == bytes[i]);
            }
        }
        if has_nul(bytes) {
            let i = choose|i: int| 0 <= i < bytes.len() && bytes[i] == 0u8;
            assert(rest[i - 1] == 0u8);
            assert(0 <= i - 1 < rest.len());
        }
        if has_nul(rest) {
            let i = choose|i: int| 0 <= i < rest.len() && rest[i] == 0u8;
            assert(bytes[i + 1] == 0u8);
        }
    }
}

/// At most one length is the longest valid prefix.
pub proof fn lemma_valid_up_to_unique(bytes: Seq<u8>, m: int, n: int)
    requires
        is_valid_up_to(bytes, m),
        is_valid_up_to(bytes, n),
    ensures
        m == n,
{
}

/// What a [`TCString`] holds. The two C-string variants hold the content
/// only: the terminator is a matter of how the value is stored.
pub enum StringModel {
    /// No string.
    Null,
    /// Owned text.
    String(Seq<char>),
    /// An owned C string.
    CString(Seq<u8>),
    /// A C string that the caller keeps alive.
    CStr(Seq<u8>),
    /// Owned bytes, with no terminator.
    Bytes(Seq<u8>),
}

impl StringModel {
    /// C strings hold no NUL byte.
    pub open spec fn wf(self) -> bool {
        match self {
            StringModel::CString(c) => !has_nul(c),
            StringModel::CStr(c) => !has_nul(c),
            _ => true,
        }
    }

    /// The bytes of the string, without any terminator; `None` for `Null`.
    pub open spec fn content(self) -> Option<Seq<u8>> {
        match self {
            StringModel::Null => None,
            StringModel::String(s) => Some(encode_utf8(s)),
            StringModel::CString(c) => Some(c),
            StringModel::CStr(c) => Some(c),
            StringModel::Bytes(b) => Some(b),
        }
    }

    /// The number of heap buffers that the value owns.
    pub open spec fn allocations(self) -> nat {
        match self {
            StringModel::Null => 0,
            StringModel::CStr(_) => 0,
            _ => 1,
        }
    }

    /// The value after it was read as text: valid bytes have become text,
    /// everything else is as it was.
    pub open spec fn read_as_text(self) -> StringModel {
        match self {
            StringModel::Bytes(b) => if valid_utf8(b) {
                StringModel::String(decode_utf8(b))
            } else {
                self
            },
            _ => self,
        }
    }

    /// The value after it was read as a C string: text and bytes free of
    /// NUL bytes have become an owned C string, everything else is as it
    /// was.
    pub open spec fn read_as_c_string(self) -> StringModel {
        match self {
            StringModel::String(s) => if has_nul(encode_utf8(s)) {
                self
            } else {
                StringModel::CString(encode_utf8(s))
            },
            StringModel::Bytes(b) => if has_nul(b) {
                self
            } else {
                StringModel::CString(b)
            },
            _ => self,
        }
    }

    /// The value after text was turned into a C string: only text free of
    /// NUL bytes changes.
    pub open spec fn text_to_c_string(self) -> StringModel {
        match self {
            StringModel::String(s) => if has_nul(encode_utf8(s)) {
                self
            } else {
                StringModel::CString(encode_utf8(s))
            },
            _ => self,
        }
    }

    /// True when `r` is what reading the value as text gives: nothing for
    /// Null, the text that the content encodes where it is valid UTF-8, and
    /// otherwise the error with the length of the longest valid prefix.
    pub open spec fn text_is(self, r: Result<Option<Seq<char>>, InvalidUtf8Error>) -> bool {
        match r {
            Ok(None) => self is Null,
            Ok(Some(text)) => self.content() matches Some(b) && valid_utf8(b) && text
                == decode_utf8(b),
            Err(e) => self.content() matches Some(b) && !valid_utf8(b) && is_valid_up_to(
                b,
                e.valid_up_to as int,
            ),
        }
    }

    /// True when `r` is what reading the value as a C string gives: nothing
    /// for Null, the content followed by the terminator where the content
    /// holds no NUL byte, and otherwise the error.
    pub open spec fn c_string_is(self, r: Result<Option<Seq<u8>>, EmbeddedNulError>) -> bool {
        match r {
            Ok(None) => self is Null,
            Ok(Some(c)) => self.content() matches Some(b) && !has_nul(b) && c == b.push(0u8),
            Err(_) => self.content() matches Some(b) && has_nul(b),
        }
    }
}

/// The content was asked for as text and is not valid UTF-8.
#[derive(Clone, Copy, Debug, PartialEq, Eq)]
pub struct InvalidUtf8Error {
    /// The length of the longest prefix of the content that is valid UTF-8.
    pub valid_up_to: usize,
}

impl InvalidUtf8Error {
    /// The length of the longest prefix of the content that is valid UTF-8.
    pub fn valid_up_to(&self) -> (r: usize)
        ensures
            r == self.valid_up_to,
    {
        self.valid_up_to
    }

    /// The message that is reported for this error.
    pub fn message(&self) -> (r: String)
        ensures
            r@ == "value contains invalid UTF-8 bytes"@,
    {
        "value contains invalid UTF-8 bytes".to_owned()
    }
}

/// The content was asked for as a C string and holds a NUL byte.
#[derive(Clone, Copy, Debug, PartialEq, Eq)]
pub struct EmbeddedNulError;

impl EmbeddedNulError {
    /// The message that is reported for this error.
    pub fn message(&self) -> (r: String)
        ensures
            r@ == "value contains embedded NUL bytes"@,
    {
        "value contains embedded NUL bytes".to_owned()
    }
}

#[derive(Debug, PartialEq, Eq)]
enum Repr<'a> {
    Null,
    String(String),
    /// Content and terminator.
    CString(Vec<u8>),
    /// Content and terminator.
    CStr(&'a [u8]),
    Bytes(Vec<u8>),
}

/// A string that crosses the boundary: borrowed from the caller, owned, or
/// the Null value that stands for "no string".
///
/// The value accepts whatever it is given and converts, possibly with an
/// error, when it is read in another form. Reading may convert it in place,
/// which is why the readers take it by exclusive reference.
#[derive(Debug, PartialEq, Eq)]
pub struct TCString<'a> {
    repr: Repr<'a>,
}

impl<'a> View for TCString<'a> {
    type V = StringModel;

    closed spec fn view(&self) -> StringModel {
        match self.repr {
            Repr::Null => StringModel::Null,
            Repr::String(s) => StringModel::String(s@),
            Repr::CString(v) => StringModel::CString(v@.drop_last()),
            Repr::CStr(s) => StringModel::CStr(s@.drop_last()),
            Repr::Bytes(v) => StringModel::Bytes(v@),
        }
    }
}

/// Checks `bytes` with `std::str::from_utf8` and, on failure, reads the
/// error's `valid_up_to`. As std documents them: the bytes come back as text
/// exactly when they are valid UTF-8, and otherwise the number is the
/// largest index up to which they are.
#[verifier::external_body]
fn check_utf8(bytes: &[u8]) -> (r: Result<&str, usize>)
    ensures
        match r {
            Ok(s) => valid_utf8(bytes@) && s.spec_bytes() == bytes@,
            Err(n) => !valid_utf8(bytes@) && is_valid_up_to(bytes@, n as int),
        },
{
    match std::str::from_utf8(bytes) {
        Ok(s) => Ok(s),
        Err(e) => Err(e.valid_up_to()),
    }
}

impl<'a> TCString<'a> {
    #[verifier::type_invariant]
    spec fn inv(self) -> bool {
        match self.repr {
            Repr::CString(v) => is_c_string(v@),
            Repr::CStr(s) => is_c_string(s@),
            _ => true,
        }
    }

    /// The Null value.
    pub fn null() -> (r: Self)
        ensures
            r@ == StringModel::Null,
    {
        TCString { repr: Repr::Null }
    }

    /// Owned text.
    pub fn from_string(string: String) -> (r: Self)
        ensures
            r@ == StringModel::String(string@),
    {
        TCString { repr: Repr::String(string) }
    }

    /// Owned bytes, which may hold NUL bytes and need not be valid UTF-8.
    pub fn from_bytes(bytes: Vec<u8>) -> (r: Self)
        ensures
            r@ == StringModel::Bytes(bytes@),
    {
        TCString { repr: Repr::Bytes(bytes) }
    }

    /// True for the Null value only.
    pub fn is_null(&self) -> (r: bool)
        ensures
            r == (self@ is Null),
    {
        match &self.repr {
            Repr::Null => true,
            _ => false,
        }
    }

    /// The number of heap buffers that the value owns.
    pub fn allocations(&self) -> (r: usize)
        ensures
            r == self@.allocations(),
    {
        match &self.repr {
            Repr::Null => 0,
            Repr::CStr(_) => 0,
            _ => 1,
        }
    }

    /// The bytes of the string, without any terminator. Every variant has
    /// bytes, so this neither changes the value nor fails; Null gives `None`.
    pub fn as_bytes(&self) -> (r: Option<&[u8]>)
        ensures
            self@.wf(),
            match r {
                Some(b) => self@.content() == Some(b@),
                None => self@ is Null,
            },
    {
        proof {
            use_type_invariant(self);
        }
        match &self.repr {
            Repr::Null => None,
            Repr::String(s) => Some(s.as_str().as_bytes()),
            Repr::CString(v) => Some(slice_subrange(v.as_slice(), 0, v.len() - 1)),
            Repr::CStr(s) => Some(slice_subrange(*s, 0, s.len() - 1)),
            Repr::Bytes(v) => Some(v.as_slice()),
        }
    }

    /// Turns owned text that holds no NUL byte into an owned C string, in
    /// place, by appending the terminator. Any other value is left as it is.
    pub fn string_to_cstring(&mut self)
        ensures
            final(self)@ == old(self)@.text_to_c_string(),
    {
        let converted = match &self.repr {
            Repr::String(s) => {
                let bytes = s.as_str().as_bytes();
                if contains_nul(bytes) {
                    None
                } else {
                    Some(terminated(bytes))
                }
            },
            _ => None,
        };
        if let Some(v) = converted {
            self.repr = Repr::CString(v);
        }
    }

    /// Turns owned bytes that hold no NUL byte into an owned C string, in
    /// place, by appending the terminator. Any other value is left as it is.
    fn bytes_to_cstring(&mut self)
        ensures
            final(self)@ == (match old(self)@ {
                StringModel::Bytes(_) => old(self)@.read_as_c_string(),
                _ => old(self)@,
            }),
    {
        let converted = match &self.repr {
            Repr::Bytes(b) => {
                if contains_nul(b.as_slice()) {
                    None
                } else {
                    Some(terminated(b.as_slice()))
                }
            },
            _ => None,
        };
        if let Some(v) = converted {
            self.repr = Repr::CString(v);
        }
    }

    /// Turns owned bytes that are valid UTF-8 into owned text, in place.
    /// Bytes that are not valid give the error and stay; any other value is
    /// left as it is.
    fn bytes_to_string(&mut self) -> (r: Result<(), InvalidUtf8Error>)
        ensures
            final(self)@ == old(self)@.read_as_text(),
            match r {
                Ok(()) => old(self)@ matches StringModel::Bytes(b) ==> valid_utf8(b),
                Err(e) => old(self)@ matches StringModel::Bytes(b) && !valid_utf8(b)
                    && is_valid_up_to(b, e.valid_up_to as int),
            },
    {
        let converted = match &self.repr {
            Repr::Bytes(b) => match check_utf8(b.as_slice()) {
                Ok(s) => {
                    proof {
                        encode_utf8_decode_utf8(s@);
                    }
                    Some(s.to_owned())
                },
                Err(n) => {
                    return Err(InvalidUtf8Error { valid_up_to: n });
                },
            },
            _ => None,
        };
        if let Some(string) = converted {
            self.repr = Repr::String(string);
        }
        Ok(())
    }

    /// Reads the value as text. Owned bytes that are valid UTF-8 are turned
    /// into owned text in place; nothing else changes the value. Content
    /// that is not valid UTF-8 gives the error, which says how long the
    /// valid prefix is. Null gives `Ok(None)`.
    pub fn as_str(&mut self) -> (r: Result<Option<&str>, InvalidUtf8Error>)
        ensures
            final(self)@ == old(self)@.read_as_text(),
            old(self)@.text_is(
                match r {
                    Ok(Some(s)) => Ok(Some(s@)),
                    Ok(None) => Ok(None),
                    Err(e) => Err(e),
                },
            ),
    {
        broadcast use {encode_utf8_valid_utf8, encode_utf8_decode_utf8};

        proof {
            use_type_invariant(&*self);
        }
        match self.bytes_to_string() {
            Ok(()) => {},
            Err(e) => {
                return Err(e);
            },
        }
        proof {
            use_type_invariant(&*self);
        }
        match &self.repr {
            Repr::Null => Ok(None),
            Repr::String(s) => Ok(Some(s.as_str())),
            Repr::CString(v) => match text_of(slice_subrange(v.as_slice(), 0, v.len() - 1)) {
                Ok(s) => Ok(Some(s)),
                Err(e) => Err(e),
            },
            Repr::CStr(s) => match text_of(slice_subrange(*s, 0, s.len() - 1)) {
                Ok(s) => Ok(Some(s)),
                Err(e) => Err(e),
            },
            Repr::Bytes(_) => Ok(None),
        }
    }

    /// Reads the value as a C string: the content followed by its
    /// terminator. Owned text and owned bytes that hold no NUL byte are
    /// turned into an owned C string in place; nothing else changes the
    /// value. Content that holds a NUL byte gives the error. Null gives
    /// `Ok(None)`.
    pub fn as_cstr(&mut self) -> (r: Result<Option<&[u8]>, EmbeddedNulError>)
        ensures
            final(self)@ == old(self)@.read_as_c_string(),
            old(self)@.c_string_is(
                match r {
                    Ok(Some(c)) => Ok(Some(c@)),
                    Ok(None) => Ok(None),
                    Err(e) => Err(e),
                },
            ),
    {
        proof {
            use_type_invariant(&*self);
        }
        self.string_to_cstring();
        self.bytes_to_cstring();
        proof {
            use_type_invariant(&*self);
        }
        match &self.repr {
            Repr::Null => Ok(None),
            Repr::CString(v) => {
                assert(v@ =~= v@.drop_last().push(0u8));
                Ok(Some(v.as_slice()))
            },
            Repr::CStr(s) => {
                assert(s@ =~= s@.drop_last().push(0u8));
                Ok(Some(*s))
            },
            _ => Err(EmbeddedNulError),
        }
    }

    /// Gives the value up as owned text. Content that is not valid UTF-8
    /// gives the error, and the value is lost. Null gives `Ok(None)`.
    pub fn into_string(self) -> (r: Result<Option<String>, InvalidUtf8Error>)
        ensures
            self@.text_is(
                match r {
                    Ok(Some(s)) => Ok(Some(s@)),
                    Ok(None) => Ok(None),
                    Err(e) => Err(e),
                },
            ),
    {
        broadcast use {encode_utf8_valid_utf8, encode_utf8_decode_utf8};

        proof {
            use_type_invariant(&self);
        }
        match self.repr {
            Repr::Null => Ok(None),
            Repr::String(s) => Ok(Some(s)),
            Repr::CString(v) => match text_of(slice_subrange(v.as_slice(), 0, v.len() - 1)) {
                Ok(s) => Ok(Some(s.to_owned())),
                Err(e) => Err(e),
            },
            Repr::CStr(b) => match text_of(slice_subrange(b, 0, b.len() - 1)) {
                Ok(s) => Ok(Some(s.to_owned())),
                Err(e) => Err(e),
            },
            Repr::Bytes(v) => match text_of(v.as_slice()) {
                Ok(s) => Ok(Some(s.to_owned())),
                Err(e) => Err(e),
            },
        }
    }
}

/// True when some byte of `bytes` is the NUL byte.
pub fn contains_nul(bytes: &[u8]) -> (r: bool)
    ensures
        r == has_nul(bytes@),
{
    let mut i: usize = 0;
    while i < bytes.len()
        invariant
            i <= bytes.len(),
            forall|j: int| 0 <= j < i ==> bytes@[j] != 0u8,
        decreases bytes.len() - i,
    {
        if bytes[i] == 0u8 {
            return true;
        }
        i = i + 1;
    }
    false
}

/// A copy of `bytes` with the NUL terminator appended.
fn terminated(bytes: &[u8]) -> (r: Vec<u8>)
    ensures
        r@ == bytes@.push(0u8),
        r@.drop_last() == bytes@,
        !has_nul(bytes@) ==> is_c_string(r@),
{
    let mut v = slice_to_vec(bytes);
    v.push(0u8);
    assert(v@.drop_last() =~= bytes@);
    v
}

/// The text that `bytes` encode, or the error that says where they stop
/// being valid UTF-8.
fn text_of(bytes: &[u8]) -> (r: Result<&str, InvalidUtf8Error>)
    ensures
        match r {
            Ok(s) => valid_utf8(bytes@) && s@ == decode_utf8(bytes@),
            Err(e) => !valid_utf8(bytes@) && is_valid_up_to(bytes@, e.valid_up_to as int),
        },
{
    match check_utf8(bytes) {
        Ok(s) => {
            proof {
                encode_utf8_decode_utf8(s@);
            }
            Ok(s)
        },
        Err(n) => Err(InvalidUtf8Error { valid_up_to: n }),
    }
}

/// A position that no NUL byte precedes, and that is the end of `bytes` or
/// holds a NUL byte, is the length of the C string.
proof fn lemma_c_str_len_is(bytes: Seq<u8>, n: int)
    requires
        0 <= n <= bytes.len(),
        forall|j: int| 0 <= j < n ==> bytes[j] != 0u8,
        n < bytes.len() ==> bytes[n] == 0u8,
    ensures
        c_str_len(bytes) == n,
    decreases n,
{
    if n > 0 {
        let rest = bytes.skip(1);
        assert forall|j: int| 0 <= j < n - 1 implies rest[j] != 0u8 by {
            assert(rest[j] == bytes[j + 1]);
        }
        lemma_c_str_len_is(rest, n - 1);
    }
}

/// The length of the C string that starts at the beginning of `bytes`.
pub fn c_strlen(bytes: &[u8]) -> (n: usize)
    ensures
        n == c_str_len(bytes@),
        n <= bytes@.len(),
{
    let mut i: usize = 0;
    while i < bytes.len() && bytes[i] != 0u8
        invariant
            i <= bytes.len(),
            forall|j: int| 0 <= j < i ==> bytes@[j] != 0u8,
        decreases bytes.len() - i,
    {
        i = i + 1;
    }
    proof {
        lemma_c_str_len_is(bytes@, i as int);
    }
    i
}

/// A string that points to the C string at the beginning of `cstr`, which
/// has to hold its terminator. The borrow keeps the C string alive and
/// unchanged for as long as the string lives.
pub fn tc_string_borrow<'a>(cstr: &'a [u8]) -> (r: TCString<'a>)
    requires
        has_nul(cstr@),
    ensures
        r@ == StringModel::CStr(c_str_content(cstr@)),
{
    let n = c_strlen(cstr);
    proof {
        lemma_c_str_len(cstr@);
    }
    assert(n < cstr.len());
    let held = slice_subrange(cstr, 0, n + 1);
    assert(held@.drop_last() =~= c_str_content(cstr@));
    TCString { repr: Repr::CStr(held) }
}

/// The Null string. It is a value of its own, not the zero value.
pub fn tc_string_null() -> (r: TCString<'static>)
    ensures
        r@ == StringModel::Null,
{
    TCString::null()
}

/// A string that owns a copy of the C string at the beginning of `cstr`:
/// the bytes before the first NUL byte, or all of them where there is none.
/// The result is independent of `cstr`.
pub fn tc_string_clone(cstr: &[u8]) -> (r: TCString<'static>)
    ensures
        r@ == StringModel::CString(c_str_content(cstr@)),
{
    let n = c_strlen(cstr);
    proof {
        lemma_c_str_len(cstr@);
    }
    let copy = terminated(slice_subrange(cstr, 0, n));
    TCString { repr: Repr::CString(copy) }
}

/// A string that owns a copy of the first `size` bytes of `cstr`, NUL bytes
/// included. `size` does not count any terminator. The result is
/// independent of `cstr`.
pub fn tc_string_clone_with_len(cstr: &[u8], size: usize) -> (r: TCString<'static>)
    requires
        size <= cstr@.len(),
        size < isize::MAX,
    ensures
        r@ == StringModel::Bytes(cstr@.take(size as int)),
{
    let copy = slice_to_vec(slice_subrange(cstr, 0, size));
    TCString { repr: Repr::Bytes(copy) }
}

/// The content as a C string, terminator included, or `None` for the Null
/// string and for content that holds a NUL byte. The string may be turned
/// into an owned C string in place. The result lives until the string is
/// next changed or freed.
pub fn tc_string_content<'s, 'a>(tcstring: &'s mut TCString<'a>) -> (r: Option<&'s [u8]>)
    ensures
        final(tcstring)@ == old(tcstring)@.read_as_c_string(),
        match r {
            Some(c) => old(tcstring)@.c_string_is(Ok(Some(c@))),
            None => old(tcstring)@.c_string_is(Ok(None)) || old(tcstring)@.c_string_is(
                Err(EmbeddedNulError),
            ),
        },
{
    match tcstring.as_cstr() {
        Ok(Some(c)) => Some(c),
        _ => None,
    }
}

/// The content as bytes, and its length in `len_out`. This gives any
/// string, also one with NUL bytes or invalid UTF-8, and does not change it.
/// The Null string gives `None` and the length 0.
pub fn tc_string_content_with_len<'s, 'a>(
    tcstring: &'s mut TCString<'a>,
    len_out: &mut usize,
) -> (r: Option<&'s [u8]>)
    ensures
        *final(tcstring) == *old(tcstring),
        match r {
            Some(b) => old(tcstring)@.content() == Some(b@) && *final(len_out) == b@.len(),
            None => old(tcstring)@ is Null && *final(len_out) == 0,
        },
{
    let shared: &'s TCString<'a> = tcstring;
    match shared.as_bytes() {
        Some(bytes) => {
            *len_out = bytes.len();
            Some(bytes)
        },
        None => {
            *len_out = 0;
            None
        },
    }
}

/// True for the Null string, and for `None`, which stands for a NULL
/// pointer and is read as the Null string.
pub fn tc_string_is_null(tcstring: Option<&TCString>) -> (r: bool)
    ensures
        r == match tcstring {
            Some(s) => s@ is Null,
            None => true,
        },
{
    match tcstring {
        Some(s) => s.is_null(),
        None => true,
    }
}

/// Frees the string: what it owned is released, and the Null string is
/// left in its place. Freeing a Null string does nothing.
pub fn tc_string_free(tcstring: &mut TCString)
    ensures
        final(tcstring)@ == StringModel::Null,
{
    let mut taken = TCString::null();
    std::mem::swap(tcstring, &mut taken);
}

/// A list of strings as the foreign side sees it: the number of strings, a
/// capacity that is for internal accounting only, and the pointer to the
/// strings. The list owns its strings. The pointer of a list in use is never
/// NULL; a freed list has the NULL pointer and no length.
#[derive(Debug, PartialEq, Eq)]
pub struct TCStringList {
    /// The number of strings in `items`.
    len: usize,
    /// The total size of `items`.
    capacity: usize,
    /// The strings; `None` is the NULL pointer.
    items: Option<Vec<TCString<'static>>>,
}

impl TCStringList {
    /// The number of strings in the list.
    pub fn len(&self) -> (r: usize)
        ensures
            r == self.spec_len(),
    {
        self.len
    }

    /// The capacity that the list was made with.
    pub fn capacity(&self) -> (r: usize)
        ensures
            r == self.spec_capacity(),
    {
        self.capacity
    }

    /// True when the pointer to the strings is NULL.
    pub fn items_is_null(&self) -> (r: bool)
        ensures
            r == (self.spec_items() is None),
    {
        self.items.is_none()
    }
}

impl CList for TCStringList {
    type Element = TCString<'static>;

    closed spec fn spec_items(&self) -> Option<Seq<TCString<'static>>> {
        parts_items(self.items)
    }

    closed spec fn spec_len(&self) -> nat {
        self.len as nat
    }

    closed spec fn spec_capacity(&self) -> nat {
        self.capacity as nat
    }

    fn from_raw_parts(items: Option<Vec<TCString<'static>>>, len: usize, cap: usize) -> (r: Self) {
        TCStringList { len, capacity: cap, items }
    }

    fn slice(&mut self) -> (r: &mut [TCString<'static>]) {
        self.items.as_mut().unwrap().as_mut_slice()
    }

    fn into_raw_parts(self) -> (r: (Option<Vec<TCString<'static>>>, usize, usize)) {
        (self.items, self.len, self.capacity)
    }
}

/// Frees a list of strings: takes the list out of its slot, leaving the
/// freed list there, then frees each string in order, and last releases the
/// buffer. The list must be in use, so it cannot be freed twice. The result
/// is the sequence of the strings in the order in which they were freed: each
/// string of the list, once.
pub fn tc_string_list_free(tcstrings: &mut TCStringList) -> (freed: Ghost<Seq<TCString<'static>>>)
    requires
        list_in_use(old(tcstrings)),
    ensures
        Some(freed@) == old(tcstrings).spec_items(),
        list_freed(final(tcstrings)),
{
    let null_vec = TCStringList::from_raw_parts(None, 0, 0);
    let vec = TCStringList::take_val_from_arg(tcstrings, null_vec);
    let ghost items = vec@;
    assert(old(tcstrings).spec_items()->0 == items);
    let ghost mut freed: Seq<TCString<'static>> = Seq::empty();
    // first, free each of the elements in turn
    for e in it: vec.into_iter()
        invariant
            it.seq() == items,
            freed == items.take(it.index() as int),
    {
        proof {
            freed = freed.push(e);
        }
        let mut e = e;
        tc_string_free(&mut e);
    }
    // then the buffer, which went with the iterator
    Ghost(freed)
}

/// Reading a string in another form may change how it is held, never what
/// it holds: the content stays, a C string stays free of NUL bytes, and
/// the Null string stays Null.
pub proof fn lemma_reading_keeps_content(m: StringModel)
    ensures
        m.read_as_text().content() == m.content(),
        m.read_as_c_string().content() == m.content(),
        m.text_to_c_string().content() == m.content(),
        m.wf() ==> m.read_as_text().wf() && m.read_as_c_string().wf() && m.text_to_c_string().wf(),
{
    broadcast use {encode_utf8_valid_utf8, decode_utf8_encode_utf8};

}

/// Reading a string as text gives one result only.
pub proof fn lemma_text_is_unique(
    m: StringModel,
    r1: Result<Option<Seq<char>>, InvalidUtf8Error>,
    r2: Result<Option<Seq<char>>, InvalidUtf8Error>,
)
    requires
        m.text_is(r1),
        m.text_is(r2),
    ensures
        r1 == r2,
{
}

/// A string whose content is valid UTF-8 is read as text without loss:
/// whatever form it is held in, the text that comes out encodes to exactly
/// the bytes that went in, and reading has left the content as it was.
pub proof fn lemma_text_round_trip(
    m: StringModel,
    bytes: Seq<u8>,
    r: Result<Option<Seq<char>>, InvalidUtf8Error>,
)
    requires
        m.content() == Some(bytes),
        valid_utf8(bytes),
        m.text_is(r),
    ensures
        r == Ok::<_, InvalidUtf8Error>(Some(decode_utf8(bytes))),
        encode_utf8(decode_utf8(bytes)) == bytes,
        m.read_as_text().content() == Some(bytes),
{
    broadcast use {encode_utf8_valid_utf8, decode_utf8_encode_utf8};

}

/// A string that was cloned with a length holds exactly the bytes that
/// it was given, NUL bytes included, and as many as the length says. Where
/// these are not valid UTF-8, reading the string as text fails and leaves it
/// as it was.
pub proof fn lemma_bytes_round_trip(
    bytes: Seq<u8>,
    size: int,
    r: Result<Option<Seq<char>>, InvalidUtf8Error>,
)
    requires
        0 <= size <= bytes.len(),
        StringModel::Bytes(bytes.take(size)).text_is(r),
    ensures
        StringModel::Bytes(bytes.take(size)).content() == Some(bytes.take(size)),
        bytes.take(size).len() == size,
        !valid_utf8(bytes.take(size)) ==> r is Err && StringModel::Bytes(
            bytes.take(size),
        ).read_as_text() == StringModel::Bytes(bytes.take(size)),
{
}

/// The Null string is the one string without content. No string that was
/// borrowed or cloned is Null, whatever bytes it was made from.
pub proof fn lemma_null_only(m: StringModel, bytes: Seq<u8>, size: int)
    ensures
        m is Null <==> m.content() is None,
        !(StringModel::CStr(c_str_content(bytes)) is Null),
        !(StringModel::CString(c_str_content(bytes)) is Null),
        !(StringModel::Bytes(bytes.take(size)) is Null),
{
}

/// A string that was borrowed or cloned from a C string is well formed,
/// and is read as a C string without error: what comes out is the content
/// with its terminator.
pub proof fn lemma_c_string_round_trip(bytes: Seq<u8>)
    ensures
        StringModel::CStr(c_str_content(bytes)).wf(),
        StringModel::CString(c_str_content(bytes)).wf(),
        StringModel::CStr(c_str_content(bytes)).c_string_is(
            Ok(Some(c_str_content(bytes).push(0u8))),
        ),
        StringModel::CString(c_str_content(bytes)).c_string_is(
            Ok(Some(c_str_content(bytes).push(0u8))),
        ),
{
    lemma_c_str_len(bytes);
}

} // verus!
