//! A small owned, immutable string type with an inline storage mode.

use std::borrow::Cow;
use vstd::prelude::*;
use vstd::string::StringSliceAdditionalSpecFns;
use vstd::utf8::*;

verus! {

broadcast use {encode_utf8_decode_utf8, decode_utf8_encode_utf8, encode_utf8_valid_utf8};

/// Bytes of the inline region that share a 64-bit word with the length
/// byte. In heap mode they cache the first bytes of the heap buffer.
pub const PREFIX_LEN: usize = 7;

/// Bytes of the inline region that take the place of the heap pointer, one
/// 64-bit word.
pub const SUFFIX_LEN: usize = 8;

/// The longest content, in bytes, that is stored without a heap allocation.
pub const INLINE_LEN: usize = PREFIX_LEN + SUFFIX_LEN;

/// A very small owned, immutable string type.
///
/// The content is valid UTF-8 of at most 255 bytes; its length is kept in a
/// single byte. Content of at most `INLINE_LEN` bytes lives in the inline
/// region (the prefix, then the suffix), and no heap memory is used. Longer
/// content lives in a heap buffer of exactly its length, owned as a
/// `Box<str>`, which also frees it with the layout it was allocated with; its
/// first `PREFIX_LEN` bytes are mirrored in the prefix. The storage mode is
/// decided by the length alone, never by a separate tag. Unused inline bytes
/// are zero, so equal content always has the same representation.
///
/// Written in safe Rust, this form does not keep the two-word size of a
/// layout that overlays the inline suffix with a thin heap pointer: the
/// inline region and the `Box<str>` sit side by side, 32 bytes on a 64-bit
/// target. For the same reason `as_str` checks inline content (at most
/// `INLINE_LEN` bytes) for UTF-8 validity as it reads it.
#[derive(Debug)]
pub struct TinyBoxedStr {
    len: u8,
    inline: [u8; INLINE_LEN],
    heap: Box<str>,
}

/// Whether content of `len` bytes is stored inline.
pub open spec fn stored_inline(len: int) -> bool {
    len <= INLINE_LEN
}

/// Whether `text` is short enough, in UTF-8 bytes, to be held by a
/// `TinyBoxedStr`.
pub open spec fn fits(text: Seq<char>) -> bool {
    encode_utf8(text).len() <= TinyBoxedStr::MAX_LEN
}

impl TinyBoxedStr {
    /// The longest content, in bytes, that the type can hold.
    pub const MAX_LEN: usize = 255;

    /// The bytes of the content, as the representation holds them.
    closed spec fn content(&self) -> Seq<u8> {
        if stored_inline(self.len as int) {
            self.inline@.subrange(0, self.len as int)
        } else {
            self.heap.spec_bytes()
        }
    }

    /// The length byte matches valid UTF-8 content, stored as its mode asks.
    #[verifier::type_invariant]
    closed spec fn well_formed(&self) -> bool {
        &&& self.content().len() == self.len
        &&& valid_utf8(self.content())
        &&& if stored_inline(self.len as int) {
            &&& self.heap@.len() == 0
            &&& forall|i: int| self.len <= i < INLINE_LEN ==> self.inline@[i] == 0
        } else {
            &&& forall|i: int| 0 <= i < PREFIX_LEN ==> self.inline@[i] == self.content()[i]
            &&& forall|i: int| PREFIX_LEN <= i < INLINE_LEN ==> self.inline@[i] == 0
        }
    }

    /// The length of the content in bytes.
    pub fn len(&self) -> (r: usize)
        ensures
            r == self.spec_len(),
            r <= Self::MAX_LEN,
    {
        proof { use_type_invariant(self); }
        self.len as usize
    }

    /// Whether the content is empty.
    pub fn is_empty(&self) -> (r: bool)
        ensures
            r == (self@.len() == 0),
    {
        proof { use_type_invariant(self); }
        self.len == 0
    }

    /// Whether the content is stored inline, without a heap allocation.
    pub fn is_inline(&self) -> (r: bool)
        ensures
            r == stored_inline(self.spec_len() as int),
    {
        proof { use_type_invariant(self); }
        self.len as usize <= INLINE_LEN
    }

    /// The UTF-8 bytes of the content.
    pub fn as_bytes(&self) -> (r: &[u8])
        ensures
            r@ == encode_utf8(self@),
    {
        proof { use_type_invariant(self); }
        if self.len as usize <= INLINE_LEN {
            &self.inline[0..self.len as usize]
        } else {
            self.heap.as_bytes()
        }
    }

    /// The content as a string slice.
    pub fn as_str(&self) -> (r: &str)
        ensures
            r@ == self@,
    {
        proof { use_type_invariant(self); }
        if self.len as usize <= INLINE_LEN {
            match str_from_utf8(&self.inline[0..self.len as usize]) {
                Some(s) => s,
                None => {
                    proof { assert(false); }
                    ""
                }
            }
        } else {
            &self.heap
        }
    }

    /// Builds an inline instance: the bytes are copied into a zeroed inline
    /// region.
    fn from_inline_bytes(bytes: &[u8]) -> (r: Self)
        requires
            bytes@.len() <= INLINE_LEN,
            valid_utf8(bytes@),
        ensures
            r@ == decode_utf8(bytes@),
    {
        let n = bytes.len();
        let mut inline = [0u8; INLINE_LEN];
        let mut i: usize = 0;
        while i < n
            invariant
                n == bytes@.len() <= INLINE_LEN,
                i <= n,
                forall|j: int| 0 <= j < i ==> inline@[j] == bytes@[j],
                forall|j: int| n <= j < INLINE_LEN ==> inline@[j] == 0,
            decreases n - i,
        {
            inline[i] = bytes[i];
            i = i + 1;
        }
        assert(inline@.subrange(0, n as int) =~= bytes@);
        TinyBoxedStr { len: n as u8, inline, heap: into_boxed(String::new()) }
    }

    /// Builds a heap instance that owns `heap`, and mirrors its first
    /// `PREFIX_LEN` bytes in the inline region.
    fn from_boxed(heap: Box<str>) -> (r: Self)
        requires
            INLINE_LEN < heap.spec_bytes().len() <= Self::MAX_LEN,
        ensures
            r@ == heap@,
    {
        let bytes = heap.as_bytes();
        let n = bytes.len();
        let mut inline = [0u8; INLINE_LEN];
        let mut i: usize = 0;
        while i < PREFIX_LEN
            invariant
                bytes@ == heap.spec_bytes(),
                PREFIX_LEN < bytes@.len(),
                i <= PREFIX_LEN,
                forall|j: int| 0 <= j < i ==> inline@[j] == bytes@[j],
                forall|j: int| PREFIX_LEN <= j < INLINE_LEN ==> inline@[j] == 0,
            decreases PREFIX_LEN - i,
        {
            inline[i] = bytes[i];
            i = i + 1;
        }
        TinyBoxedStr { len: n as u8, inline, heap }
    }

    /// The byte length of the content.
    pub open spec fn spec_len(&self) -> nat {
        encode_utf8(self@).len()
    }
}

/// The error of every construction path: the content is longer than
/// `TinyBoxedStr::MAX_LEN` bytes.
#[derive(Debug, Clone, Copy, PartialEq, Eq)]
pub struct TooLongError;

impl TooLongError {
    /// The message that describes the error.
    pub fn message(&self) -> (r: String)
        ensures
            r@ == "string was too long to be stored as a `TinyBoxedStr` (max 256 bytes)"@,
    {
        String::from_str("string was too long to be stored as a `TinyBoxedStr` (max 256 bytes)")
    }
}

/// Relies on `std::str::from_utf8`: it succeeds exactly on valid UTF-8, and
/// the string it returns holds the given bytes.
#[verifier::external_body]
fn str_from_utf8(bytes: &[u8]) -> (r: Option<&str>)
    ensures
        r.is_some() == valid_utf8(bytes@),
        r matches Some(s) ==> s.spec_bytes() == bytes@,
{
    std::str::from_utf8(bytes).ok()
}

/// Relies on `String::into_boxed_str`: the boxed string holds the same text,
/// in an allocation of exactly its length.
#[verifier::external_body]
fn into_boxed(s: String) -> (r: Box<str>)
    ensures
        r@ == s@,
{
    s.into_boxed_str()
}

// The outcome is stated by the `ensures` of `try_from` itself, over the
// view, and not as one exact value.
impl vstd::std_specs::convert::TryFromSpecImpl<&str> for TinyBoxedStr {
    open spec fn obeys_try_from_spec() -> bool {
        false
    }

    open spec fn try_from_spec(v: &str) -> Result<Self, TooLongError> {
        Err(TooLongError)
    }
}

impl TryFrom<&str> for TinyBoxedStr {
    type Error = TooLongError;

    /// Copies `s` into a new instance, or fails where it is longer than
    /// `MAX_LEN` bytes.
    fn try_from(s: &str) -> (r: Result<Self, TooLongError>)
        ensures
            r is Ok <==> fits(s@),
            r matches Ok(t) ==> t@ == s@,
    {
        let bytes = s.as_bytes();
        let n = bytes.len();
        if n > Self::MAX_LEN {
            return Err(TooLongError);
        }
        if n <= INLINE_LEN {
            Ok(Self::from_inline_bytes(bytes))
        } else {
            Ok(Self::from_boxed(into_boxed(s.to_owned())))
        }
    }
}

// The outcome is stated by the `ensures` of `try_from` itself, over the
// view, and not as one exact value.
impl vstd::std_specs::convert::TryFromSpecImpl<String> for TinyBoxedStr {
    open spec fn obeys_try_from_spec() -> bool {
        false
    }

    open spec fn try_from_spec(v: String) -> Result<Self, TooLongError> {
        Err(TooLongError)
    }
}

impl TryFrom<String> for TinyBoxedStr {
    type Error = TooLongError;

    /// Takes `s` into a new instance, or fails where it is longer than
    /// `MAX_LEN` bytes. Heap content reuses the buffer of `s` where its
    /// capacity equals its length.
    fn try_from(s: String) -> (r: Result<Self, TooLongError>)
        ensures
            r is Ok <==> fits(s@),
            r matches Ok(t) ==> t@ == s@,
    {
        let n = s.as_str().as_bytes().len();
        if n <= INLINE_LEN {
            return Self::try_from(s.as_str());
        }
        if n > Self::MAX_LEN {
            return Err(TooLongError);
        }
        Ok(Self::from_boxed(into_boxed(s)))
    }
}

// The outcome is stated by the `ensures` of `try_from` itself, over the
// view, and not as one exact value.
impl vstd::std_specs::convert::TryFromSpecImpl<Cow<'_, str>> for TinyBoxedStr {
    open spec fn obeys_try_from_spec() -> bool {
        false
    }

    open spec fn try_from_spec(v: Cow<'_, str>) -> Result<Self, TooLongError> {
        Err(TooLongError)
    }
}

impl TryFrom<Cow<'_, str>> for TinyBoxedStr {
    type Error = TooLongError;

    /// Builds an instance from a borrowed or owned string.
    fn try_from(s: Cow<'_, str>) -> (r: Result<Self, TooLongError>)
        ensures
            r is Ok <==> fits(s@),
            r matches Ok(t) ==> t@ == s@,
    {
        match s {
            Cow::Borrowed(b) => Self::try_from(b),
            Cow::Owned(o) => Self::try_from(o),
        }
    }
}

impl Clone for TinyBoxedStr {
    /// A fresh instance with the same content; heap content is copied into
    /// a new allocation.
    fn clone(&self) -> (r: Self)
        ensures
            r@ == self@,
    {
        proof { use_type_invariant(self); }
        if self.len as usize <= INLINE_LEN {
            TinyBoxedStr { len: self.len, inline: self.inline, heap: into_boxed(String::new()) }
        } else {
            let heap = into_boxed(self.as_str().to_owned());
            TinyBoxedStr { len: self.len, inline: self.inline, heap }
        }
    }
}

impl Default for TinyBoxedStr {
    /// The empty string, stored inline.
    fn default() -> (r: Self)
        ensures
            r@.len() == 0,
    {
        let r = TinyBoxedStr { len: 0, inline: [0u8; INLINE_LEN], heap: into_boxed(String::new()) };
        assert(r.inline@.subrange(0, 0) =~= Seq::<u8>::empty());
        r
    }
}

/// Whether two byte slices hold the same bytes.
fn bytes_equal(a: &[u8], b: &[u8]) -> (r: bool)
    ensures
        r == (a@ == b@),
{
    if a.len() != b.len() {
        return false;
    }
    let mut i: usize = 0;
    while i < a.len()
        invariant
            a@.len() == b@.len(),
            i <= a@.len(),
            forall|j: int| 0 <= j < i ==> a@[j] == b@[j],
        decreases a@.len() - i,
    {
        if a[i] != b[i] {
            return false;
        }
        i = i + 1;
    }
    assert(a@ =~= b@);
    true
}

impl PartialEq for TinyBoxedStr {
    /// Compares the content, whatever the storage mode.
    fn eq(&self, other: &Self) -> (r: bool)
        ensures
            r == (self@ == other@),
    {
        let r = bytes_equal(self.as_bytes(), other.as_bytes());
        proof {
            if r {
                assert(decode_utf8(encode_utf8(self@)) == decode_utf8(encode_utf8(other@)));
            }
        }
        r
    }
}

impl vstd::std_specs::cmp::PartialEqSpecImpl for TinyBoxedStr {
    open spec fn obeys_eq_spec() -> bool {
        true
    }

    open spec fn eq_spec(&self, other: &Self) -> bool {
        self@ == other@
    }
}

impl Eq for TinyBoxedStr {}

impl PartialEq<str> for TinyBoxedStr {
    /// Compares the content with a string slice.
    fn eq(&self, other: &str) -> (r: bool)
        ensures
            r == (self@ == other@),
    {
        let r = bytes_equal(self.as_bytes(), other.as_bytes());
        proof {
            if r {
                assert(decode_utf8(encode_utf8(self@)) == decode_utf8(encode_utf8(other@)));
            }
        }
        r
    }
}

impl vstd::std_specs::cmp::PartialEqSpecImpl<str> for TinyBoxedStr {
    open spec fn obeys_eq_spec() -> bool {
        true
    }

    open spec fn eq_spec(&self, other: &str) -> bool {
        self@ == other@
    }
}

/// Relies on `<str as Hash>::hash`: feeds the string into `state`.
#[verifier::external_body]
fn hash_str<H: std::hash::Hasher>(s: &str, state: &mut H) {
    <str as std::hash::Hash>::hash(s, state)
}

impl std::hash::Hash for TinyBoxedStr {
    /// Hashes the content as the `str` it holds, so that lookups through
    /// `Borrow<str>` find the same entries.
    fn hash<H: std::hash::Hasher>(&self, state: &mut H) {
        hash_str(self.as_str(), state)
    }
}

impl std::borrow::Borrow<str> for TinyBoxedStr {
    fn borrow(&self) -> (r: &str)
        ensures
            <str as View>::view(r) == self@,
    {
        self.as_str()
    }
}

impl AsRef<str> for TinyBoxedStr {
    fn as_ref(&self) -> (r: &str)
        ensures
            r@ == self@,
    {
        self.as_str()
    }
}

impl View for TinyBoxedStr {
    type V = Seq<char>;

    closed spec fn view(&self) -> Seq<char> {
        decode_utf8(self.content())
    }
}

} // verus!
