use std::borrow::{Borrow, Cow};
use std::collections::hash_map::DefaultHasher;
use std::collections::HashSet;
use std::hash::{Hash, Hasher};

use tiny_boxed_str::{str_concat, TinyBoxedStr, TooLongError, INLINE_LEN};

fn hash_of<T: Hash + ?Sized>(value: &T) -> u64 {
    let mut hasher = DefaultHasher::new();
    value.hash(&mut hasher);
    hasher.finish()
}

#[test]
fn empty_string_round_trips() {
    let s = TinyBoxedStr::try_from("").unwrap();
    assert_eq!(s.as_str(), "");
    assert_eq!(s.len(), 0);
    assert!(s.is_empty());
    assert!(s.is_inline());
}

#[test]
fn short_string_round_trips() {
    let s = TinyBoxedStr::try_from("hello").unwrap();
    assert_eq!(s.as_str(), "hello");
    assert_eq!(s.as_bytes(), b"hello");
    assert_eq!(s.len(), 5);
    assert!(!s.is_empty());
    assert!(s.is_inline());
}

#[test]
fn inline_threshold_is_fifteen_bytes() {
    assert_eq!(INLINE_LEN, 15);
}

#[test]
fn boundary_lengths_round_trip() {
    for n in [14usize, 15, 16] {
        let text: String = "abcdefghijklmnopqrstuvwxyz"[..n].to_string();
        let s = TinyBoxedStr::try_from(text.as_str()).unwrap();
        assert_eq!(s.as_str(), text);
        assert_eq!(s.len(), n);
        assert_eq!(s.is_inline(), n <= INLINE_LEN);
    }
}

#[test]
fn boundary_lengths_round_trip_from_string() {
    for n in [14usize, 15, 16] {
        let text: String = "abcdefghijklmnopqrstuvwxyz"[..n].to_string();
        let s = TinyBoxedStr::try_from(text.clone()).unwrap();
        assert_eq!(s.as_str(), text);
        assert_eq!(s.is_inline(), n <= INLINE_LEN);
    }
}

#[test]
fn multibyte_text_round_trips() {
    let short = "héllo";
    let s = TinyBoxedStr::try_from(short).unwrap();
    assert_eq!(s.as_str(), short);
    assert_eq!(s.len(), 6);
    assert!(s.is_inline());

    let long = "grüße aus köln, 東京";
    let t = TinyBoxedStr::try_from(long).unwrap();
    assert_eq!(t.as_str(), long);
    assert_eq!(t.len(), long.len());
    assert!(!t.is_inline());
}

#[test]
fn max_length_ascii_is_on_the_heap() {
    let text = "x".repeat(255);
    let s = TinyBoxedStr::try_from(text.as_str()).unwrap();
    assert_eq!(s.as_str(), text);
    assert_eq!(s.len(), TinyBoxedStr::MAX_LEN);
    assert!(!s.is_inline());
}

#[test]
fn too_long_str_is_rejected() {
    let text = "x".repeat(256);
    assert_eq!(TinyBoxedStr::try_from(text.as_str()).unwrap_err(), TooLongError);
}

#[test]
fn too_long_string_is_rejected() {
    let text = "y".repeat(1000);
    assert_eq!(TinyBoxedStr::try_from(text).unwrap_err(), TooLongError);
}

#[test]
fn too_long_multibyte_is_rejected() {
    // 128 two-byte characters: 256 bytes.
    let text = "é".repeat(128);
    assert_eq!(text.len(), 256);
    assert!(TinyBoxedStr::try_from(text.as_str()).is_err());
    let fits = "é".repeat(127);
    assert_eq!(TinyBoxedStr::try_from(fits.as_str()).unwrap().as_str(), fits);
}

#[test]
fn cow_paths_round_trip() {
    let borrowed: Cow<str> = Cow::Borrowed("a borrowed string of some length");
    let s = TinyBoxedStr::try_from(borrowed).unwrap();
    assert_eq!(s.as_str(), "a borrowed string of some length");

    let owned: Cow<str> = Cow::Owned(String::from("owned"));
    let t = TinyBoxedStr::try_from(owned).unwrap();
    assert_eq!(t.as_str(), "owned");

    let too_long: Cow<str> = Cow::Owned("z".repeat(300));
    assert_eq!(TinyBoxedStr::try_from(too_long).unwrap_err(), TooLongError);
}

#[test]
fn exact_string_buffer_is_reused() {
    let mut text = String::with_capacity(40);
    text.push_str("0123456789012345678901234567890123456789");
    assert_eq!(text.len(), text.capacity());
    let ptr = text.as_ptr();
    let s = TinyBoxedStr::try_from(text).unwrap();
    assert_eq!(s.as_str(), "0123456789012345678901234567890123456789");
    assert_eq!(s.as_str().as_ptr(), ptr);
}

#[test]
fn string_with_slack_converts() {
    let mut text = String::with_capacity(100);
    text.push_str("more than fifteen bytes here");
    let s = TinyBoxedStr::try_from(text).unwrap();
    assert_eq!(s.as_str(), "more than fifteen bytes here");
}

#[test]
fn clone_is_independent_inline() {
    let s = TinyBoxedStr::try_from("tiny").unwrap();
    let c = s.clone();
    assert_eq!(c.as_str(), s.as_str());
    drop(c);
    assert_eq!(s.as_str(), "tiny");
}

#[test]
fn clone_is_independent_heap() {
    let s = TinyBoxedStr::try_from("a string that lives on the heap").unwrap();
    let c = s.clone();
    assert_eq!(c.as_str(), s.as_str());
    assert_ne!(c.as_str().as_ptr(), s.as_str().as_ptr());
    drop(s);
    assert_eq!(c.as_str(), "a string that lives on the heap");
}

#[test]
fn equality_follows_content() {
    let a = TinyBoxedStr::try_from("same content here!").unwrap();
    let b = TinyBoxedStr::try_from(String::from("same content here!")).unwrap();
    let c = TinyBoxedStr::try_from("other content here").unwrap();
    assert_eq!(a, b);
    assert_ne!(a, c);
    assert!(a == *"same content here!");
    assert!(!(a == *"same content"));
    let d = TinyBoxedStr::try_from("abc").unwrap();
    let e = TinyBoxedStr::try_from("abd").unwrap();
    assert_ne!(d, e);
    assert_ne!(d, a);
}

#[test]
fn hash_matches_str_hash() {
    let a = TinyBoxedStr::try_from("hash me please, I am long").unwrap();
    let b = a.clone();
    assert_eq!(hash_of(&a), hash_of(&b));
    assert_eq!(hash_of(&a), hash_of("hash me please, I am long"));
    let short = TinyBoxedStr::try_from("short").unwrap();
    assert_eq!(hash_of(&short), hash_of("short"));
}

#[test]
fn set_lookup_by_str() {
    let mut set = HashSet::new();
    set.insert(TinyBoxedStr::try_from("alpha").unwrap());
    set.insert(TinyBoxedStr::try_from("a much longer beta value").unwrap());
    assert!(set.contains("alpha"));
    assert!(set.contains("a much longer beta value"));
    assert!(!set.contains("gamma"));
}

#[test]
fn borrow_and_as_ref_give_content() {
    let s = TinyBoxedStr::try_from("view").unwrap();
    let b: &str = s.borrow();
    assert_eq!(b, "view");
    assert_eq!(s.as_ref(), "view");
}

#[test]
fn default_is_empty_and_inline() {
    let s = TinyBoxedStr::default();
    assert_eq!(s.len(), 0);
    assert!(s.is_empty());
    assert_eq!(s.as_str(), "");
    assert!(s.is_inline());
}

#[test]
fn too_long_error_message() {
    assert_eq!(
        TooLongError.message(),
        "string was too long to be stored as a `TinyBoxedStr` (max 256 bytes)"
    );
}

#[test]
fn concat_joins_with_exact_capacity() {
    let r = str_concat(&["a", "b", "c"]);
    assert_eq!(r, "abc");
    assert_eq!(r.capacity(), 3);
}

#[test]
fn concat_of_nothing_is_empty() {
    let r = str_concat(&[]);
    assert_eq!(r, "");
}

#[test]
fn concat_multibyte() {
    let r = str_concat(&["é", " ", "東京"]);
    assert_eq!(r, "é 東京");
    assert_eq!(r.len(), 9);
}

#[test]
fn rope_slice_converts() {
    let rope = ropey::Rope::from_str("hello rope world");
    let s = TinyBoxedStr::try_from(rope.slice(6..10)).unwrap();
    assert_eq!(s.as_str(), "rope");
    let all = TinyBoxedStr::try_from(rope.slice(..)).unwrap();
    assert_eq!(all.as_str(), "hello rope world");
}

#[test]
fn rope_slice_across_chunks_converts() {
    let text: String = (0..5000).map(|i| char::from(b'a' + (i % 26) as u8)).collect();
    let rope = ropey::Rope::from_str(&text);
    assert!(rope.chunks().count() > 1);
    let slice = rope.slice(900..1100);
    let s = TinyBoxedStr::try_from(slice).unwrap();
    assert_eq!(s.as_str(), &text[900..1100]);
    assert!(TinyBoxedStr::try_from(rope.slice(0..256)).is_err());
}

#[test]
fn can_move_across_threads() {
    fn assert_send_sync<T: Send + Sync>() {}
    assert_send_sync::<TinyBoxedStr>();
}

#[test]
fn clone_of_max_length_round_trips() {
    let text = "q".repeat(255);
    let s = TinyBoxedStr::try_from(text.clone()).unwrap();
    let c = s.clone();
    drop(s);
    assert_eq!(c.as_str(), text);
    assert!(!c.is_inline());
}
