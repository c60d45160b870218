use webserver::bytes::{bytes_eq, is_whitespace};
use webserver::headers::{ByteString, HeaderMap};

#[test]
fn a_new_map_is_empty() {
    let headers: HeaderMap<Vec<u8>> = HeaderMap::new();
    assert_eq!(headers.len(), 0);
    assert_eq!(headers.get(b"a"), None);
    assert!(!headers.contains_key(b"a"));
    assert!(!headers.contains_key(b""));
}

#[test]
fn insert_then_get() {
    let mut headers: HeaderMap<Vec<u8>> = HeaderMap::new();
    assert_eq!(headers.insert(b"a".to_vec(), b"1".to_vec()), None);
    assert_eq!(headers.insert(b"b".to_vec(), b"2".to_vec()), None);
    assert_eq!(headers.len(), 2);
    assert_eq!(headers.get(b"a"), Some(&b"1".to_vec()));
    assert_eq!(headers.get(b"b"), Some(&b"2".to_vec()));
    assert_eq!(headers.get(b"c"), None);
    assert!(headers.contains_key(b"a"));
    assert!(!headers.contains_key(b"A"));
}

#[test]
fn insert_replaces_in_place_and_returns_the_old_value() {
    let mut headers: HeaderMap<Vec<u8>> = HeaderMap::new();
    headers.insert(b"a".to_vec(), b"1".to_vec());
    headers.insert(b"b".to_vec(), b"2".to_vec());
    headers.insert(b"c".to_vec(), b"3".to_vec());
    assert_eq!(headers.insert(b"b".to_vec(), b"4".to_vec()), Some(b"2".to_vec()));
    assert_eq!(headers.len(), 3);
    assert_eq!(headers.entry(0), (&b"a".to_vec(), &b"1".to_vec()));
    assert_eq!(headers.entry(1), (&b"b".to_vec(), &b"4".to_vec()));
    assert_eq!(headers.entry(2), (&b"c".to_vec(), &b"3".to_vec()));
}

#[test]
fn names_are_never_repeated() {
    let mut headers: HeaderMap<Vec<u8>> = HeaderMap::new();
    for round in 0..3u8 {
        for name in [&b"x"[..], b"y", b"", b"x", b"xy"] {
            headers.insert(name.to_vec(), vec![round]);
        }
    }
    assert_eq!(headers.len(), 4);
    for i in 0..headers.len() {
        for j in (i + 1)..headers.len() {
            assert_ne!(headers.entry(i).0, headers.entry(j).0);
        }
        assert_eq!(headers.entry(i).1, &vec![2u8]);
    }
}

#[test]
fn a_map_of_borrowed_slices() {
    let buffer = b"name value other".to_vec();
    let mut headers: HeaderMap<&[u8]> = HeaderMap::new();
    assert_eq!(headers.insert(&buffer[0..4], &buffer[5..10]), None);
    assert_eq!(headers.insert(b"name", &buffer[11..16]), Some(&buffer[5..10]));
    assert_eq!(headers.get(b"name").copied(), Some(&b"other"[..]));
    assert_eq!(headers.len(), 1);
}

#[test]
fn byte_strings_give_their_bytes() {
    let owned: Vec<u8> = b"abc".to_vec();
    let borrowed: &[u8] = b"abc";
    assert_eq!(owned.as_byte_slice(), b"abc");
    assert_eq!(borrowed.as_byte_slice(), b"abc");
}

#[test]
fn bytes_eq_compares_length_and_content() {
    assert!(bytes_eq(b"", b""));
    assert!(bytes_eq(b"abc", b"abc"));
    assert!(!bytes_eq(b"abc", b"abd"));
    assert!(!bytes_eq(b"abc", b"ab"));
    assert!(!bytes_eq(b"ab", b"abc"));
    assert!(!bytes_eq(b"abc", b"Abc"));
}

#[test]
fn ascii_whitespace_is_five_bytes() {
    for b in 0..=255u8 {
        assert_eq!(is_whitespace(b), b.is_ascii_whitespace());
    }
}
