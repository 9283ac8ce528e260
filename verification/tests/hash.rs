use seavan::hash::{to_hex_lower, ContentHasher};

fn digest_of(pieces: &[&[u8]]) -> String {
    let mut hasher = ContentHasher::new();
    for piece in pieces {
        hasher.update(piece);
    }
    hasher.finalize().as_str().to_string()
}

#[test]
fn digest_of_nothing() {
    assert_eq!(
        digest_of(&[]),
        "e3b0c44298fc1c149afbf4c8996fb92427ae41e4649b934ca495991b7852b855"
    );
}

#[test]
fn digest_of_abc() {
    assert_eq!(
        digest_of(&[b"abc"]),
        "ba7816bf8f01cfea414140de5dae2223b00361a396177a9cb410ff61f20015ad"
    );
}

#[test]
fn digest_of_hello_world() {
    assert_eq!(
        digest_of(&[b"hello world"]),
        "b94d27b9934d3e08a52e52d7da7dabfac484efe37a5380ee9088f7ace2efcde9"
    );
}

#[test]
fn pieces_do_not_matter() {
    let whole = digest_of(&[b"hello world"]);
    assert_eq!(digest_of(&[b"hello", b" ", b"world"]), whole);
    assert_eq!(digest_of(&[b"", b"hello world", b""]), whole);
    assert_eq!(digest_of(&[b"h", b"ello worl", b"d"]), whole);
}

#[test]
fn order_of_pieces_matters() {
    assert_ne!(digest_of(&[b"ab", b"cd"]), digest_of(&[b"cd", b"ab"]));
}

#[test]
fn equal_content_gives_equal_digests() {
    let first = digest_of(&[b"the same bytes"]);
    let second = digest_of(&[b"the same bytes"]);
    assert_eq!(first, second);
}

#[test]
fn one_more_byte_changes_the_digest() {
    let before = digest_of(&[b"content"]);
    let after = digest_of(&[b"content", b"\n"]);
    assert_ne!(before, after);
}

#[test]
fn digest_is_64_lower_case_hex_digits() {
    for content in [&b""[..], b"a", b"\x00\xff", b"a longer piece of content"] {
        let text = digest_of(&[content]);
        assert_eq!(text.len(), 64);
        assert!(text.chars().all(|c| c.is_ascii_digit() || ('a'..='f').contains(&c)));
    }
}

#[test]
fn hex_of_bytes() {
    assert_eq!(to_hex_lower(&[]), "");
    assert_eq!(to_hex_lower(&[0x00]), "00");
    assert_eq!(to_hex_lower(&[0x0f, 0xf0]), "0ff0");
    assert_eq!(to_hex_lower(&[0x09, 0x0a, 0x99, 0xaa]), "090a99aa");
    assert_eq!(to_hex_lower(&[0xde, 0xad, 0xbe, 0xef]), "deadbeef");
    assert_eq!(to_hex_lower(&[0x12, 0x34, 0x56, 0x78, 0x9a, 0xbc]), "123456789abc");
    assert_eq!(to_hex_lower(&[0xff]), "ff");
}
