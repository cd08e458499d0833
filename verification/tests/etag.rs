use crypto::digest::Digest;
use crypto::md5::Md5;
use static_files::digest::{format_weak_tag, mk_etag, FINGERPRINT_BYTES};
use static_files::text::{hex_digit_char, push_escaped_bytes, push_hex};

fn independent_fingerprint(content: &[u8]) -> String {
    let mut m = Md5::new();
    m.input(content);
    let suffix: String = m.result_str().chars().take(16).collect();
    format!("W/\"{}\"", suffix)
}

#[test]
fn etag_of_empty_content() {
    // MD5 of the empty input is d41d8cd98f00b204e9800998ecf8427e.
    assert_eq!(mk_etag(b""), "W/\"d41d8cd98f00b204\"");
}

#[test]
fn etag_of_known_contents() {
    assert_eq!(mk_etag(b"hello"), "W/\"5d41402abc4b2a76\"");
    assert_eq!(mk_etag(b"abc"), "W/\"900150983cd24fb0\"");
    assert_eq!(mk_etag(b"body{color:red}"), "W/\"6700e3e577966de9\"");
}

#[test]
fn etag_is_a_weak_validator_of_sixteen_digits() {
    let etag = mk_etag(b"some content");
    assert_eq!(etag.len(), 20);
    assert!(etag.starts_with("W/\""));
    assert!(etag.ends_with('"'));
    assert!(etag[3..19].chars().all(|c| c.is_ascii_digit() || ('a'..='f').contains(&c)));
}

#[test]
fn etag_matches_an_independent_digest() {
    let contents: Vec<&[u8]> = vec![b"", b"a", b"\x00\xff", b"The quick brown fox"];
    for content in contents {
        assert_eq!(mk_etag(content), independent_fingerprint(content));
    }
}

#[test]
fn etag_is_the_same_every_time() {
    let content = b"body { margin: 0 }".to_vec();
    assert_eq!(mk_etag(&content), mk_etag(&content.clone()));
}

#[test]
fn etag_changes_when_any_single_byte_is_flipped() {
    let original: Vec<u8> = (0u8..64).collect();
    let base = mk_etag(&original);
    let mut seen = vec![base.clone()];
    for i in 0..original.len() {
        let mut changed = original.clone();
        changed[i] ^= 0x01;
        let etag = mk_etag(&changed);
        assert_ne!(etag, base);
        assert!(!seen.contains(&etag));
        seen.push(etag);
    }
}

#[test]
fn etags_of_a_corpus_do_not_collide() {
    let mut seen: Vec<String> = Vec::new();
    for len in 0..40usize {
        for fill in [0u8, 1, 0x7f, 0xff] {
            let content = vec![fill; len];
            let etag = mk_etag(&content);
            if len == 0 {
                if !seen.contains(&etag) {
                    seen.push(etag);
                }
            } else {
                assert!(!seen.contains(&etag));
                seen.push(etag);
            }
        }
    }
}

#[test]
fn hex_digits_are_lowercase() {
    let digits: String = (0u8..16).map(hex_digit_char).collect();
    assert_eq!(digits, "0123456789abcdef");
}

#[test]
fn hex_of_bytes_has_the_high_nibble_first() {
    let mut out = String::from("x=");
    push_hex(&mut out, &[0x00, 0x0f, 0xf0, 0xa5, 0xff]);
    assert_eq!(out, "x=000ff0a5ff");
}

#[test]
fn escaped_bytes_are_written_one_by_one() {
    let mut out = String::new();
    push_escaped_bytes(&mut out, b"a\n\x00\xff");
    assert_eq!(out, "\\x61\\x0a\\x00\\xff");
    let mut empty = String::from("kept");
    push_escaped_bytes(&mut empty, b"");
    assert_eq!(empty, "kept");
}

#[test]
fn weak_tag_keeps_the_leading_bytes_of_the_digest() {
    let digest: Vec<u8> = vec![
        0xd4, 0x1d, 0x8c, 0xd9, 0x8f, 0x00, 0xb2, 0x04, 0xe9, 0x80, 0x09, 0x98, 0xec, 0xf8, 0x42, 0x7e,
    ];
    assert_eq!(format_weak_tag(&digest), "W/\"d41d8cd98f00b204\"");
    assert_eq!(format_weak_tag(&digest[..FINGERPRINT_BYTES]), "W/\"d41d8cd98f00b204\"");
    assert_eq!(format_weak_tag(&digest[..FINGERPRINT_BYTES + 1]), "W/\"d41d8cd98f00b204\"");
}

#[test]
fn weak_tag_of_a_short_digest_uses_all_of_it() {
    assert_eq!(format_weak_tag(&[]), "W/\"\"");
    assert_eq!(format_weak_tag(&[0xab]), "W/\"ab\"");
    assert_eq!(format_weak_tag(&[1, 2, 3, 4, 5, 6, 7]), "W/\"01020304050607\"");
}
