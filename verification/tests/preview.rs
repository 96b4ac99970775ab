use clipped_ipc::preview::{base64, PreviewKind, PreviewState, MAX_PREVIEW_BUCKETS};

#[test]
fn base64_encodes_the_vectors_rfc_4648_states() {
    for (plain, encoded) in [
        ("", ""),
        ("f", "Zg=="),
        ("fo", "Zm8="),
        ("foo", "Zm9v"),
        ("foob", "Zm9vYg=="),
        ("fooba", "Zm9vYmE="),
        ("foobar", "Zm9vYmFy"),
    ] {
        assert_eq!(base64(plain.as_bytes()), encoded, "encoding `{plain}`");
    }
}

#[test]
fn base64_covers_every_byte_and_both_of_the_last_two_characters() {
    let every: Vec<u8> = (0..=255).collect();
    let encoded = base64(&every);

    assert!(encoded.contains('+'), "the 63rd character never appeared");
    assert!(encoded.contains('/'), "the 64th character never appeared");
    assert_eq!(
        encoded.len(),
        344,
        "256 bytes is 344 characters with padding"
    );
    assert!(
        encoded
            .chars()
            .all(|character| character.is_ascii_alphanumeric()
                || matches!(character, '+' | '/' | '=')),
        "base64 is ASCII, and a `data:` URI carries it unescaped"
    );
}

#[test]
fn a_jpeg_header_encodes_as_a_browser_expects() {
    assert_eq!(base64(&[0xFF, 0xD8, 0xFF, 0xE0]), "/9j/4A==");
}

#[test]
fn preview_kinds_and_states_have_their_wire_strings() {
    assert_eq!(PreviewKind::Thumbnail.as_str(), "thumbnail");
    assert_eq!(PreviewKind::Waveform.as_str(), "waveform");
    assert_eq!(PreviewState::Pending.as_str(), "pending");
    assert_eq!(PreviewState::Ready.as_str(), "ready");
    assert_eq!(PreviewState::Unavailable.as_str(), "unavailable");
    assert_eq!(MAX_PREVIEW_BUCKETS, 4096);
}

#[test]
fn bytes_ending_on_a_group_boundary_encode_independently_of_what_follows() {
    let front = b"foo";
    let back = b"bar!";
    let mut whole = front.to_vec();
    whole.extend_from_slice(back);
    assert_eq!(base64(&whole), format!("{}{}", base64(front), base64(back)));
    assert_eq!(base64(&whole), "Zm9vYmFyIQ==");
}

#[test]
fn padding_is_only_at_the_end_and_says_how_short_the_last_group_is() {
    for (length, padding) in [(0usize, 0usize), (1, 2), (2, 1), (3, 0), (4, 2), (5, 1), (6, 0)] {
        let bytes: Vec<u8> = (0..length).map(|i| (i as u8).wrapping_mul(97).wrapping_add(61)).collect();
        let encoded = base64(&bytes);
        assert_eq!(encoded.len(), 4 * length.div_ceil(3));
        let trailing = encoded.chars().rev().take_while(|c| *c == '=').count();
        assert_eq!(trailing, padding, "{length} bytes");
        assert_eq!(encoded.matches('=').count(), padding, "an `=` before the end");
    }
}
