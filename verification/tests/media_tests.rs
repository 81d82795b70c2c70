use cubetonic::media::{cache_file_name, fallback_texture, strip_texture_modifiers, MediaError};

#[test]
fn cache_file_name_hex_encodes_decoded_hash() {
    // Base64 "AAEC" decodes to the bytes 0, 1, 2.
    assert_eq!(cache_file_name("AAEC").unwrap(), "000102");
}

#[test]
fn cache_file_name_known_sha1() {
    // The base64 form of the SHA-1 digest of the empty input.
    assert_eq!(
        cache_file_name("2jmj7l5rSw0yVb/vlWAYkK/YBwk=").unwrap(),
        "da39a3ee5e6b4b0d3255bfef95601890afd80709"
    );
}

#[test]
fn cache_file_name_accepts_unpadded_input() {
    // The engine decodes with or without padding.
    assert_eq!(
        cache_file_name("2jmj7l5rSw0yVb/vlWAYkK/YBwk").unwrap(),
        "da39a3ee5e6b4b0d3255bfef95601890afd80709"
    );
}

#[test]
fn cache_file_name_rejects_bad_base64() {
    assert_eq!(cache_file_name("!!!").unwrap_err(), MediaError::InvalidBase64);
}

#[test]
fn strip_texture_modifiers_keeps_prefix() {
    assert_eq!(
        strip_texture_modifiers(b"default_dirt.png^default_grass_side.png"),
        b"default_dirt.png"
    );
}

#[test]
fn strip_texture_modifiers_without_separator() {
    assert_eq!(strip_texture_modifiers(b"stone.png"), b"stone.png");
    assert_eq!(strip_texture_modifiers(b""), b"");
}

#[test]
fn strip_texture_modifiers_leading_separator() {
    assert_eq!(strip_texture_modifiers(b"^[invert"), b"");
}

#[test]
fn fallback_texture_name() {
    assert_eq!(fallback_texture(), "no_texture.png");
}
