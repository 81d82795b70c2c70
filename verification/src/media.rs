use vstd::prelude::*;

verus! {

/// Where the bytes of a media file come from: a path in the local media
/// cache, or bytes built into the client (the fallback texture).
pub enum MediaSource {
    Path(String),
    Bytes(Vec<u8>),
}

/// Errors of media resolution that the client recovers from locally.
#[derive(Clone, Copy, PartialEq, Eq, Structural, Debug)]
pub enum MediaError {
    /// The announced content hash is not valid base64.
    InvalidBase64,
}

/// What base64's standard-alphabet, padding-indifferent decoding yields for a
/// string: the decoded bytes, or nothing when the string is not valid base64.
/// The result depends on the input alone.
pub uninterp spec fn base64_standard_decode(s: Seq<char>) -> Option<Seq<u8>>;

#[verifier::external_type_specification]
#[verifier::external_body]
pub struct ExDecodeError(base64::DecodeError);

/// Relies on base64's `STANDARD_PAD_INDIFFERENT` engine: the standard
/// alphabet, accepting input with or without padding, as the game's media
/// announcements are encoded. Decoding succeeds exactly on valid input.
#[verifier::external_body]
fn base64_decode(s: &str) -> (r: Result<Vec<u8>, base64::DecodeError>)
    ensures
        match r {
            Ok(v) => base64_standard_decode(s@) == Some(v@),
            Err(_) => base64_standard_decode(s@) is None,
        },
{
    base64::Engine::decode(&base64::engine::general_purpose::STANDARD_PAD_INDIFFERENT, s)
}

/// The lowercase hexadecimal digit for a value below 16.
pub open spec fn hex_digit(n: int) -> char {
    if n == 0 {
        '0'
    } else if n == 1 {
        '1'
    } else if n == 2 {
        '2'
    } else if n == 3 {
        '3'
    } else if n == 4 {
        '4'
    } else if n == 5 {
        '5'
    } else if n == 6 {
        '6'
    } else if n == 7 {
        '7'
    } else if n == 8 {
        '8'
    } else if n == 9 {
        '9'
    } else if n == 10 {
        'a'
    } else if n == 11 {
        'b'
    } else if n == 12 {
        'c'
    } else if n == 13 {
        'd'
    } else if n == 14 {
        'e'
    } else {
        'f'
    }
}

/// Lowercase hexadecimal encoding: each byte becomes two digits, high nibble
/// first.
pub open spec fn hex_of(bytes: Seq<u8>) -> Seq<char>
    decreases bytes.len(),
{
    if bytes.len() == 0 {
        Seq::empty()
    } else {
        hex_of(bytes.drop_last()).push(hex_digit(bytes.last() as int / 16)).push(
            hex_digit(bytes.last() as int % 16),
        )
    }
}

/// Relies on hex::encode: every byte of the input becomes two lowercase
/// hexadecimal digits, high nibble first, in input order.
#[verifier::external_body]
fn hex_encode(bytes: &Vec<u8>) -> (r: String)
    ensures
        r@ == hex_of(bytes@),
{
    hex::encode(bytes)
}

/// The file name under which the local media cache stores a file with the
/// given announced content hash: the hash arrives base64-encoded and the
/// cache is keyed by its lowercase hexadecimal form. Fails exactly when the
/// announced hash is not valid base64.
pub fn cache_file_name(sha1_base64: &str) -> (r: Result<String, MediaError>)
    ensures
        match r {
            Ok(name) => match base64_standard_decode(sha1_base64@) {
                Some(bytes) => name@ == hex_of(bytes),
                None => false,
            },
            Err(e) => e == MediaError::InvalidBase64 && base64_standard_decode(sha1_base64@)
                is None,
        },
{
    match base64_decode(sha1_base64) {
        Ok(raw) => Ok(hex_encode(&raw)),
        Err(_) => Err(MediaError::InvalidBase64),
    }
}

/// Index of the first texture modifier separator `^` in a texture string's
/// bytes, or the length if there is none.
pub open spec fn first_caret(bytes: Seq<u8>) -> int
    decreases bytes.len(),
{
    if bytes.len() == 0 {
        0
    } else if bytes[0] == 94u8 {
        0
    } else {
        1 + first_caret(bytes.subrange(1, bytes.len() as int))
    }
}

/// The separator index is within the string and everything before it is not a
/// separator.
proof fn lemma_first_caret(bytes: Seq<u8>)
    ensures
        0 <= first_caret(bytes) <= bytes.len(),
        forall|i: int| 0 <= i < first_caret(bytes) ==> bytes[i] != 94u8,
        first_caret(bytes) < bytes.len() ==> bytes[first_caret(bytes)] == 94u8,
    decreases bytes.len(),
{
    if bytes.len() > 0 && bytes[0] != 94u8 {
        let tail = bytes.subrange(1, bytes.len() as int);
        lemma_first_caret(tail);
        assert(forall|i: int| 0 <= i < first_caret(tail) ==> tail[i] != 94u8);
        assert forall|i: int| 0 <= i < first_caret(bytes) implies bytes[i] != 94u8 by {
            if i > 0 {
                assert(bytes[i] == tail[i - 1]);
            }
        }
    }
}

/// Strips texture modifiers from a texture string's bytes: keeps the plain
/// file name before the first `^`, the only part of the engine's texture
/// modifier language this client applies.
pub fn strip_texture_modifiers(name: &[u8]) -> (r: Vec<u8>)
    ensures
        r@ == name@.take(first_caret(name@)),
{
    proof {
        lemma_first_caret(name@);
    }
    let mut i: usize = 0;
    let mut out: Vec<u8> = Vec::new();
    while i < name.len()
        invariant
            i <= name@.len(),
            out@ == name@.take(i as int),
            forall|j: int| 0 <= j < i ==> name@[j] != 94u8,
            forall|j: int| 0 <= j < first_caret(name@) ==> name@[j] != 94u8,
            first_caret(name@) < name@.len() ==> name@[first_caret(name@)] == 94u8,
            0 <= first_caret(name@) <= name@.len(),
        decreases name@.len() - i,
    {
        if name[i] == 94 {
            proof {
                assert(i as int == first_caret(name@)) by {
                    if (i as int) < first_caret(name@) {
                        assert(name@[i as int] != 94u8);
                    }
                    if first_caret(name@) < i as int {
                        assert(name@[first_caret(name@)] != 94u8);
                    }
                }
            }
            return out;
        }
        let b = name[i];
        out.push(b);
        i = i + 1;
        proof {
            assert(out@ =~= name@.take(i as int));
        }
    }
    proof {
        assert(first_caret(name@) == name@.len()) by {
            if first_caret(name@) < name@.len() {
                assert(name@[first_caret(name@)] != 94u8);
            }
        }
        assert(out@ =~= name@.take(first_caret(name@)));
    }
    out
}

/// The texture that is always available, shown where a texture is missing.
pub fn fallback_texture() -> (r: &'static str)
    ensures
        r@ == "no_texture.png"@,
{
    "no_texture.png"
}

} // verus!
