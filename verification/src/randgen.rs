use vstd::prelude::*;

verus! {

/// Relies on rand::Rng::random_range over the half-open range `0..n`:
/// the draw is uniform over the range, so in particular the result is
/// below `n`; the call panics only on an empty range, which `n > 0`
/// rules out. Nothing more is assumed of any single outcome.
#[verifier::external_body]
pub(crate) fn rand_below(n: u64) -> (r: u64)
    requires
        n > 0,
    ensures
        r < n,
{
    rand::Rng::random_range(&mut rand::rng(), 0..n)
}

/// A character of the 62-letter alphanumeric alphabet.
pub open spec fn is_alnum_char(c: char) -> bool {
    ||| 97 <= c as int <= 122
    ||| 65 <= c as int <= 90
    ||| 48 <= c as int <= 57
}

/// The alphabet laid out as lowercase, then uppercase, then digits.
pub open spec fn alnum_byte_spec(i: int) -> int {
    if i < 26 {
        97 + i
    } else if i < 52 {
        65 + (i - 26)
    } else {
        48 + (i - 52)
    }
}

/// The byte of the alphanumeric alphabet at a given index.
fn alnum_byte(i: u8) -> (b: u8)
    requires
        i < 62,
    ensures
        b == alnum_byte_spec(i as int),
        b < 128,
        is_alnum_char(b as char),
{
    if i < 26 {
        97 + i
    } else if i < 52 {
        65 + (i - 26)
    } else {
        48 + (i - 52)
    }
}

/// Relies on String::from_utf8: a sequence of ASCII bytes is valid UTF-8
/// and decodes to one char per byte, each with the byte's code point.
#[verifier::external_body]
fn ascii_to_string(v: Vec<u8>) -> (s: String)
    requires
        forall|i: int| 0 <= i < v@.len() ==> v@[i] < 128,
    ensures
        s@ == v@.map_values(|b: u8| b as char),
{
    match String::from_utf8(v) {
        Ok(s) => s,
        Err(_) => String::new(),
    }
}

/// The deterministic half of username construction: the alphabet
/// character of each index, in order. Each index picks one of the 62
/// alphanumerics.
pub fn username_from_indices(indices: &Vec<u8>) -> (s: String)
    requires
        forall|i: int| 0 <= i < indices@.len() ==> indices@[i] < 62,
    ensures
        s@.len() == indices@.len(),
        forall|i: int|
            0 <= i < s@.len() ==> s@[i] == (alnum_byte_spec(#[trigger] indices@[i] as int) as u8)
                as char,
        forall|i: int| 0 <= i < s@.len() ==> is_alnum_char(#[trigger] s@[i]),
{
    let mut bytes: Vec<u8> = Vec::new();
    let mut k: usize = 0;
    while k < indices.len()
        invariant
            k <= indices@.len(),
            forall|i: int| 0 <= i < indices@.len() ==> #[trigger] indices@[i] < 62,
            bytes@.len() == k,
            forall|i: int|
                0 <= i < bytes@.len() ==> #[trigger] bytes@[i] == alnum_byte_spec(
                    indices@[i] as int,
                ) && bytes@[i] < 128 && is_alnum_char(bytes@[i] as char),
        decreases indices@.len() - k,
    {
        bytes.push(alnum_byte(indices[k]));
        k = k + 1;
    }
    let s = ascii_to_string(bytes);
    proof {
        assert forall|i: int| 0 <= i < s@.len() implies s@[i] == (alnum_byte_spec(
            #[trigger] indices@[i] as int,
        ) as u8) as char && is_alnum_char(s@[i]) by {
            assert(s@[i] == bytes@[i] as char);
        }
    }
    s
}

/// A fresh random username: length drawn uniformly from [10, 50), each
/// character drawn independently and uniformly from the 62-character
/// alphanumeric alphabet.
pub fn random_username() -> (s: String)
    ensures
        10 <= s@.len() < 50,
        forall|i: int| 0 <= i < s@.len() ==> is_alnum_char(#[trigger] s@[i]),
{
    let len: u64 = 10 + rand_below(40);
    let mut indices: Vec<u8> = Vec::new();
    let mut k: u64 = 0;
    while k < len
        invariant
            k <= len,
            10 <= len < 50,
            indices@.len() == k,
            forall|i: int| 0 <= i < indices@.len() ==> #[trigger] indices@[i] < 62,
        decreases len - k,
    {
        indices.push(rand_below(62) as u8);
        k = k + 1;
    }
    username_from_indices(&indices)
}

} // verus!
