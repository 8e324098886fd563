//! Digests of a loaded image, in the algorithm that the user selects, and
//! their lowercase hexadecimal rendering.

use vstd::prelude::*;

use crate::checksum_wrappers::{md5_bytes, md5_of, sha1_bytes, sha1_of, sha256_bytes, sha256_of, string_from_chars};

verus! {

/// The digest algorithms on offer, in the order the chooser lists them.
#[derive(Clone, Copy, Debug, PartialEq, Eq, Structural)]
pub enum HashKind {
    Sha256,
    Sha1,
    Md5,
}

/// The number of digest algorithms on offer.
pub const HASH_KIND_COUNT: usize = 3;

/// The algorithm at a position of the chooser.
pub open spec fn kind_at(index: int) -> Option<HashKind> {
    if index == 0 {
        Some(HashKind::Sha256)
    } else if index == 1 {
        Some(HashKind::Sha1)
    } else if index == 2 {
        Some(HashKind::Md5)
    } else {
        None
    }
}

/// The digest of `data` under `kind`.
pub open spec fn digest_of(kind: HashKind, data: Seq<u8>) -> Seq<u8> {
    match kind {
        HashKind::Sha256 => sha256_of(data),
        HashKind::Sha1 => sha1_of(data),
        HashKind::Md5 => md5_of(data),
    }
}

/// The lowercase hexadecimal digit of a value below sixteen.
pub open spec fn hex_digit(n: u8) -> char {
    if n == 0 { '0' }
    else if n == 1 { '1' }
    else if n == 2 { '2' }
    else if n == 3 { '3' }
    else if n == 4 { '4' }
    else if n == 5 { '5' }
    else if n == 6 { '6' }
    else if n == 7 { '7' }
    else if n == 8 { '8' }
    else if n == 9 { '9' }
    else if n == 10 { 'a' }
    else if n == 11 { 'b' }
    else if n == 12 { 'c' }
    else if n == 13 { 'd' }
    else if n == 14 { 'e' }
    else { 'f' }
}

/// Two lowercase hexadecimal digits per byte, high nibble first.
pub open spec fn hex_of(bytes: Seq<u8>) -> Seq<char> {
    Seq::new(
        2 * bytes.len(),
        |i: int|
            if i % 2 == 0 {
                hex_digit(bytes[i / 2] / 16)
            } else {
                hex_digit(bytes[i / 2] % 16)
            },
    )
}

impl HashKind {
    /// The algorithm at a position of the chooser, if there is one.
    pub fn from_index(index: usize) -> (r: Option<HashKind>)
        ensures
            r == kind_at(index as int),
    {
        if index == 0 {
            Some(HashKind::Sha256)
        } else if index == 1 {
            Some(HashKind::Sha1)
        } else if index == 2 {
            Some(HashKind::Md5)
        } else {
            None
        }
    }

    /// The position of the algorithm in the chooser.
    pub fn index(&self) -> (r: usize)
        ensures
            r < HASH_KIND_COUNT,
            kind_at(r as int) == Some(*self),
    {
        match self {
            HashKind::Sha256 => 0,
            HashKind::Sha1 => 1,
            HashKind::Md5 => 2,
        }
    }
}

/// The hexadecimal digit of a value below sixteen.
pub fn hex_digit_char(n: u8) -> (r: char)
    requires
        n < 16,
    ensures
        r == hex_digit(n),
{
    if n == 0 { '0' }
    else if n == 1 { '1' }
    else if n == 2 { '2' }
    else if n == 3 { '3' }
    else if n == 4 { '4' }
    else if n == 5 { '5' }
    else if n == 6 { '6' }
    else if n == 7 { '7' }
    else if n == 8 { '8' }
    else if n == 9 { '9' }
    else if n == 10 { 'a' }
    else if n == 11 { 'b' }
    else if n == 12 { 'c' }
    else if n == 13 { 'd' }
    else if n == 14 { 'e' }
    else { 'f' }
}

/// The lowercase hexadecimal rendering of a digest.
pub fn hex_string(bytes: &[u8]) -> (r: String)
    requires
        2 * bytes@.len() <= usize::MAX,
    ensures
        r@ == hex_of(bytes@),
{
    let mut chars: Vec<char> = Vec::new();
    let mut i: usize = 0;
    while i < bytes.len()
        invariant
            i <= bytes@.len(),
            2 * bytes@.len() <= usize::MAX,
            chars@.len() == 2 * i,
            forall|j: int| 0 <= j < 2 * i ==> chars@[j] == #[trigger] hex_of(bytes@)[j],
        decreases bytes@.len() - i,
    {
        let b = bytes[i];
        chars.push(hex_digit_char(b / 16));
        chars.push(hex_digit_char(b % 16));
        i = i + 1;
    }
    assert(chars@ =~= hex_of(bytes@));
    string_from_chars(&chars)
}

/// The raw digest of `data` under `kind`.
pub fn digest_bytes(kind: HashKind, data: &[u8]) -> (r: Vec<u8>)
    ensures
        r@ == digest_of(kind, data@),
        r@.len() <= 32,
{
    match kind {
        HashKind::Sha256 => sha256_bytes(data),
        HashKind::Sha1 => sha1_bytes(data),
        HashKind::Md5 => md5_bytes(data),
    }
}

/// The digest of `data` under `kind`, as lowercase hexadecimal text.
pub fn digest_text(kind: HashKind, data: &[u8]) -> (r: String)
    ensures
        r@ == hex_of(digest_of(kind, data@)),
{
    let d = digest_bytes(kind, data);
    hex_string(d.as_slice())
}

/// The digest text is a function of the algorithm and the bytes alone: equal
/// bytes give equal text, on every call.
pub proof fn lemma_digest_deterministic(kind: HashKind, a: Seq<u8>, b: Seq<u8>)
    requires
        a == b,
    ensures
        hex_of(digest_of(kind, a)) == hex_of(digest_of(kind, b)),
{
}

} // verus!
