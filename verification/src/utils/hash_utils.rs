//! Subsonic authentication tokens and random salts.

use vstd::prelude::*;
use crate::text::push_char;
use rand::Rng;

verus! {

/// The lowercase hexadecimal digit for `d` (below 16).
pub open spec fn hex_digit(d: nat) -> char {
    if d < 10 {
        ('0' as u32 + d) as char
    } else {
        ('a' as u32 + (d - 10)) as char
    }
}

/// Two lowercase hexadecimal digits per byte, in order (`{:02x}` of each byte).
pub open spec fn hex_lower(bytes: Seq<u8>) -> Seq<char>
    decreases bytes.len(),
{
    if bytes.len() == 0 {
        Seq::empty()
    } else {
        hex_lower(bytes.drop_last()).push(hex_digit((bytes.last() / 16) as nat)).push(hex_digit((bytes.last() % 16) as nat))
    }
}

fn hex_digit_char(d: u8) -> (c: char)
    requires
        d < 16,
    ensures
        c == hex_digit(d as nat),
{
    if d < 10 {
        ((('0' as u8) + d) as char)
    } else {
        ((('a' as u8) + (d - 10)) as char)
    }
}

/// The lowercase hexadecimal text of a byte string.
pub fn to_hex_lower(bytes: &[u8]) -> (s: String)
    ensures
        s@ == hex_lower(bytes@),
{
    let mut s = String::new();
    let n = bytes.len();
    let mut i: usize = 0;
    while i < n
        invariant
            n == bytes@.len(),
            i <= n,
            s@ == hex_lower(bytes@.take(i as int)),
        decreases n - i,
    {
        let b = bytes[i];
        push_char(&mut s, hex_digit_char(b / 16));
        push_char(&mut s, hex_digit_char(b % 16));
        assert(bytes@.take(i as int + 1).drop_last() =~= bytes@.take(i as int));
        i = i + 1;
    }
    assert(bytes@.take(n as int) =~= bytes@);
    s
}

/// The MD5 digest of a byte string, as `md5::compute` returns it.
pub uninterp spec fn md5_of(data: Seq<u8>) -> Seq<u8>;

/// MD5 digest of a byte string (`md5::compute`). The digest is named by
/// `md5_of`; it is always 16 bytes long.
#[verifier::external_body]
fn md5_digest(data: &[u8]) -> (d: Vec<u8>)
    ensures
        d@ == md5_of(data@),
        d@.len() == 16,
{
    md5::compute(data).0.to_vec()
}

/// The Subsonic token of a password and salt: the lowercase hex MD5 digest
/// of the password followed by the salt (UTF-8 bytes).
pub open spec fn subsonic_token_of(password: Seq<char>, salt: Seq<char>) -> Seq<char> {
    hex_lower(md5_of(vstd::utf8::encode_utf8(password + salt)))
}

/// The Subsonic token for a password and salt (see `subsonic_token_of`).
pub fn generate_subsonic_token(password: &str, salt: &str) -> (t: String)
    ensures
        t@ == subsonic_token_of(password@, salt@),
        t@.len() == 32,
{
    let mut combined = String::from_str(password);
    combined.append(salt);
    let digest = md5_digest(combined.as_str().as_bytes());
    let t = to_hex_lower(digest.as_slice());
    proof {
        lemma_hex_lower_len(digest@);
    }
    t
}

/// Each byte gives two hex digits.
pub proof fn lemma_hex_lower_len(bytes: Seq<u8>)
    ensures
        hex_lower(bytes).len() == 2 * bytes.len(),
    decreases bytes.len(),
{
    if bytes.len() > 0 {
        lemma_hex_lower_len(bytes.drop_last());
    }
}

/// Sixteen random bytes from the thread-local generator
/// (`rand::thread_rng().gen::<[u8; 16]>()`). Only the length is stated: the
/// bytes are random.
#[verifier::external_body]
fn random_bytes_16() -> (b: Vec<u8>)
    ensures
        b@.len() == 16,
{
    rand::thread_rng().gen::<[u8; 16]>().to_vec()
}

/// A random salt: 16 random bytes as 32 lowercase hex digits.
pub fn generate_salt() -> (s: String)
    ensures
        s@.len() == 32,
        exists|b: Seq<u8>| b.len() == 16 && s@ == hex_lower(b),
{
    let b = random_bytes_16();
    let s = to_hex_lower(b.as_slice());
    proof {
        lemma_hex_lower_len(b@);
    }
    s
}

} // verus!
