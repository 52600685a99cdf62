//! Password hashing, invite codes and random identifiers.

use vstd::prelude::*;
use crate::text::{
    push_char, spec_hex_lower, spec_u64_chars, str_eq, to_hex_lower, u64_to_string,
    lemma_hex_lower_len,
};

verus! {

/// The SHA-256 digest of a byte string.  The digest takes pages to state,
/// so it is only named here; `sha256_digest` below computes it.
pub uninterp spec fn sha256_of(data: Seq<u8>) -> Seq<u8>;

/// Relies on `sha2::Sha256` through the `Digest` trait: the digest is a
/// pure function of the input bytes, and is always 32 bytes long.
#[verifier::external_body]
fn sha256_digest(data: &[u8]) -> (r: Vec<u8>)
    ensures
        r@ == sha256_of(data@),
        r@.len() == 32,
{
    let mut hasher = <sha2::Sha256 as sha2::Digest>::new();
    sha2::Digest::update(&mut hasher, data);
    sha2::Digest::finalize(hasher).to_vec()
}

/// The lower-case hex rendering of the SHA-256 digest of the UTF-8 bytes
/// of `s`.
pub open spec fn spec_sha256_hex(s: Seq<char>) -> Seq<char> {
    spec_hex_lower(sha256_of(vstd::utf8::encode_utf8(s)))
}

/// The salt mixed into every password hash.
pub open spec fn spec_password_salt() -> Seq<char> {
    "watermelo_salt_2024"@
}

/// Hex digits rendered in upper case; other characters unchanged.
pub open spec fn spec_upper_hex_char(c: char) -> char {
    if c == 'a' { 'A' }
    else if c == 'b' { 'B' }
    else if c == 'c' { 'C' }
    else if c == 'd' { 'D' }
    else if c == 'e' { 'E' }
    else if c == 'f' { 'F' }
    else { c }
}

fn upper_hex_char(c: char) -> (r: char)
    ensures
        r == spec_upper_hex_char(c),
{
    if c == 'a' { 'A' }
    else if c == 'b' { 'B' }
    else if c == 'c' { 'C' }
    else if c == 'd' { 'D' }
    else if c == 'e' { 'E' }
    else if c == 'f' { 'F' }
    else { c }
}

/// The invite code derived from a numeric user id: the first eight hex
/// characters of the SHA-256 of `USER<id>`, upper-cased.
pub open spec fn spec_invite_code(id: int) -> Seq<char> {
    Seq::new(8, |i: int| spec_upper_hex_char(spec_sha256_hex("USER"@ + spec_u64_chars(id))[i]))
}

/// JWT claim set carried by a session token.
#[derive(Debug, Clone)]
pub struct Claims {
    pub sub: String,
    pub exp: i64,
    pub iat: i64,
    pub email: Option<String>,
    pub wallet: Option<String>,
}

pub struct CryptoUtils;

impl CryptoUtils {
    /// The lower-case hex SHA-256 digest of `input`.
    pub fn sha256(input: &str) -> (r: String)
        ensures
            r@ == spec_sha256_hex(input@),
            r@.len() == 64,
    {
        let digest = sha256_digest(input.as_bytes());
        proof {
            lemma_hex_lower_len(digest@);
        }
        to_hex_lower(digest.as_slice())
    }

    /// The salted password hash: SHA-256 of the password followed by the
    /// fixed salt, rendered as lower-case hex.
    pub fn hash_password(password: &str) -> (r: String)
        ensures
            r@ == spec_sha256_hex(password@ + spec_password_salt()),
            r@.len() == 64,
    {
        let mut salted = password.to_owned();
        salted.append("watermelo_salt_2024");
        CryptoUtils::sha256(salted.as_str())
    }

    /// Whether `hash` is the salted hash of `password`.
    pub fn verify_password(password: &str, hash: &str) -> (r: bool)
        ensures
            r == (spec_sha256_hex(password@ + spec_password_salt()) == hash@),
    {
        let computed = CryptoUtils::hash_password(password);
        str_eq(computed.as_str(), hash)
    }

    /// The invite code of a user id.
    pub fn generate_invite_code(user_id: u32) -> (r: String)
        ensures
            r@ == spec_invite_code(user_id as int),
    {
        let mut base = String::from_str("USER");
        let digits = u64_to_string(user_id as u64);
        base.append(digits.as_str());
        let hash = CryptoUtils::sha256(base.as_str());
        let mut code = String::new();
        let mut i: usize = 0;
        while i < 8
            invariant
                i <= 8,
                hash@.len() == 64,
                hash@ == spec_sha256_hex("USER"@ + spec_u64_chars(user_id as int)),
                code@.len() == i,
                forall|k: int| 0 <= k < i ==> code@[k] == spec_upper_hex_char(hash@[k]),
            decreases 8 - i,
        {
            let c = hash.as_str().get_char(i);
            push_char(&mut code, upper_hex_char(c));
            i = i + 1;
        }
        proof {
            assert(code@ =~= spec_invite_code(user_id as int));
        }
        code
    }

    /// Invite codes cannot be inverted back to a user id; the lookup is
    /// answered from storage outside this library.
    pub fn parse_invite_code(invite_code: &str) -> (r: Option<u32>)
        ensures
            r is None,
    {
        let _ = invite_code;
        None
    }

    /// Relies on `rand::random_range`: a uniformly drawn index below
    /// `bound`; the function panics only on an empty range, which the
    /// precondition rules out.  The draw depends on the generator, so only
    /// the bound is promised.
    #[verifier::external_body]
    fn random_index(bound: usize) -> (r: usize)
        requires
            bound > 0,
        ensures
            r < bound,
    {
        rand::random_range(0..bound)
    }

    /// A random string of ASCII letters and digits.
    pub fn generate_random_string(length: usize) -> (r: String)
        ensures
            r@.len() == length,
            forall|k: int| 0 <= k < length ==> spec_is_alnum(#[trigger] r@[k]),
    {
        let mut s = String::new();
        let mut i: usize = 0;
        while i < length
            invariant
                i <= length,
                s@.len() == i,
                forall|k: int| 0 <= k < i ==> spec_is_alnum(#[trigger] s@[k]),
            decreases length - i,
        {
            let idx = CryptoUtils::random_index(62);
            let c: char = if idx < 26 {
                (65u8 + idx as u8) as char
            } else if idx < 52 {
                (97u8 + (idx - 26) as u8) as char
            } else {
                (48u8 + (idx - 52) as u8) as char
            };
            push_char(&mut s, c);
            i = i + 1;
        }
        s
    }
}

/// ASCII letters and digits.
pub open spec fn spec_is_alnum(c: char) -> bool {
    ('A' <= c && c <= 'Z') || ('a' <= c && c <= 'z') || ('0' <= c && c <= '9')
}

} // verus!
