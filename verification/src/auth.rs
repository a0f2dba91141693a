//! Password hashing: Argon2i over the password and the configured salt, kept
//! as lower-case hexadecimal text.

use vstd::prelude::*;
use vstd::string::*;
use vstd::utf8::encode_utf8;

verus! {

/// Number of bytes in a password digest.
pub const DIGEST_LENGTH: usize = 32;

/// Fewest bytes that a salt may have.
pub const MIN_SALT_LENGTH: usize = 8;

/// Most bytes that a password or a salt may have.
pub const MAX_INPUT_LENGTH: usize = 0xffff_ffff;

/// The Argon2i digest of `password` under `salt`, with the parameters that
/// `argon2rs` uses by default: 3 passes, 4096 KiB, one lane, 32 bytes out.
pub uninterp spec fn argon2i_digest(password: Seq<char>, salt: Seq<char>) -> Seq<u8>;

/// Whether `password` and `salt` can be hashed: the salt has at least 8
/// bytes, and neither has more than 2^32 - 1.
pub open spec fn hashable(password: Seq<char>, salt: Seq<char>) -> bool {
    &&& encode_utf8(password).len() <= MAX_INPUT_LENGTH
    &&& MIN_SALT_LENGTH <= encode_utf8(salt).len() <= MAX_INPUT_LENGTH
}

/// Tells whether `password` and `salt` can be hashed.
pub fn is_hashable(password: &str, salt: &str) -> (ok: bool)
    ensures
        ok == hashable(password@, salt@),
{
    let password_length = password.as_bytes().len();
    let salt_length = salt.as_bytes().len();
    password_length <= MAX_INPUT_LENGTH && MIN_SALT_LENGTH <= salt_length && salt_length
        <= MAX_INPUT_LENGTH
}

/// Calls `argon2rs::argon2i_simple`. The contract claims that the 32 bytes
/// it returns depend on the two texts alone, and names them
/// `argon2i_digest`. The outside function panics on a salt of fewer than 8
/// bytes and on a password or salt of more than 2^32 - 1 bytes, which the
/// precondition leaves out. It lays its working memory out in the machine's
/// byte order; the claim is made for little-endian machines, on which it
/// computes Argon2i.
#[verifier::external_body]
fn argon2i(password: &str, salt: &str) -> (digest: [u8; 32])
    requires
        hashable(password@, salt@),
    ensures
        digest@ == argon2i_digest(password@, salt@),
{
    argon2rs::argon2i_simple(password, salt)
}

/// The character of the hexadecimal digit `d`, for `0 <= d <= 15`.
pub open spec fn hex_char(d: int) -> char {
    if d == 0 {
        '0'
    } else if d == 1 {
        '1'
    } else if d == 2 {
        '2'
    } else if d == 3 {
        '3'
    } else if d == 4 {
        '4'
    } else if d == 5 {
        '5'
    } else if d == 6 {
        '6'
    } else if d == 7 {
        '7'
    } else if d == 8 {
        '8'
    } else if d == 9 {
        '9'
    } else if d == 10 {
        'a'
    } else if d == 11 {
        'b'
    } else if d == 12 {
        'c'
    } else if d == 13 {
        'd'
    } else if d == 14 {
        'e'
    } else {
        'f'
    }
}

/// Lower-case hexadecimal text of `bytes`: two digits for each byte, the
/// high half first.
pub open spec fn hex_lower(bytes: Seq<u8>) -> Seq<char> {
    Seq::new(
        2 * bytes.len(),
        |i: int|
            if i % 2 == 0 {
                hex_char(bytes[i / 2] as int / 16)
            } else {
                hex_char(bytes[i / 2] as int % 16)
            },
    )
}

/// The one-character text of a hexadecimal digit.
fn hex_digit_str(d: u8) -> (s: &'static str)
    requires
        d < 16,
    ensures
        s@ == seq![hex_char(d as int)],
{
    proof {
        reveal_strlit("0");
        reveal_strlit("1");
        reveal_strlit("2");
        reveal_strlit("3");
        reveal_strlit("4");
        reveal_strlit("5");
        reveal_strlit("6");
        reveal_strlit("7");
        reveal_strlit("8");
        reveal_strlit("9");
        reveal_strlit("a");
        reveal_strlit("b");
        reveal_strlit("c");
        reveal_strlit("d");
        reveal_strlit("e");
        reveal_strlit("f");
    }
    let s = if d == 0 {
        "0"
    } else if d == 1 {
        "1"
    } else if d == 2 {
        "2"
    } else if d == 3 {
        "3"
    } else if d == 4 {
        "4"
    } else if d == 5 {
        "5"
    } else if d == 6 {
        "6"
    } else if d == 7 {
        "7"
    } else if d == 8 {
        "8"
    } else if d == 9 {
        "9"
    } else if d == 10 {
        "a"
    } else if d == 11 {
        "b"
    } else if d == 12 {
        "c"
    } else if d == 13 {
        "d"
    } else if d == 14 {
        "e"
    } else {
        "f"
    };
    assert(s@ =~= seq![hex_char(d as int)]);
    s
}

/// Lower-case hexadecimal text of `bytes`.
pub fn to_hex(bytes: &[u8]) -> (text: String)
    ensures
        text@ == hex_lower(bytes@),
{
    let mut text = String::new();
    let mut i: usize = 0;
    while i < bytes.len()
        invariant
            i <= bytes.len(),
            text@ == hex_lower(bytes@.subrange(0, i as int)),
        decreases bytes.len() - i,
    {
        let byte: u8 = bytes[i];
        let ghost before = text@;
        text.append(hex_digit_str(byte / 16));
        text.append(hex_digit_str(byte % 16));
        proof {
            let done = bytes@.subrange(0, i as int);
            let next = bytes@.subrange(0, i + 1);
            assert(next.len() == i + 1);
            assert forall|k: int| 0 <= k < 2 * (i + 1) implies text@[k] == hex_lower(next)[k] by {
                if k < 2 * i {
                    assert(before[k] == hex_lower(done)[k]);
                    assert(done[k / 2] == next[k / 2]);
                } else {
                    assert(next[k / 2] == byte);
                }
            }
            assert(text@ =~= hex_lower(next));
        }
        i = i + 1;
    }
    assert(bytes@.subrange(0, i as int) =~= bytes@);
    text
}

/// The stored form of `password` under `salt`: its Argon2i digest in
/// lower-case hexadecimal.
pub fn hash(password: &str, salt: &str) -> (hashed: String)
    requires
        hashable(password@, salt@),
    ensures
        hashed@ == hex_lower(argon2i_digest(password@, salt@)),
        hashed@.len() == 2 * DIGEST_LENGTH,
{
    let digest = argon2i(password, salt);
    to_hex(digest.as_slice())
}

/// Whether `hashed_password` is the stored form of `password` under `salt`.
pub fn verify(password: &str, hashed_password: &str, salt: &str) -> (matches: bool)
    requires
        hashable(password@, salt@),
    ensures
        matches == (hex_lower(argon2i_digest(password@, salt@)) == hashed_password@),
{
    let hashed = hash(password, salt);
    let given = hashed_password.to_owned();
    hashed == given
}

/// Two calls of `hash` on the same password and salt return the same text.
pub proof fn lemma_hash_repeats(password: &str, salt: &str, once: String, again: String)
    requires
        call_ensures(hash, (password, salt), once),
        call_ensures(hash, (password, salt), again),
    ensures
        once@ == again@,
{
}

/// `verify` accepts what `hash` returned for the same password and salt.
pub proof fn lemma_verify_accepts_hash(
    password: &str,
    salt: &str,
    hashed: String,
    given: &str,
    matches: bool,
)
    requires
        call_ensures(hash, (password, salt), hashed),
        given@ == hashed@,
        call_ensures(verify, (password, given, salt), matches),
    ensures
        matches,
{
}

} // verus!
