use crate::text::push_char;
use rand::RngCore;
use vstd::prelude::*;

verus! {

/// The number of characters random identifiers are drawn from.
pub const ID_ALPHABET_LEN: u8 = 64;

/// The character of the URL- and filename-safe alphabet at index `i`:
/// `A`–`Z`, `a`–`z`, `0`–`9`, `-` and `_`.
pub open spec fn id_alphabet(i: u8) -> char
    recommends
        i < 64,
{
    if i < 26 {
        (('A' as u8) + i) as char
    } else if i < 52 {
        (('a' as u8) + (i - 26)) as char
    } else if i < 62 {
        (('0' as u8) + (i - 52)) as char
    } else if i == 62 {
        '-'
    } else {
        '_'
    }
}

/// The identifier that the random bytes `bytes` stand for: each byte picks
/// the alphabet character at its remainder modulo the alphabet's size.
pub open spec fn random_id_text(bytes: Seq<u8>) -> Seq<char> {
    Seq::new(bytes.len(), |i: int| id_alphabet(bytes[i] % 64))
}

/// Whether `c` belongs to the identifier alphabet.
pub open spec fn is_id_char(c: char) -> bool {
    ('A' <= c <= 'Z') || ('a' <= c <= 'z') || ('0' <= c <= '9') || c == '-' || c == '_'
}

fn alphabet_char(i: u8) -> (c: char)
    requires
        i < 64,
    ensures
        c == id_alphabet(i),
        is_id_char(c),
{
    if i < 26 {
        ((65u8 + i) as char)
    } else if i < 52 {
        ((97u8 + (i - 26)) as char)
    } else if i < 62 {
        ((48u8 + (i - 52)) as char)
    } else if i == 62 {
        '-'
    } else {
        '_'
    }
}

/// The identifier that the random bytes `bytes` stand for.
pub fn random_id_from_bytes(bytes: &[u8]) -> (id: String)
    ensures
        id@ == random_id_text(bytes@),
        forall|i: int| 0 <= i < id@.len() ==> is_id_char(#[trigger] id@[i]),
{
    let mut id = String::new();
    let mut i: usize = 0;
    while i < bytes.len()
        invariant
            i <= bytes@.len(),
            id@ == random_id_text(bytes@.take(i as int)),
            forall|k: int| 0 <= k < id@.len() ==> is_id_char(#[trigger] id@[k]),
        decreases bytes@.len() - i,
    {
        let c = alphabet_char(bytes[i] % ID_ALPHABET_LEN);
        push_char(&mut id, c);
        i = i + 1;
        assert(id@ =~= random_id_text(bytes@.take(i as int)));
    }
    assert(bytes@.take(i as int) == bytes@);
    id
}

/// `length` random bytes from the operating system, if it could give them.
///
/// Trusted: fills a buffer with `rand::rngs::OsRng`'s `try_fill_bytes`. What
/// is claimed: the bytes that come back fill the buffer, and an empty buffer
/// is always filled (`getrandom` asks the operating system nothing for
/// one). Which bytes come back, and whether a non-empty buffer is filled, is
/// left unsaid.
#[verifier::external_body]
fn os_random_bytes(length: usize) -> (r: Option<Vec<u8>>)
    ensures
        r matches Some(v) ==> v@.len() == length,
        length == 0 ==> r is Some,
{
    let mut buf = vec![0u8; length];
    match rand::rngs::OsRng.try_fill_bytes(&mut buf) {
        Ok(()) => Some(buf),
        Err(_) => None,
    }
}

/// A random identifier of `length` URL- and filename-safe characters, or
/// `None` when the operating system gave no randomness. An empty identifier
/// needs no randomness and is always given.
pub fn generate_random_id(length: usize) -> (id: Option<String>)
    ensures
        id matches Some(s) ==> s@.len() == length && forall|i: int|
            0 <= i < s@.len() ==> is_id_char(#[trigger] s@[i]),
        id matches Some(s) ==> exists|bytes: Seq<u8>|
            bytes.len() == length && #[trigger] random_id_text(bytes) == s@,
        length == 0 ==> (id matches Some(s) && s@.len() == 0),
{
    match os_random_bytes(length) {
        Some(bytes) => Some(random_id_from_bytes(bytes.as_slice())),
        None => None,
    }
}

} // verus!
