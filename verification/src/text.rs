//! Text helpers: zero bytes and C strings, diagnostic logs, decimal numbers.

use vstd::prelude::*;
use vstd::slice::slice_subrange;
use vstd::utf8::{decode_utf8, valid_utf8};

verus! {

/// `position` is the index of the earliest zero byte of `bytes`.
pub open spec fn is_first_nul(bytes: Seq<u8>, position: int) -> bool {
    &&& 0 <= position < bytes.len()
    &&& bytes[position] == 0u8
    &&& forall|j: int| 0 <= j < position ==> bytes[j] != 0u8
}

/// `bytes` holds no zero byte, so it can be handed over as a C string.
pub open spec fn is_nul_free(bytes: Seq<u8>) -> bool {
    forall|j: int| 0 <= j < bytes.len() ==> bytes[j] != 0u8
}

/// Index of the earliest zero byte of `bytes`, where there is one.
pub open spec fn nul_position(bytes: Seq<u8>) -> int {
    choose|position: int| is_first_nul(bytes, position)
}

/// A sequence has at most one earliest zero byte.
pub proof fn lemma_first_nul_unique(bytes: Seq<u8>, p: int, q: int)
    requires
        is_first_nul(bytes, p),
        is_first_nul(bytes, q),
    ensures
        p == q,
{
    if p < q {
        assert(bytes[p] != 0u8);
    } else if q < p {
        assert(bytes[q] != 0u8);
    }
}

/// The bytes of a C string held in `buffer`: those before the earliest zero
/// byte, or all of them where the buffer holds none.
pub open spec fn until_nul(buffer: Seq<u8>) -> Seq<u8> {
    if is_nul_free(buffer) {
        buffer
    } else {
        buffer.take(nul_position(buffer))
    }
}

/// Finds the earliest zero byte.
pub fn find_nul(bytes: &[u8]) -> (found: Option<usize>)
    ensures
        match found {
            Some(position) => is_first_nul(bytes@, position as int),
            None => is_nul_free(bytes@),
        },
{
    let mut i: usize = 0;
    while i < bytes.len()
        invariant
            i <= bytes@.len(),
            forall|j: int| 0 <= j < i ==> bytes@[j] != 0u8,
        decreases bytes@.len() - i,
    {
        if bytes[i] == 0 {
            return Some(i);
        }
        i += 1;
    }
    None
}

/// The text that lossy UTF-8 decoding makes of `bytes`: the text itself
/// where the bytes encode one, and otherwise a text in which each ill-formed
/// part is replaced by U+FFFD.
pub uninterp spec fn lossy_text(bytes: Seq<u8>) -> Seq<char>;

/// Decodes bytes as UTF-8, replacing what is ill-formed.
///
/// Trusted: stands for `String::from_utf8_lossy`, whose result is made an
/// owned string. The result depends on the bytes alone. std documents that
/// bytes which are valid UTF-8 give the string that they encode; what it
/// gives for other bytes is only named here.
#[verifier::external_body]
fn decode_lossy(bytes: &[u8]) -> (text: String)
    ensures
        text@ == lossy_text(bytes@),
        valid_utf8(bytes@) ==> text@ == decode_utf8(bytes@),
{
    String::from_utf8_lossy(bytes).into_owned()
}

/// The text of a diagnostic log that the context wrote into `buffer` as a
/// C string: the bytes before the terminator, decoded lossily.
pub fn log_text(buffer: &[u8]) -> (text: String)
    ensures
        text@ == lossy_text(until_nul(buffer@)),
        valid_utf8(until_nul(buffer@)) ==> text@ == decode_utf8(until_nul(buffer@)),
{
    match find_nul(buffer) {
        Some(end) => {
            proof {
                assert(!is_nul_free(buffer@));
                lemma_first_nul_unique(buffer@, end as int, nul_position(buffer@));
            }
            decode_lossy(slice_subrange(buffer, 0, end))
        },
        None => decode_lossy(buffer),
    }
}

/// The character of a single decimal digit.
pub open spec fn digit_char(d: nat) -> char
    recommends
        d < 10,
{
    if d == 0 {
        '0'
    } else if d == 1 {
        '1'
    } else if d == 2 {
        '2'
    } else if d == 3 {
        '3'
    } else if d == 4 {
        '4'
    } else if d == 5 {
        '5'
    } else if d == 6 {
        '6'
    } else if d == 7 {
        '7'
    } else if d == 8 {
        '8'
    } else {
        '9'
    }
}

/// The decimal numeral of `n`, without sign or leading zeros.
pub open spec fn decimal(n: nat) -> Seq<char>
    decreases n,
{
    if n < 10 {
        seq![digit_char(n)]
    } else {
        decimal(n / 10).push(digit_char(n % 10))
    }
}

/// Appends one character to a string.
///
/// Trusted: stands for `String::push`, which std documents as appending the
/// given character to the end of the string.
#[verifier::external_body]
fn push_char(text: &mut String, c: char)
    ensures
        final(text)@ == old(text)@.push(c),
{
    text.push(c)
}

fn digit(d: usize) -> (c: char)
    requires
        d < 10,
    ensures
        c == digit_char(d as nat),
{
    if d == 0 {
        '0'
    } else if d == 1 {
        '1'
    } else if d == 2 {
        '2'
    } else if d == 3 {
        '3'
    } else if d == 4 {
        '4'
    } else if d == 5 {
        '5'
    } else if d == 6 {
        '6'
    } else if d == 7 {
        '7'
    } else if d == 8 {
        '8'
    } else {
        '9'
    }
}

/// Appends the decimal numeral of `n` to `text`.
pub fn push_decimal(text: &mut String, n: usize)
    ensures
        final(text)@ == old(text)@ + decimal(n as nat),
    decreases n,
{
    if n < 10 {
        push_char(text, digit(n));
    } else {
        push_decimal(text, n / 10);
        push_char(text, digit(n % 10));
    }
}

} // verus!
