//! Hexadecimal text to bytes.

use vstd::prelude::*;
use vstd::string::*;

verus! {

/// The value of the hexadecimal digit with character code `code`, in either
/// case; `None` for any other code.
pub open spec fn nibble_of(code: int) -> Option<u8> {
    if 48 <= code <= 57 {
        Some((code - 48) as u8)
    } else if 97 <= code <= 102 {
        Some((code - 87) as u8)
    } else if 65 <= code <= 70 {
        Some((code - 55) as u8)
    } else {
        None
    }
}

/// The value of a hexadecimal digit.
pub open spec fn hex_digit(c: char) -> Option<u8> {
    nibble_of(c as int)
}

/// Whether `s` is an even number of hexadecimal digits.
pub open spec fn is_hex(s: Seq<char>) -> bool {
    &&& s.len() % 2 == 0
    &&& forall|i: int| 0 <= i < s.len() ==> hex_digit(#[trigger] s[i]) is Some
}

/// The byte that the digit pair at position `k` of `s` stands for.
pub open spec fn hex_byte(s: Seq<char>, k: int) -> u8 {
    (16 * hex_digit(s[2 * k]).unwrap() + hex_digit(s[2 * k + 1]).unwrap()) as u8
}

/// The bytes that a hexadecimal text stands for: one per digit pair, the
/// first digit of a pair being the upper half of its byte.
pub open spec fn hex_bytes(s: Seq<char>) -> Seq<u8> {
    Seq::new(s.len() / 2, |k: int| hex_byte(s, k))
}

/// The bytes of `s` where it is hexadecimal text, `None` where it is not.
pub open spec fn hex_decoded(s: Seq<char>) -> Option<Seq<u8>> {
    if is_hex(s) {
        Some(hex_bytes(s))
    } else {
        None
    }
}

fn nibble(b: u8) -> (r: Option<u8>)
    ensures
        r == nibble_of(b as int),
        r matches Some(v) ==> v < 16,
{
    if 48 <= b && b <= 57 {
        Some(b - 48)
    } else if 97 <= b && b <= 102 {
        Some(b - 87)
    } else if 65 <= b && b <= 70 {
        Some(b - 55)
    } else {
        None
    }
}

/// Decodes hexadecimal text. Succeeds exactly on an even number of
/// hexadecimal digits (upper or lower case); the empty text gives no bytes.
pub fn decode_hex(text: &str) -> (r: Option<Vec<u8>>)
    ensures
        match r {
            Some(bytes) => hex_decoded(text@) == Some(bytes@),
            None => hex_decoded(text@) is None,
        },
{
    if !text.is_ascii() {
        assert(!is_hex(text@)) by {
            if is_hex(text@) {
                assert forall|i: int| 0 <= i < text@.len() implies '\0' <= #[trigger] text@[i]
                    <= '\u{7f}' by {
                    assert(hex_digit(text@[i]) is Some);
                }
            }
        }
        return None;
    }
    let bytes = text.as_bytes();
    proof {
        is_ascii_spec_bytes(text);
    }
    let n = bytes.len();
    assert(n == text@.len());
    assert forall|i: int| 0 <= i < n implies (#[trigger] bytes@[i]) as int == text@[i] as int by {
        assert('\0' <= text@[i] <= '\u{7f}');
    }
    if n % 2 != 0 {
        return None;
    }
    let mut out: Vec<u8> = Vec::new();
    let mut i: usize = 0;
    while i < n
        invariant
            n == text@.len(),
            n == bytes@.len(),
            n % 2 == 0,
            i % 2 == 0,
            i <= n,
            out@.len() == i / 2,
            forall|k: int| 0 <= k < n ==> (#[trigger] bytes@[k]) as int == text@[k] as int,
            forall|k: int| 0 <= k < i ==> hex_digit(#[trigger] text@[k]) is Some,
            forall|k: int| 0 <= k < i / 2 ==> out@[k] == hex_byte(text@, k),
        decreases n - i,
    {
        let high = nibble(bytes[i]);
        let low = nibble(bytes[i + 1]);
        assert(high == hex_digit(text@[i as int]));
        assert(low == hex_digit(text@[i as int + 1]));
        match (high, low) {
            (Some(h), Some(l)) => {
                out.push(h * 16 + l);
                assert(out@[i as int / 2] == hex_byte(text@, i as int / 2));
            },
            _ => {
                assert(!is_hex(text@));
                return None;
            },
        }
        i = i + 2;
    }
    assert(is_hex(text@));
    assert(out@ =~= hex_bytes(text@));
    Some(out)
}

/// Whether two byte strings are equal.
pub fn same_bytes(a: &Vec<u8>, b: &Vec<u8>) -> (r: bool)
    ensures
        r == (a@ == b@),
{
    if a.len() != b.len() {
        return false;
    }
    let mut i: usize = 0;
    while i < a.len()
        invariant
            a@.len() == b@.len(),
            i <= a@.len(),
            forall|k: int| 0 <= k < i ==> a@[k] == b@[k],
        decreases a.len() - i,
    {
        if a[i] != b[i] {
            return false;
        }
        i = i + 1;
    }
    assert(a@ =~= b@);
    true
}

} // verus!
