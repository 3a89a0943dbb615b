//! Validation of the backend's textual identifiers.
//!
//! A federation id is the lowercase-or-uppercase hex form of a 32-byte
//! hash, and an operation id the hex form of a 32-byte value: both are
//! exactly 64 hexadecimal characters. The backend refuses anything
//! else, so recovery and routing check the shape before any call is
//! made.

use vstd::prelude::*;

verus! {

/// Whether the character is a hexadecimal digit.
pub open spec fn is_hex_digit(c: char) -> bool {
    ('0' <= c && c <= '9') || ('a' <= c && c <= 'f') || ('A' <= c && c <= 'F')
}

/// Whether the character sequence is exactly `len` hex digits.
pub open spec fn spec_hex_id_valid(s: Seq<char>, len: int) -> bool {
    s.len() == len && forall|i: int| 0 <= i < s.len() ==> is_hex_digit(#[trigger] s[i])
}

/// Whether the string is a well-formed federation id: 64 hex digits.
pub open spec fn spec_federation_id_valid(s: Seq<char>) -> bool {
    spec_hex_id_valid(s, 64)
}

/// Whether the string is a well-formed operation id: 64 hex digits.
pub open spec fn spec_operation_id_valid(s: Seq<char>) -> bool {
    spec_hex_id_valid(s, 64)
}

/// Check that the string is exactly `len` hex digits.
fn hex_id_valid(s: &String, len: usize) -> (r: bool)
    ensures
        r == spec_hex_id_valid(s@, len as int),
{
    broadcast use vstd::string::is_ascii_spec_bytes;

    let st = s.as_str();
    if !st.is_ascii() {
        proof {
            assert(!spec_hex_id_valid(s@, len as int)) by {
                if spec_hex_id_valid(s@, len as int) {
                    assert forall|i: int|
                        0 <= i < st@.len() implies '\0' <= #[trigger] st@[i] <= '\u{7f}' by {
                        assert(is_hex_digit(s@[i]));
                    }
                    assert(vstd::utf8::is_ascii_chars(st@));
                }
            };
        }
        return false;
    }
    let bytes = st.as_bytes();
    proof {
        assert(bytes@ =~= Seq::new(s@.len(), |j: int| s@[j] as u8));
    }
    if bytes.len() != len {
        return false;
    }
    let n = bytes.len();
    let mut i: usize = 0;
    while i < n
        invariant
            n == s@.len(),
            n == bytes@.len(),
            i <= n,
            bytes@ == Seq::new(s@.len(), |j: int| s@[j] as u8),
            forall|j: int| 0 <= j < s@.len() ==> '\0' <= #[trigger] s@[j] <= '\u{7f}',
            forall|j: int| 0 <= j < i ==> is_hex_digit(#[trigger] s@[j]),
        decreases n - i,
    {
        let b = bytes[i];
        let hex = (48 <= b && b <= 57) || (97 <= b && b <= 102) || (65 <= b && b <= 70);
        proof {
            assert(b == s@[i as int] as u8);
            assert(hex == is_hex_digit(s@[i as int]));
        }
        if !hex {
            return false;
        }
        i += 1;
    }
    true
}

/// Check that the string is a well-formed federation id.
pub fn federation_id_valid(s: &String) -> (r: bool)
    ensures
        r == spec_federation_id_valid(s@),
{
    hex_id_valid(s, 64)
}

/// Check that the string is a well-formed operation id.
pub fn operation_id_valid(s: &String) -> (r: bool)
    ensures
        r == spec_operation_id_valid(s@),
{
    hex_id_valid(s, 64)
}

} // verus!
