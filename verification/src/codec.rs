//! Decoding of the two raw layouts that recur across telemetry payloads:
//! fixed-size text buffers terminated by a NUL byte, and 32-bit words whose
//! bits are independent status flags.

use crate::error::{DCMIError, DCMIResult};
use vstd::prelude::*;
use vstd::string::StringExecFns;
use vstd::utf8::{decode_utf8, valid_utf8};

verus! {

/// Index of the first NUL byte of `b`, or `b.len()` when none occurs.
pub open spec fn first_nul(b: Seq<u8>) -> int
    decreases b.len(),
{
    if b.len() == 0 {
        0
    } else if b[0] == 0 {
        0
    } else {
        1 + first_nul(b.drop_first())
    }
}

/// The first NUL byte is at the first index holding zero.
proof fn lemma_first_nul_at(b: Seq<u8>, k: int)
    requires
        0 <= k < b.len(),
        b[k] == 0,
        forall|j: int| 0 <= j < k ==> b[j] != 0,
    ensures
        first_nul(b) == k,
    decreases k,
{
    if k > 0 {
        let t = b.drop_first();
        assert(forall|j: int| 0 <= j < k - 1 ==> t[j] == b[j + 1] && b[j + 1] != 0);
        assert(t[k - 1] == b[k]);
        lemma_first_nul_at(t, k - 1);
    }
}

/// A buffer without any NUL byte has its first NUL at the very end.
proof fn lemma_first_nul_absent(b: Seq<u8>)
    requires
        forall|j: int| 0 <= j < b.len() ==> b[j] != 0,
    ensures
        first_nul(b) == b.len(),
    decreases b.len(),
{
    if b.len() > 0 {
        let t = b.drop_first();
        assert(forall|j: int| 0 <= j < t.len() ==> t[j] == b[j + 1] && b[j + 1] != 0);
        lemma_first_nul_absent(t);
    }
}

/// The first NUL lies within the buffer exactly when the buffer holds a NUL,
/// and then it is a NUL preceded by none.
pub proof fn lemma_first_nul_props(b: Seq<u8>)
    ensures
        0 <= first_nul(b) <= b.len(),
        b.contains(0) <==> first_nul(b) < b.len(),
        first_nul(b) < b.len() ==> b[first_nul(b)] == 0,
        forall|j: int| 0 <= j < first_nul(b) ==> b[j] != 0,
    decreases b.len(),
{
    if b.len() > 0 {
        let t = b.drop_first();
        lemma_first_nul_props(t);
        if b[0] != 0 {
            assert(forall|j: int| 0 <= j < t.len() ==> t[j] == b[j + 1]);
            assert(forall|j: int| 0 < j < first_nul(b) ==> b[j] == t[j - 1] && t[j - 1] != 0);
            if b.contains(0) {
                let i = choose|i: int| 0 <= i < b.len() && b[i] == 0;
                assert(t[i - 1] == 0);
                assert(t.contains(0));
            }
            if t.contains(0) {
                let i = choose|i: int| 0 <= i < t.len() && t[i] == 0;
                assert(b[i + 1] == 0);
                assert(b.contains(0));
            }
        } else {
            assert(b.contains(0));
        }
    }
}

/// Model of decoding a fixed-size text buffer: the bytes strictly before the
/// first NUL terminator, decoded as UTF-8. `None` when no terminator occurs
/// within the buffer, or when the prefix is not valid text.
pub open spec fn spec_decode_text(b: Seq<u8>) -> Option<Seq<char>> {
    if first_nul(b) == b.len() {
        None
    } else if valid_utf8(b.take(first_nul(b))) {
        Some(decode_utf8(b.take(first_nul(b))))
    } else {
        None
    }
}

/// Decoding a text buffer fails exactly when the buffer has no NUL
/// terminator or the bytes before the first terminator are not valid text;
/// otherwise it yields exactly that prefix.
pub proof fn lemma_text_decoding_law(b: Seq<u8>)
    ensures
        !b.contains(0) ==> spec_decode_text(b) is None,
        b.contains(0) && valid_utf8(b.take(first_nul(b))) ==> spec_decode_text(b) == Some(
            decode_utf8(b.take(first_nul(b))),
        ),
        b.contains(0) && !valid_utf8(b.take(first_nul(b))) ==> spec_decode_text(b) is None,
{
    lemma_first_nul_props(b);
}

/// Relies on `core::str::from_utf8`: it returns a string exactly when the
/// bytes are valid UTF-8, and the returned string views those very bytes.
#[verifier::external_body]
fn bytes_as_str(v: &[u8]) -> (r: Option<&str>)
    ensures
        r matches Some(s) ==> valid_utf8(v@) && s@ == decode_utf8(v@),
        r is None ==> !valid_utf8(v@),
{
    match core::str::from_utf8(v) {
        Ok(s) => Some(s),
        Err(_) => None,
    }
}

/// Index of the first NUL byte of `buf`, or its length when none occurs.
fn find_nul(buf: &Vec<u8>) -> (r: usize)
    ensures
        r == first_nul(buf@),
{
    let n = buf.len();
    let mut i: usize = 0;
    while i < n
        invariant
            i <= n,
            n == buf@.len(),
            forall|j: int| 0 <= j < i ==> buf@[j] != 0,
        decreases n - i,
    {
        if buf[i] == 0 {
            proof {
                lemma_first_nul_at(buf@, i as int);
            }
            return i;
        }
        i += 1;
    }
    proof {
        lemma_first_nul_absent(buf@);
    }
    n
}

/// Decodes a fixed-size text buffer: the bytes strictly before the first NUL
/// terminator, as text. A buffer without a terminator, or with a prefix that
/// is not valid text, is a decode failure, never undefined behaviour.
pub fn decode_text(buf: &Vec<u8>) -> (r: DCMIResult<String>)
    ensures
        r matches Ok(s) ==> spec_decode_text(buf@) == Some(s@),
        r is Err ==> spec_decode_text(buf@) is None && r == Err::<String, DCMIError>(
            DCMIError::DecodeFailure,
        ),
{
    let k = find_nul(buf);
    proof {
        lemma_first_nul_props(buf@);
    }
    if k == buf.len() {
        return Err(DCMIError::DecodeFailure);
    }
    let mut prefix: Vec<u8> = Vec::new();
    let mut i: usize = 0;
    while i < k
        invariant
            i <= k,
            k < buf@.len(),
            prefix@ =~= buf@.take(i as int),
        decreases k - i,
    {
        prefix.push(buf[i]);
        i += 1;
    }
    assert(prefix@ =~= buf@.take(k as int));
    match bytes_as_str(prefix.as_slice()) {
        Some(s) => Ok(String::from_str(s)),
        None => Err(DCMIError::DecodeFailure),
    }
}

/// Expands a 32-bit status word into exactly 32 booleans, one per bit
/// position, least-significant bit first.
pub fn unpack_bit_flags(raw: u32) -> (r: Vec<bool>)
    ensures
        r@.len() == 32,
        forall|i: int| 0 <= i < 32 ==> r@[i] == (((raw >> (i as u32)) & 1u32) == 1u32),
{
    let mut r: Vec<bool> = Vec::new();
    let mut i: u32 = 0;
    while i < 32
        invariant
            i <= 32,
            r@.len() == i as int,
            forall|j: int| 0 <= j < i ==> r@[j] == (((raw >> (j as u32)) & 1u32) == 1u32),
        decreases 32 - i,
    {
        r.push(((raw >> i) & 1) == 1);
        i += 1;
    }
    r
}

} // verus!
