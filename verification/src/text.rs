//! Byte-level helpers shared by the marshaling code: scanning for the string
//! terminator, building terminated byte strings and rendering numbers.

use vstd::prelude::*;
use vstd::slice::*;
use vstd::string::*;
use vstd::utf8::{
    encode_scalar, encode_utf8, has_width_1_encoding, has_width_2_encoding, has_width_3_encoding,
    is_scalar, last_continuation_byte, leading_byte_width_1, leading_byte_width_2,
    leading_byte_width_3, leading_byte_width_4, second_last_continuation_byte,
    third_last_continuation_byte,
};

verus! {

/// The index of the first zero byte at or after `from`, or the length of
/// `bytes` where there is none.
pub open spec fn first_nul_from(bytes: Seq<u8>, from: int) -> int
    decreases bytes.len() - from,
{
    if from >= bytes.len() || bytes[from] == 0u8 {
        from
    } else {
        first_nul_from(bytes, from + 1)
    }
}

/// The index of the first zero byte of `bytes`, or its length where it holds none.
pub open spec fn first_nul(bytes: Seq<u8>) -> int {
    first_nul_from(bytes, 0)
}

/// Whether `bytes` holds a zero byte.
pub open spec fn has_nul(bytes: Seq<u8>) -> bool {
    exists|i: int| 0 <= i < bytes.len() && bytes[i] == 0u8
}

/// `bytes` followed by the terminator.
pub open spec fn terminated(bytes: Seq<u8>) -> Seq<u8> {
    bytes.push(0u8)
}

/// `first_nul_from` stops at the first zero byte and nowhere before it.
pub proof fn lemma_first_nul_from(bytes: Seq<u8>, from: int)
    requires
        0 <= from <= bytes.len(),
    ensures
        from <= first_nul_from(bytes, from) <= bytes.len(),
        forall|j: int| from <= j < first_nul_from(bytes, from) ==> bytes[j] != 0u8,
        first_nul_from(bytes, from) < bytes.len() ==> bytes[first_nul_from(bytes, from)] == 0u8,
    decreases bytes.len() - from,
{
    if from < bytes.len() && bytes[from] != 0u8 {
        lemma_first_nul_from(bytes, from + 1);
    }
}

/// `first_nul` is below the length exactly when there is a zero byte, and
/// every byte before it is non-zero.
pub proof fn lemma_first_nul(bytes: Seq<u8>)
    ensures
        0 <= first_nul(bytes) <= bytes.len(),
        has_nul(bytes) <==> first_nul(bytes) < bytes.len(),
        forall|j: int| 0 <= j < first_nul(bytes) ==> bytes[j] != 0u8,
        first_nul(bytes) < bytes.len() ==> bytes[first_nul(bytes)] == 0u8,
{
    lemma_first_nul_from(bytes, 0);
}

proof fn lemma_one_byte_scalar(v: u32)
    by (bit_vector)
    requires
        v <= 0x7F,
    ensures
        ((v & 0x7F) as u8 == 0u8) <==> v == 0,
{
}

proof fn lemma_leading_and_continuation_bytes(v: u32)
    by (bit_vector)
    ensures
        0xC0u8 | ((v >> 6) & 0x1F) as u8 != 0u8,
        0xE0u8 | ((v >> 12) & 0x0F) as u8 != 0u8,
        0xF0u8 | ((v >> 18) & 0x7) as u8 != 0u8,
        0x80u8 | (v & 0x3F) as u8 != 0u8,
        0x80u8 | ((v >> 6) & 0x3F) as u8 != 0u8,
        0x80u8 | ((v >> 12) & 0x3F) as u8 != 0u8,
{
}

proof fn lemma_nul_in_scalar(v: u32)
    requires
        is_scalar(v),
    ensures
        has_nul(encode_scalar(v)) <==> v == 0,
{
    lemma_leading_and_continuation_bytes(v);
    let bytes = encode_scalar(v);
    if has_width_1_encoding(v) {
        lemma_one_byte_scalar(v);
        assert(bytes[0] == leading_byte_width_1(v));
        if v == 0 {
            assert(0 <= 0 < bytes.len() && bytes[0] == 0u8);
        }
    } else if has_width_2_encoding(v) {
        assert(bytes[0] == leading_byte_width_2(v));
        assert(bytes[1] == last_continuation_byte(v));
    } else if has_width_3_encoding(v) {
        assert(bytes[0] == leading_byte_width_3(v));
        assert(bytes[1] == second_last_continuation_byte(v));
        assert(bytes[2] == last_continuation_byte(v));
    } else {
        assert(bytes[0] == leading_byte_width_4(v));
        assert(bytes[1] == third_last_continuation_byte(v));
        assert(bytes[2] == second_last_continuation_byte(v));
        assert(bytes[3] == last_continuation_byte(v));
    }
}

proof fn lemma_nul_in_concat(a: Seq<u8>, b: Seq<u8>)
    ensures
        has_nul(a + b) <==> has_nul(a) || has_nul(b),
{
    let ab = a + b;
    if has_nul(a) {
        let i = choose|i: int| 0 <= i < a.len() && a[i] == 0u8;
        assert(ab[i] == 0u8);
    }
    if has_nul(b) {
        let i = choose|i: int| 0 <= i < b.len() && b[i] == 0u8;
        assert(ab[a.len() + i] == 0u8);
    }
    if has_nul(ab) {
        let i = choose|i: int| 0 <= i < ab.len() && ab[i] == 0u8;
        if i < a.len() {
            assert(a[i] == 0u8);
        } else {
            assert(b[i - a.len()] == 0u8);
        }
    }
}

/// The UTF-8 encoding of a text holds a zero byte exactly when the text
/// holds the character NUL: the terminator cannot hide in the encoding of
/// another character.
pub proof fn lemma_nul_in_text(chars: Seq<char>)
    ensures
        has_nul(encode_utf8(chars)) <==> chars.contains('\0'),
    decreases chars.len(),
{
    if chars.len() == 0 {
        assert(!chars.contains('\0'));
    } else {
        let rest = chars.drop_first();
        vstd::utf8::char_is_scalar(chars[0]);
        lemma_nul_in_scalar(chars[0] as u32);
        lemma_nul_in_concat(encode_scalar(chars[0] as u32), encode_utf8(rest));
        lemma_nul_in_text(rest);
        if chars.contains('\0') {
            let i = choose|i: int| 0 <= i < chars.len() && chars[i] == '\0';
            if i > 0 {
                assert(rest[i - 1] == '\0');
            }
        }
        if rest.contains('\0') {
            let i = choose|i: int| 0 <= i < rest.len() && rest[i] == '\0';
            assert(chars[i + 1] == '\0');
        }
        if chars[0] as u32 == 0 {
            vstd::utf8::char_u32_cast(chars[0], 0u32);
            assert(chars[0] == '\0');
        }
    }
}

/// Finds the first zero byte of `bytes`.
pub fn find_nul(bytes: &[u8]) -> (r: Option<usize>)
    ensures
        r is Some <==> has_nul(bytes@),
        r is Some ==> r.unwrap() == first_nul(bytes@),
{
    let mut i: usize = 0;
    while i < bytes.len()
        invariant
            i <= bytes.len(),
            forall|j: int| 0 <= j < i ==> bytes@[j] != 0u8,
        decreases bytes.len() - i,
    {
        if bytes[i] == 0 {
            proof {
                lemma_first_nul(bytes@);
            }
            return Some(i);
        }
        i += 1;
    }
    None
}

/// Encodes `s` as a terminated byte string: its UTF-8 bytes and one zero byte.
/// Text that holds the character NUL has no such encoding; the position of
/// the first zero byte among its UTF-8 bytes is returned instead.
pub fn c_string(s: &str) -> (r: Result<Vec<u8>, usize>)
    ensures
        r is Err <==> s@.contains('\0'),
        match r {
            Ok(v) => !has_nul(s.spec_bytes()) && v@ == terminated(s.spec_bytes()),
            Err(p) => has_nul(s.spec_bytes()) && p == first_nul(s.spec_bytes()),
        },
{
    proof {
        lemma_nul_in_text(s@);
    }
    let bytes = s.as_bytes();
    match find_nul(bytes) {
        Some(p) => Err(p),
        None => {
            let mut v = slice_to_vec(bytes);
            v.push(0u8);
            Ok(v)
        },
    }
}

/// The decimal digit for a value below ten.
pub open spec fn digit(d: nat) -> char {
    if d == 0 {
        '0'
    } else if d == 1 {
        '1'
    } else if d == 2 {
        '2'
    } else if d == 3 {
        '3'
    } else if d == 4 {
        '4'
    } else if d == 5 {
        '5'
    } else if d == 6 {
        '6'
    } else if d == 7 {
        '7'
    } else if d == 8 {
        '8'
    } else {
        '9'
    }
}

/// The decimal numeral of `n`, most significant digit first, without padding.
pub open spec fn decimal(n: nat) -> Seq<char>
    decreases n,
{
    if n < 10 {
        seq![digit(n)]
    } else {
        decimal(n / 10).push(digit(n % 10))
    }
}

fn digit_text(d: u64) -> (s: &'static str)
    requires
        d < 10,
    ensures
        s@ == seq![digit(d as nat)],
{
    proof {
        reveal_strlit("0");
        reveal_strlit("1");
        reveal_strlit("2");
        reveal_strlit("3");
        reveal_strlit("4");
        reveal_strlit("5");
        reveal_strlit("6");
        reveal_strlit("7");
        reveal_strlit("8");
        reveal_strlit("9");
    }
    let s = if d == 0 {
        "0"
    } else if d == 1 {
        "1"
    } else if d == 2 {
        "2"
    } else if d == 3 {
        "3"
    } else if d == 4 {
        "4"
    } else if d == 5 {
        "5"
    } else if d == 6 {
        "6"
    } else if d == 7 {
        "7"
    } else if d == 8 {
        "8"
    } else {
        "9"
    };
    assert(s@ =~= seq![digit(d as nat)]);
    s
}

/// Appends the decimal numeral of `n` to `out`.
pub fn append_decimal(out: &mut String, n: u64)
    ensures
        final(out)@ == old(out)@ + decimal(n as nat),
    decreases n,
{
    if n >= 10 {
        append_decimal(out, n / 10);
    }
    out.append(digit_text(n % 10));
    assert(out@ =~= old(out)@ + decimal(n as nat));
}

} // verus!
