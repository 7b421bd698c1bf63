use vstd::prelude::*;

verus! {

/// Why the textual bytecode could not be decoded.
#[derive(Clone, Copy, Debug, PartialEq, Eq, Structural)]
pub enum HexError {
    /// A character outside `0-9`, `a-f`, `A-F` occurs in the hex body.
    InvalidDigit,
    /// The hex body has an odd number of characters, so they do not pair
    /// into bytes.
    OddLength,
}

/// Does `c` stand for a hexadecimal digit?
pub open spec fn is_hex_digit(c: char) -> bool {
    let v = c as u32;
    (('0' as u32) <= v && v <= ('9' as u32)) || (('a' as u32) <= v && v <= ('f' as u32)) || ((
    'A' as u32) <= v && v <= ('F' as u32))
}

/// The numeric value of the hexadecimal digit `c`.
pub open spec fn hex_digit_value(c: char) -> u8
    recommends
        is_hex_digit(c),
{
    let v = c as u32;
    if ('0' as u32) <= v && v <= ('9' as u32) {
        (v - ('0' as u32)) as u8
    } else if ('a' as u32) <= v && v <= ('f' as u32) {
        (v - ('a' as u32) + 10) as u8
    } else {
        (v - ('A' as u32) + 10) as u8
    }
}

/// The byte written as the two hexadecimal digits `hi` `lo`.
pub open spec fn hex_byte(hi: char, lo: char) -> u8
    recommends
        is_hex_digit(hi),
        is_hex_digit(lo),
{
    (hex_digit_value(hi) * 16 + hex_digit_value(lo)) as u8
}

/// A character sequence is valid hexadecimal: every character is a hex digit
/// and the length is even, so the characters pair into bytes.
pub open spec fn valid_hex(s: Seq<char>) -> bool {
    s.len() % 2 == 0 && (forall|i: int| 0 <= i < s.len() ==> is_hex_digit(#[trigger] s[i]))
}

/// The bytes that a valid hexadecimal character sequence denotes.
pub open spec fn decoded_bytes(s: Seq<char>) -> Seq<u8> {
    Seq::new((s.len() / 2) as nat, |i: int| hex_byte(s[2 * i], s[2 * i + 1]))
}

/// The bytecode characters after an optional `0x` prefix.
pub open spec fn code_body(s: Seq<char>) -> Seq<char> {
    if s.len() >= 2 && s[0] == '0' && s[1] == 'x' {
        s.skip(2)
    } else {
        s
    }
}

/// Is `c` one of the characters `0-9`, `a-f`, `A-F`?
pub fn hex_digit(c: char) -> (r: bool)
    ensures
        r == is_hex_digit(c),
{
    let v = c as u32;
    (('0' as u32) <= v && v <= ('9' as u32)) || (('a' as u32) <= v && v <= ('f' as u32)) || ((
    'A' as u32) <= v && v <= ('F' as u32))
}

/// The numeric value of the hexadecimal digit `c`.
fn digit_value(c: char) -> (r: u8)
    requires
        is_hex_digit(c),
    ensures
        r == hex_digit_value(c),
        r <= 15,
{
    let v = c as u32;
    if v <= ('9' as u32) {
        (v - ('0' as u32)) as u8
    } else if v >= ('a' as u32) {
        (v - ('a' as u32) + 10) as u8
    } else {
        (v - ('A' as u32) + 10) as u8
    }
}

/// Decode a hexadecimal character sequence into the bytes it denotes.
///
/// Succeeds exactly on valid hexadecimal; a character outside the hex
/// alphabet is reported ahead of an odd length.
pub fn decode_hex(s: &str) -> (r: Result<Vec<u8>, HexError>)
    ensures
        r matches Ok(v) ==> valid_hex(s@) && v@ == decoded_bytes(s@),
        valid_hex(s@) ==> r matches Ok(_),
        (exists|i: int| 0 <= i < s@.len() && !is_hex_digit(s@[i])) ==> r == Err::<Vec<u8>, HexError>(HexError::InvalidDigit),
        (forall|i: int| 0 <= i < s@.len() ==> is_hex_digit(#[trigger] s@[i])) && s@.len() % 2 != 0
            ==> r == Err::<Vec<u8>, HexError>(HexError::OddLength),
{
    let n = s.unicode_len();
    let mut i: usize = 0;
    while i < n
        invariant
            n == s@.len(),
            i <= n,
            forall|j: int| 0 <= j < i ==> is_hex_digit(#[trigger] s@[j]),
        decreases n - i,
    {
        if !hex_digit(s.get_char(i)) {
            return Err(HexError::InvalidDigit);
        }
        i += 1;
    }
    if n % 2 != 0 {
        return Err(HexError::OddLength);
    }
    let half = n / 2;
    let mut out: Vec<u8> = Vec::new();
    let mut k: usize = 0;
    while k < half
        invariant
            n == s@.len(),
            n % 2 == 0,
            half == n / 2,
            forall|j: int| 0 <= j < n ==> is_hex_digit(#[trigger] s@[j]),
            k <= half,
            out@.len() == k,
            forall|j: int| 0 <= j < k ==> out@[j] == hex_byte(s@[2 * j], s@[2 * j + 1]),
        decreases half - k,
    {
        let hi = s.get_char(2 * k);
        let lo = s.get_char(2 * k + 1);
        let b: u8 = digit_value(hi) * 16 + digit_value(lo);
        out.push(b);
        k += 1;
    }
    proof {
        assert(out@ =~= decoded_bytes(s@));
    }
    Ok(out)
}

/// Strip an optional `0x` prefix from the bytecode text and decode the rest
/// as hexadecimal.
pub fn decode_code(s: &str) -> (r: Result<Vec<u8>, HexError>)
    ensures
        r matches Ok(v) ==> valid_hex(code_body(s@)) && v@ == decoded_bytes(code_body(s@)),
        valid_hex(code_body(s@)) ==> r matches Ok(_),
        (exists|i: int| 0 <= i < code_body(s@).len() && !is_hex_digit(code_body(s@)[i])) ==> r
            == Err::<Vec<u8>, HexError>(HexError::InvalidDigit),
        (forall|i: int| 0 <= i < code_body(s@).len() ==> is_hex_digit(
            #[trigger] code_body(s@)[i],
        )) && code_body(s@).len() % 2 != 0 ==> r == Err::<Vec<u8>, HexError>(HexError::OddLength),
{
    let n = s.unicode_len();
    if n >= 2 && s.get_char(0) == '0' && s.get_char(1) == 'x' {
        let body = s.substring_char(2, n);
        proof {
            assert(body@ =~= code_body(s@));
        }
        decode_hex(body)
    } else {
        proof {
            assert(s@ =~= code_body(s@));
        }
        decode_hex(s)
    }
}

} // verus!
