//! Five-character status codes, each character packed into six bits.
use vstd::prelude::*;

verus! {

/// The six-bit value of one code character: its distance from `'0'`, modulo 64.
pub open spec fn sixbit(ch: char) -> int {
    (ch as int - '0' as int) % 64
}

/// The character that a six-bit value stands for.
pub open spec fn unsixbit(v: int) -> char {
    ((v % 64 + '0' as int) as u8) as char
}

/// The packed code: the first character in the lowest six bits.
pub open spec fn sqlstate_value(ch1: char, ch2: char, ch3: char, ch4: char, ch5: char) -> int {
    sixbit(ch1) + sixbit(ch2) * 0x40 + sixbit(ch3) * 0x1000 + sixbit(ch4) * 0x40000 + sixbit(
        ch5,
    ) * 0x1000000
}

/// The five characters of a packed code, read from its low 30 bits.
pub open spec fn sqlstate_chars(code: i32) -> (char, char, char, char, char) {
    let u = (code as u32) as int;
    (
        unsixbit(u),
        unsixbit(u / 0x40),
        unsixbit(u / 0x1000),
        unsixbit(u / 0x40000),
        unsixbit(u / 0x1000000),
    )
}

/// A character that the packing keeps: `'0'` up to `'o'`.
pub open spec fn packable(ch: char) -> bool {
    '0' <= ch && ch as int <= '0' as int + 63
}

/// The code that the engine reports for a failure in external routine code.
pub const ERRCODE_EXTERNAL_ROUTINE_EXCEPTION: i32 = 515;

/// The six-bit value of `ch`, which must not come before `'0'`.
pub fn pgsixbit(ch: char) -> (r: u32)
    requires
        '0' <= ch,
    ensures
        r as int == sixbit(ch),
        r < 64,
{
    let x: u32 = ch as u32;
    let w: u32 = x - 48;
    let r: u32 = w & 0x3f;
    assert(w & 0x3f == w % 64) by (bit_vector);
    assert(r < 64);
    r
}

/// Packs five characters, none before `'0'`, into a status code.
pub fn make_sqlstate(ch1: char, ch2: char, ch3: char, ch4: char, ch5: char) -> (r: i32)
    requires
        '0' <= ch1,
        '0' <= ch2,
        '0' <= ch3,
        '0' <= ch4,
        '0' <= ch5,
    ensures
        r as int == sqlstate_value(ch1, ch2, ch3, ch4, ch5),
{
    let s1 = pgsixbit(ch1);
    let s2 = pgsixbit(ch2);
    let s3 = pgsixbit(ch3);
    let s4 = pgsixbit(ch4);
    let s5 = pgsixbit(ch5);
    assert(s2 << 6 == s2 * 0x40) by (bit_vector)
        requires
            s2 < 64,
    ;
    assert(s3 << 12 == s3 * 0x1000) by (bit_vector)
        requires
            s3 < 64,
    ;
    assert(s4 << 18 == s4 * 0x40000) by (bit_vector)
        requires
            s4 < 64,
    ;
    assert(s5 << 24 == s5 * 0x1000000) by (bit_vector)
        requires
            s5 < 64,
    ;
    let v: u32 = s1 + (s2 << 6) + (s3 << 12) + (s4 << 18) + (s5 << 24);
    v as i32
}

/// One character of a packed code: the six bits at `shift`.
fn unpack_char(u: u32, shift: u32) -> (r: char)
    requires
        shift < 32,
    ensures
        r == unsixbit((u >> shift) as int),
{
    let v: u32 = (u >> shift) & 0x3f;
    assert((u >> shift) & 0x3f == (u >> shift) % 64) by (bit_vector);
    ((v + 48) as u8) as char
}

/// The five characters of a status code, the first from the lowest bits.
pub fn unpack_sqlstate(code: i32) -> (r: (char, char, char, char, char))
    ensures
        r == sqlstate_chars(code),
{
    #[verifier::truncate]
    let u: u32 = code as u32;
    assert(u >> 0 == u) by (bit_vector);
    assert(u >> 6 == u / 0x40) by (bit_vector);
    assert(u >> 12 == u / 0x1000) by (bit_vector);
    assert(u >> 18 == u / 0x40000) by (bit_vector);
    assert(u >> 24 == u / 0x1000000) by (bit_vector);
    (
        unpack_char(u, 0),
        unpack_char(u, 6),
        unpack_char(u, 12),
        unpack_char(u, 18),
        unpack_char(u, 24),
    )
}

/// Unpacking a code packed from five characters in `'0'..='o'` gives back the
/// same five characters.
pub proof fn lemma_sqlstate_round_trip(ch1: char, ch2: char, ch3: char, ch4: char, ch5: char)
    requires
        packable(ch1),
        packable(ch2),
        packable(ch3),
        packable(ch4),
        packable(ch5),
    ensures
        sqlstate_chars(sqlstate_value(ch1, ch2, ch3, ch4, ch5) as i32) == (ch1, ch2, ch3, ch4, ch5),
{
    let s1 = sixbit(ch1);
    let s2 = sixbit(ch2);
    let s3 = sixbit(ch3);
    let s4 = sixbit(ch4);
    let s5 = sixbit(ch5);
    let v = sqlstate_value(ch1, ch2, ch3, ch4, ch5);
    assert(0 <= v < 0x40000000) by (nonlinear_arith)
        requires
            v == s1 + s2 * 0x40 + s3 * 0x1000 + s4 * 0x40000 + s5 * 0x1000000,
            0 <= s1 < 64,
            0 <= s2 < 64,
            0 <= s3 < 64,
            0 <= s4 < 64,
            0 <= s5 < 64,
    ;
    assert(((v as i32) as u32) as int == v);
    assert(v % 64 == s1 && (v / 0x40) % 64 == s2 && (v / 0x1000) % 64 == s3 && (v / 0x40000) % 64
        == s4 && v / 0x1000000 % 64 == s5) by (nonlinear_arith)
        requires
            v == s1 + s2 * 0x40 + s3 * 0x1000 + s4 * 0x40000 + s5 * 0x1000000,
            0 <= s1 < 64,
            0 <= s2 < 64,
            0 <= s3 < 64,
            0 <= s4 < 64,
            0 <= s5 < 64,
    ;
    assert(unsixbit(s1) == ch1);
    assert(unsixbit(s2) == ch2);
    assert(unsixbit(s3) == ch3);
    assert(unsixbit(s4) == ch4);
    assert(unsixbit(s5) == ch5);
}

/// The external-routine code is the one packed from "38000".
pub proof fn lemma_external_routine_code()
    ensures
        ERRCODE_EXTERNAL_ROUTINE_EXCEPTION as int == sqlstate_value('3', '8', '0', '0', '0'),
{
}

} // verus!
