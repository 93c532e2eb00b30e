//! A wasm value, used for function parameters and results.
//!
//! The engine's generic calling convention is a flat buffer of 32-bit words:
//! a 32-bit scalar occupies one word, a 64-bit scalar two words and a 128-bit
//! vector four words, in little-endian word order (word 0 holds the least
//! significant 32 bits).  Encoding and decoding reinterpret raw bit patterns
//! and never convert numerically, so floating-point values are carried here
//! as their IEEE 754 bit patterns (`u32` for 32-bit floats, `u64` for 64-bit
//! floats); the embedder moves between `f32`/`f64` and those patterns with
//! `to_bits`/`from_bits`.

use vstd::arithmetic::div_mod::lemma_fundamental_div_mod;
use vstd::prelude::*;

verus! {

/// A tagged value crossing the engine boundary.
#[derive(Clone, Copy, Debug, PartialEq, Eq, Structural)]
pub enum WasmValue {
    /// No value: the result of a function whose result arity is zero.
    Void,
    I32(i32),
    I64(i64),
    /// A 32-bit float, carried as its IEEE 754 bit pattern.
    F32(u32),
    /// A 64-bit float, carried as its IEEE 754 bit pattern.
    F64(u64),
    V128(i128),
}

/// The bit pattern of a signed 32-bit value, as an unsigned word.
pub open spec fn u32_of_i32(v: i32) -> u32 {
    if v >= 0 {
        v as u32
    } else {
        (v as int + 0x1_0000_0000) as u32
    }
}

/// The signed 32-bit value whose bit pattern is the given word.
pub open spec fn i32_of_u32(w: u32) -> i32 {
    if w < 0x8000_0000 {
        w as i32
    } else {
        (w as int - 0x1_0000_0000) as i32
    }
}

/// The bit pattern of a signed 64-bit value.
pub open spec fn u64_of_i64(v: i64) -> u64 {
    if v >= 0 {
        v as u64
    } else {
        (v as int + 0x1_0000_0000_0000_0000) as u64
    }
}

/// The signed 64-bit value whose bit pattern is the given doubleword.
pub open spec fn i64_of_u64(w: u64) -> i64 {
    if w < 0x8000_0000_0000_0000 {
        w as i64
    } else {
        (w as int - 0x1_0000_0000_0000_0000) as i64
    }
}

/// The bit pattern of a signed 128-bit value.
pub open spec fn u128_of_i128(v: i128) -> u128 {
    if v >= 0 {
        v as u128
    } else {
        (v as int + 0x1_0000_0000_0000_0000_0000_0000_0000_0000) as u128
    }
}

/// The signed 128-bit value whose bit pattern is the given quadword.
pub open spec fn i128_of_u128(w: u128) -> i128 {
    if w < 0x8000_0000_0000_0000_0000_0000_0000_0000 {
        w as i128
    } else {
        (w as int - 0x1_0000_0000_0000_0000_0000_0000_0000_0000) as i128
    }
}

/// The low 32 bits of a 64-bit pattern.
pub open spec fn lo_word(x: u64) -> u32 {
    (x % 0x1_0000_0000) as u32
}

/// The high 32 bits of a 64-bit pattern.
pub open spec fn hi_word(x: u64) -> u32 {
    (x / 0x1_0000_0000) as u32
}

/// The 64-bit pattern made of a low and a high word.
pub open spec fn u64_of_words(lo: u32, hi: u32) -> u64 {
    (lo as int + hi as int * 0x1_0000_0000) as u64
}

/// The low 64 bits of a 128-bit pattern.
pub open spec fn lo_dword(x: u128) -> u64 {
    (x % 0x1_0000_0000_0000_0000) as u64
}

/// The high 64 bits of a 128-bit pattern.
pub open spec fn hi_dword(x: u128) -> u64 {
    (x / 0x1_0000_0000_0000_0000) as u64
}

/// The 128-bit pattern made of a low and a high doubleword.
pub open spec fn u128_of_dwords(lo: u64, hi: u64) -> u128 {
    (lo as int + hi as int * 0x1_0000_0000_0000_0000) as u128
}

/// The wire form of one value: its bit pattern split into 32-bit words,
/// word 0 least significant.
pub open spec fn wire_words(v: WasmValue) -> Seq<u32> {
    match v {
        WasmValue::Void => seq![],
        WasmValue::I32(x) => seq![u32_of_i32(x)],
        WasmValue::I64(x) => seq![lo_word(u64_of_i64(x)), hi_word(u64_of_i64(x))],
        WasmValue::F32(bits) => seq![bits],
        WasmValue::F64(bits) => seq![lo_word(bits), hi_word(bits)],
        WasmValue::V128(x) => seq![
            lo_word(lo_dword(u128_of_i128(x))),
            hi_word(lo_dword(u128_of_i128(x))),
            lo_word(hi_dword(u128_of_i128(x))),
            hi_word(hi_dword(u128_of_i128(x))),
        ],
    }
}

/// The value read back from a wire buffer as a signed 32-bit integer.
pub open spec fn decoded_i32(words: Seq<u32>) -> WasmValue {
    WasmValue::I32(i32_of_u32(words[0]))
}

/// The value read back from a wire buffer as a 32-bit float pattern.
pub open spec fn decoded_f32(words: Seq<u32>) -> WasmValue {
    WasmValue::F32(words[0])
}

/// The value read back from a wire buffer as a signed 64-bit integer.
pub open spec fn decoded_i64(words: Seq<u32>) -> WasmValue {
    WasmValue::I64(i64_of_u64(u64_of_words(words[0], words[1])))
}

/// The value read back from a wire buffer as a 64-bit float pattern.
pub open spec fn decoded_f64(words: Seq<u32>) -> WasmValue {
    WasmValue::F64(u64_of_words(words[0], words[1]))
}

/// The value read back from a wire buffer as a 128-bit vector.
pub open spec fn decoded_v128(words: Seq<u32>) -> WasmValue {
    WasmValue::V128(
        i128_of_u128(
            u128_of_dwords(
                u64_of_words(words[0], words[1]),
                u64_of_words(words[2], words[3]),
            ),
        ),
    )
}

fn i32_bits(v: i32) -> (w: u32)
    ensures
        w == u32_of_i32(v),
{
    if v >= 0 {
        v as u32
    } else {
        u32::MAX - ((-(v + 1)) as u32)
    }
}

fn u32_as_i32(w: u32) -> (v: i32)
    ensures
        v == i32_of_u32(w),
{
    if w < 0x8000_0000 {
        w as i32
    } else {
        -((u32::MAX - w) as i32) - 1
    }
}

fn i64_bits(v: i64) -> (w: u64)
    ensures
        w == u64_of_i64(v),
{
    if v >= 0 {
        v as u64
    } else {
        u64::MAX - ((-(v + 1)) as u64)
    }
}

fn u64_as_i64(w: u64) -> (v: i64)
    ensures
        v == i64_of_u64(w),
{
    if w < 0x8000_0000_0000_0000 {
        w as i64
    } else {
        -((u64::MAX - w) as i64) - 1
    }
}

fn i128_bits(v: i128) -> (w: u128)
    ensures
        w == u128_of_i128(v),
{
    if v >= 0 {
        v as u128
    } else {
        u128::MAX - ((-(v + 1)) as u128)
    }
}

fn u128_as_i128(w: u128) -> (v: i128)
    ensures
        v == i128_of_u128(w),
{
    if w < 0x8000_0000_0000_0000_0000_0000_0000_0000 {
        w as i128
    } else {
        -((u128::MAX - w) as i128) - 1
    }
}

fn split_u64(x: u64) -> (r: (u32, u32))
    ensures
        r.0 == lo_word(x),
        r.1 == hi_word(x),
{
    ((x % 0x1_0000_0000) as u32, (x / 0x1_0000_0000) as u32)
}

fn join_u64(lo: u32, hi: u32) -> (x: u64)
    ensures
        x == u64_of_words(lo, hi),
{
    lo as u64 + (hi as u64) * 0x1_0000_0000
}

fn split_u128(x: u128) -> (r: (u64, u64))
    ensures
        r.0 == lo_dword(x),
        r.1 == hi_dword(x),
{
    (
        (x % 0x1_0000_0000_0000_0000) as u64,
        (x / 0x1_0000_0000_0000_0000) as u64,
    )
}

fn join_u128(lo: u64, hi: u64) -> (x: u128)
    ensures
        x == u128_of_dwords(lo, hi),
{
    lo as u128 + (hi as u128) * 0x1_0000_0000_0000_0000
}

/// Splitting a 64-bit pattern into words and joining them again is the identity.
pub proof fn lemma_u64_words_round_trip(x: u64)
    ensures
        u64_of_words(lo_word(x), hi_word(x)) == x,
{
    lemma_fundamental_div_mod(x as int, 0x1_0000_0000);
}

/// Splitting a 128-bit pattern into doublewords and joining them again is the
/// identity.
pub proof fn lemma_u128_dwords_round_trip(x: u128)
    ensures
        u128_of_dwords(lo_dword(x), hi_dword(x)) == x,
{
    lemma_fundamental_div_mod(x as int, 0x1_0000_0000_0000_0000);
}

impl WasmValue {
    /// Encode this value into its wire form: one word for 32-bit scalars, two
    /// for 64-bit scalars and four for 128-bit vectors, word 0 least
    /// significant.  Bit patterns are preserved exactly.
    pub fn encode(&self) -> (r: Vec<u32>)
        ensures
            r@ == wire_words(*self),
    {
        let mut r: Vec<u32> = Vec::new();
        match *self {
            WasmValue::Void => {},
            WasmValue::I32(v) => {
                r.push(i32_bits(v));
            },
            WasmValue::I64(v) => {
                let (lo, hi) = split_u64(i64_bits(v));
                r.push(lo);
                r.push(hi);
            },
            WasmValue::F32(bits) => {
                r.push(bits);
            },
            WasmValue::F64(bits) => {
                let (lo, hi) = split_u64(bits);
                r.push(lo);
                r.push(hi);
            },
            WasmValue::V128(v) => {
                let (lo_half, hi_half) = split_u128(i128_bits(v));
                let (w0, w1) = split_u64(lo_half);
                let (w2, w3) = split_u64(hi_half);
                r.push(w0);
                r.push(w1);
                r.push(w2);
                r.push(w3);
            },
        }
        proof {
            assert(r@ =~= wire_words(*self));
        }
        r
    }

    /// Decode the first word of a wire buffer as a signed 32-bit integer.
    pub fn decode_to_i32(binary: Vec<u32>) -> (r: WasmValue)
        requires
            binary@.len() >= 1,
        ensures
            r == decoded_i32(binary@),
    {
        WasmValue::I32(u32_as_i32(binary[0]))
    }

    /// Decode the first word of a wire buffer as a 32-bit float pattern.
    pub fn decode_to_f32(binary: Vec<u32>) -> (r: WasmValue)
        requires
            binary@.len() >= 1,
        ensures
            r == decoded_f32(binary@),
    {
        WasmValue::F32(binary[0])
    }

    /// Decode the first two words of a wire buffer as a signed 64-bit integer.
    pub fn decode_to_i64(binary: Vec<u32>) -> (r: WasmValue)
        requires
            binary@.len() >= 2,
        ensures
            r == decoded_i64(binary@),
    {
        WasmValue::I64(u64_as_i64(join_u64(binary[0], binary[1])))
    }

    /// Decode the first two words of a wire buffer as a 64-bit float pattern.
    pub fn decode_to_f64(binary: Vec<u32>) -> (r: WasmValue)
        requires
            binary@.len() >= 2,
        ensures
            r == decoded_f64(binary@),
    {
        WasmValue::F64(join_u64(binary[0], binary[1]))
    }

    /// Decode the first four words of a wire buffer as a 128-bit vector.
    pub fn decode_to_v128(binary: Vec<u32>) -> (r: WasmValue)
        requires
            binary@.len() >= 4,
        ensures
            r == decoded_v128(binary@),
    {
        WasmValue::V128(
            u128_as_i128(
                join_u128(join_u64(binary[0], binary[1]), join_u64(binary[2], binary[3])),
            ),
        )
    }
}

/// Taking the bit pattern of a signed 32-bit value and reading it back is the
/// identity.
pub proof fn lemma_i32_bits_round_trip(v: i32)
    ensures
        i32_of_u32(u32_of_i32(v)) == v,
{
}

/// Taking the bit pattern of a signed 64-bit value and reading it back is the
/// identity.
pub proof fn lemma_i64_bits_round_trip(v: i64)
    ensures
        i64_of_u64(u64_of_i64(v)) == v,
{
}

/// Taking the bit pattern of a signed 128-bit value and reading it back is
/// the identity.
pub proof fn lemma_i128_bits_round_trip(v: i128)
    ensures
        i128_of_u128(u128_of_i128(v)) == v,
{
}

/// Decoding an encoded value returns the value unchanged, bit for bit, for
/// every supported value kind — including every float bit pattern (NaN
/// payloads among them) and the extreme integer values.
pub proof fn lemma_decode_encode(v: WasmValue)
    ensures
        v is I32 ==> decoded_i32(wire_words(v)) == v,
        v is F32 ==> decoded_f32(wire_words(v)) == v,
        v is I64 ==> decoded_i64(wire_words(v)) == v,
        v is F64 ==> decoded_f64(wire_words(v)) == v,
        v is V128 ==> decoded_v128(wire_words(v)) == v,
{
    match v {
        WasmValue::Void => {},
        WasmValue::I32(x) => {
            lemma_i32_bits_round_trip(x);
        },
        WasmValue::F32(_bits) => {},
        WasmValue::I64(x) => {
            lemma_u64_words_round_trip(u64_of_i64(x));
            lemma_i64_bits_round_trip(x);
        },
        WasmValue::F64(bits) => {
            lemma_u64_words_round_trip(bits);
        },
        WasmValue::V128(x) => {
            let u = u128_of_i128(x);
            lemma_u64_words_round_trip(lo_dword(u));
            lemma_u64_words_round_trip(hi_dword(u));
            lemma_u128_dwords_round_trip(u);
            lemma_i128_bits_round_trip(x);
        },
    }
}

} // verus!
