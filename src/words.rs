//! The primitive word codec: how one boundary value is split into at most
//! four 32-bit words and joined back from them.
use vstd::prelude::*;

verus! {

/// Up to four primitive words carrying one value across the boundary.
/// Slots past the width of the value's kind are zero.
#[derive(Clone, Copy, Debug, PartialEq, Eq, Structural)]
pub struct WordGroup {
    pub w1: u32,
    pub w2: u32,
    pub w3: u32,
    pub w4: u32,
}

/// The boundary representation of a value: fixed per type, shared by both sides.
#[derive(Clone, Copy, Debug, PartialEq, Eq, Structural)]
pub enum Kind {
    Unit,
    Bool,
    I32,
    U32,
    I64,
    U64,
    Slice,
    Vector,
    U128,
}

/// A value that knows how to cross the boundary.
#[derive(Clone, Copy, Debug, PartialEq, Eq, Structural)]
pub enum Value {
    Unit,
    Bool(bool),
    I32(i32),
    U32(u32),
    I64(i64),
    U64(u64),
    Slice { ptr: u32, len: u32 },
    Vector { ptr: u32, len: u32, cap: u32 },
    U128(u128),
}

pub open spec fn kind_of(v: Value) -> Kind {
    match v {
        Value::Unit => Kind::Unit,
        Value::Bool(_) => Kind::Bool,
        Value::I32(_) => Kind::I32,
        Value::U32(_) => Kind::U32,
        Value::I64(_) => Kind::I64,
        Value::U64(_) => Kind::U64,
        Value::Slice { .. } => Kind::Slice,
        Value::Vector { .. } => Kind::Vector,
        Value::U128(_) => Kind::U128,
    }
}

/// Number of words that a value of kind `k` occupies.
pub open spec fn width(k: Kind) -> nat {
    match k {
        Kind::Unit => 0,
        Kind::Bool | Kind::I32 | Kind::U32 => 1,
        Kind::I64 | Kind::U64 | Kind::Slice => 2,
        Kind::Vector => 3,
        Kind::U128 => 4,
    }
}

pub open spec fn group(w1: u32, w2: u32, w3: u32, w4: u32) -> WordGroup {
    WordGroup { w1, w2, w3, w4 }
}

/// Two's complement bits of a signed 32-bit integer.
pub open spec fn bits_of_i32(x: i32) -> u32 {
    if x >= 0 { x as u32 } else { (x + 0x1_0000_0000) as u32 }
}

pub open spec fn i32_of_bits(w: u32) -> i32 {
    if w < 0x8000_0000 { w as i32 } else { (w - 0x1_0000_0000) as i32 }
}

/// Two's complement bits of a signed 64-bit integer.
pub open spec fn bits_of_i64(x: i64) -> u64 {
    if x >= 0 { x as u64 } else { (x + 0x1_0000_0000_0000_0000) as u64 }
}

pub open spec fn i64_of_bits(w: u64) -> i64 {
    if w < 0x8000_0000_0000_0000 { w as i64 } else { (w - 0x1_0000_0000_0000_0000) as i64 }
}

pub open spec fn lo32(x: u64) -> u32 {
    (x & 0xffff_ffff) as u32
}

pub open spec fn hi32(x: u64) -> u32 {
    (x >> 32u64) as u32
}

pub open spec fn u64_of_words(lo: u32, hi: u32) -> u64 {
    (lo as u64) | ((hi as u64) << 32u64)
}

/// The 32 bits of `x` that start at bit `shift`.
pub open spec fn digit(x: u128, shift: u128) -> u32 {
    ((x >> shift) & 0xffff_ffff) as u32
}

pub open spec fn u128_of_words(g: WordGroup) -> u128 {
    (g.w1 as u128) | ((g.w2 as u128) << 32u128) | ((g.w3 as u128) << 64u128) | ((g.w4 as u128)
        << 96u128)
}

/// The words of a value, unused slots zero.
pub open spec fn split_spec(v: Value) -> WordGroup {
    match v {
        Value::Unit => group(0, 0, 0, 0),
        Value::Bool(b) => group(if b { 1 } else { 0 }, 0, 0, 0),
        Value::I32(x) => group(bits_of_i32(x), 0, 0, 0),
        Value::U32(x) => group(x, 0, 0, 0),
        Value::I64(x) => group(lo32(bits_of_i64(x)), hi32(bits_of_i64(x)), 0, 0),
        Value::U64(x) => group(lo32(x), hi32(x), 0, 0),
        Value::Slice { ptr, len } => group(ptr, len, 0, 0),
        Value::Vector { ptr, len, cap } => group(ptr, len, cap, 0),
        Value::U128(x) => group(digit(x, 0), digit(x, 32), digit(x, 64), digit(x, 96)),
    }
}

/// The value of kind `k` read from the first `width(k)` words of `g`;
/// the other slots are not read.
pub open spec fn join_spec(k: Kind, g: WordGroup) -> Value {
    match k {
        Kind::Unit => Value::Unit,
        Kind::Bool => Value::Bool(g.w1 != 0),
        Kind::I32 => Value::I32(i32_of_bits(g.w1)),
        Kind::U32 => Value::U32(g.w1),
        Kind::I64 => Value::I64(i64_of_bits(u64_of_words(g.w1, g.w2))),
        Kind::U64 => Value::U64(u64_of_words(g.w1, g.w2)),
        Kind::Slice => Value::Slice { ptr: g.w1, len: g.w2 },
        Kind::Vector => Value::Vector { ptr: g.w1, len: g.w2, cap: g.w3 },
        Kind::U128 => Value::U128(u128_of_words(g)),
    }
}

/// A word group that `split` can produce for kind `k`: the slots past the
/// width are zero, and a flag is 0 or 1.
pub open spec fn is_encoding(k: Kind, g: WordGroup) -> bool {
    &&& (width(k) <= 0 ==> g.w1 == 0)
    &&& (width(k) <= 1 ==> g.w2 == 0)
    &&& (width(k) <= 2 ==> g.w3 == 0)
    &&& (width(k) <= 3 ==> g.w4 == 0)
    &&& (k == Kind::Bool ==> g.w1 <= 1)
}


/// Splits a value into its words.
pub fn split(v: Value) -> (g: WordGroup)
    ensures
        g == split_spec(v),
        is_encoding(kind_of(v), g),
{
    match v {
        Value::Unit => WordGroup { w1: 0, w2: 0, w3: 0, w4: 0 },
        Value::Bool(b) => WordGroup { w1: if b { 1 } else { 0 }, w2: 0, w3: 0, w4: 0 },
        Value::I32(x) => WordGroup { w1: i32_to_bits(x), w2: 0, w3: 0, w4: 0 },
        Value::U32(x) => WordGroup { w1: x, w2: 0, w3: 0, w4: 0 },
        Value::I64(x) => {
            let b = i64_to_bits(x);
            WordGroup { w1: (b & 0xffff_ffff) as u32, w2: (b >> 32u64) as u32, w3: 0, w4: 0 }
        },
        Value::U64(x) => WordGroup {
            w1: (x & 0xffff_ffff) as u32,
            w2: (x >> 32u64) as u32,
            w3: 0,
            w4: 0,
        },
        Value::Slice { ptr, len } => WordGroup { w1: ptr, w2: len, w3: 0, w4: 0 },
        Value::Vector { ptr, len, cap } => WordGroup { w1: ptr, w2: len, w3: cap, w4: 0 },
        Value::U128(x) => WordGroup {
            w1: ((x >> 0u128) & 0xffff_ffff) as u32,
            w2: ((x >> 32u128) & 0xffff_ffff) as u32,
            w3: ((x >> 64u128) & 0xffff_ffff) as u32,
            w4: ((x >> 96u128) & 0xffff_ffff) as u32,
        },
    }
}

/// Joins the words of a value of kind `k`.
pub fn join(k: Kind, g: WordGroup) -> (v: Value)
    ensures
        v == join_spec(k, g),
        kind_of(v) == k,
{
    match k {
        Kind::Unit => Value::Unit,
        Kind::Bool => Value::Bool(g.w1 != 0),
        Kind::I32 => Value::I32(i32_from_bits(g.w1)),
        Kind::U32 => Value::U32(g.w1),
        Kind::I64 => Value::I64(i64_from_bits((g.w1 as u64) | ((g.w2 as u64) << 32u64))),
        Kind::U64 => Value::U64((g.w1 as u64) | ((g.w2 as u64) << 32u64)),
        Kind::Slice => Value::Slice { ptr: g.w1, len: g.w2 },
        Kind::Vector => Value::Vector { ptr: g.w1, len: g.w2, cap: g.w3 },
        Kind::U128 => Value::U128(
            (g.w1 as u128) | ((g.w2 as u128) << 32u128) | ((g.w3 as u128) << 64u128) | ((
            g.w4 as u128) << 96u128),
        ),
    }
}

fn i32_to_bits(x: i32) -> (r: u32)
    ensures
        r == bits_of_i32(x),
{
    if x >= 0 {
        x as u32
    } else {
        (x as i64 + 0x1_0000_0000i64) as u32
    }
}

fn i32_from_bits(w: u32) -> (r: i32)
    ensures
        r == i32_of_bits(w),
{
    if w < 0x8000_0000 {
        w as i32
    } else {
        (w as i64 - 0x1_0000_0000i64) as i32
    }
}

fn i64_to_bits(x: i64) -> (r: u64)
    ensures
        r == bits_of_i64(x),
{
    if x >= 0 {
        x as u64
    } else {
        (x as i128 + 0x1_0000_0000_0000_0000i128) as u64
    }
}

fn i64_from_bits(w: u64) -> (r: i64)
    ensures
        r == i64_of_bits(w),
{
    if w < 0x8000_0000_0000_0000 {
        w as i64
    } else {
        (w as i128 - 0x1_0000_0000_0000_0000i128) as i64
    }
}

proof fn lemma_u64_round_trip(x: u64, lo: u32, hi: u32)
    ensures
        u64_of_words(lo32(x), hi32(x)) == x,
        lo32(u64_of_words(lo, hi)) == lo,
        hi32(u64_of_words(lo, hi)) == hi,
{
    assert((((x & 0xffff_ffff) as u32) as u64) | ((((x >> 32u64) as u32) as u64) << 32u64) == x)
        by (bit_vector);
    assert((((lo as u64) | ((hi as u64) << 32u64)) & 0xffff_ffff) as u32 == lo) by (bit_vector);
    assert((((lo as u64) | ((hi as u64) << 32u64)) >> 32u64) as u32 == hi) by (bit_vector);
}

proof fn lemma_u128_round_trip(x: u128, g: WordGroup)
    ensures
        u128_of_words(group(digit(x, 0), digit(x, 32), digit(x, 64), digit(x, 96))) == x,
        split_spec(Value::U128(u128_of_words(g))) == g,
{
    let (w1, w2, w3, w4) = (g.w1, g.w2, g.w3, g.w4);
    assert(((((x >> 0u128) & 0xffff_ffff) as u32) as u128) | (((((x >> 32u128) & 0xffff_ffff) as u32) as u128) << 32u128) | (((((x >> 64u128) & 0xffff_ffff) as u32) as u128) << 64u128) | (((((x >> 96u128) & 0xffff_ffff) as u32) as u128) << 96u128) == x) by (bit_vector);
    let y = (w1 as u128) | ((w2 as u128) << 32u128) | ((w3 as u128) << 64u128) | ((w4 as u128) << 96u128);
    assert((((w1 as u128) | ((w2 as u128) << 32u128) | ((w3 as u128) << 64u128) | ((w4 as u128) << 96u128)) >> 0u128) & 0xffff_ffff == w1 as u128) by (bit_vector);
    assert((((w1 as u128) | ((w2 as u128) << 32u128) | ((w3 as u128) << 64u128) | ((w4 as u128) << 96u128)) >> 32u128) & 0xffff_ffff == w2 as u128) by (bit_vector);
    assert((((w1 as u128) | ((w2 as u128) << 32u128) | ((w3 as u128) << 64u128) | ((w4 as u128) << 96u128)) >> 64u128) & 0xffff_ffff == w3 as u128) by (bit_vector);
    assert((((w1 as u128) | ((w2 as u128) << 32u128) | ((w3 as u128) << 64u128) | ((w4 as u128) << 96u128)) >> 96u128) & 0xffff_ffff == w4 as u128) by (bit_vector);
}

/// Joining the words that `split` gave returns the value that was split.
pub proof fn lemma_join_split(v: Value)
    ensures
        join_spec(kind_of(v), split_spec(v)) == v,
        is_encoding(kind_of(v), split_spec(v)),
{
    match v {
        Value::I64(x) => {
            lemma_u64_round_trip(bits_of_i64(x), 0, 0);
        },
        Value::U64(x) => {
            lemma_u64_round_trip(x, 0, 0);
        },
        Value::U128(x) => {
            lemma_u128_round_trip(x, group(0, 0, 0, 0));
        },
        _ => {},
    }
}

/// Splitting what `join` read from a group that is an encoding of `k` gives
/// back the same words, for every width from one word to four.
pub proof fn lemma_split_join(k: Kind, g: WordGroup)
    requires
        is_encoding(k, g),
    ensures
        split_spec(join_spec(k, g)) == g,
{
    match k {
        Kind::I64 => {
            lemma_u64_round_trip(0, g.w1, g.w2);
        },
        Kind::U64 => {
            lemma_u64_round_trip(0, g.w1, g.w2);
        },
        Kind::U128 => {
            lemma_u128_round_trip(0, g);
        },
        _ => {},
    }
}

} // verus!
