//! Register values as the engine reports them, and their integer readings.
use vstd::prelude::*;

verus! {

/// Value type: invalid.
pub const DEBUG_VALUE_INVALID: u32 = 0;
/// Value type: 8-bit integer.
pub const DEBUG_VALUE_INT8: u32 = 1;
/// Value type: 16-bit integer.
pub const DEBUG_VALUE_INT16: u32 = 2;
/// Value type: 32-bit integer.
pub const DEBUG_VALUE_INT32: u32 = 3;
/// Value type: 64-bit integer.
pub const DEBUG_VALUE_INT64: u32 = 4;
/// Value type: single-precision float.
pub const DEBUG_VALUE_FLOAT32: u32 = 5;
/// Value type: double-precision float.
pub const DEBUG_VALUE_FLOAT64: u32 = 6;
/// Value type: 80-bit extended float.
pub const DEBUG_VALUE_FLOAT80: u32 = 7;
/// Value type: 82-bit float.
pub const DEBUG_VALUE_FLOAT82: u32 = 8;
/// Value type: 128-bit float.
pub const DEBUG_VALUE_FLOAT128: u32 = 9;
/// Value type: 64-bit vector.
pub const DEBUG_VALUE_VECTOR64: u32 = 10;
/// Value type: 128-bit vector.
pub const DEBUG_VALUE_VECTOR128: u32 = 11;

/// A register value, by type, with the parts of its payload that are read.
#[derive(Clone, Copy, Debug)]
#[allow(inconsistent_fields)]
pub enum DebugValue {
    /// An 8-bit integer.
    Int8 { value: u8 },
    /// A 16-bit integer.
    Int16 { value: u16 },
    /// A 32-bit integer.
    Int32 { value: u32 },
    /// A 64-bit integer as its two 32-bit halves.
    Int64 { low: u32, high: u32 },
    /// A single-precision float, given as the bits of the same value widened
    /// to double precision.
    Float32 { widened: u64 },
    /// A double-precision float, as its bits.
    Float64 { bits: u64 },
    /// An 80-bit float, as its ten bytes in memory order.
    Float80 { bytes: [u8; 10] },
    /// A 128-bit float, as its bytes in memory order.
    Float128 { bytes: [u8; 16] },
    /// A 64-bit vector, as its bytes in memory order.
    Vector64 { bytes: [u8; 8] },
    /// A 128-bit vector, as its bytes in memory order.
    Vector128 { bytes: [u8; 16] },
    /// Any other type, by its code (never one of the types above).
    Other { value_type: u32 },
}

/// A value's type does not have the requested reading.
#[derive(Clone, Copy, Debug, PartialEq, Eq, Structural)]
pub struct UnexpectedValueType {
    /// The type code of the value.
    pub value_type: u32,
}

/// `256` to the power `n`.
pub open spec fn pow256(n: nat) -> nat
    decreases n,
{
    if n == 0 {
        1
    } else {
        256 * pow256((n - 1) as nat)
    }
}

/// The number that bytes stand for in little-endian order.
pub open spec fn le_value(s: Seq<u8>) -> nat
    decreases s.len(),
{
    if s.len() == 0 {
        0
    } else {
        s[0] as nat + 256 * le_value(s.drop_first())
    }
}

proof fn lemma_le_value_bound(s: Seq<u8>)
    ensures
        le_value(s) < pow256(s.len()),
    decreases s.len(),
{
    if s.len() > 0 {
        lemma_le_value_bound(s.drop_first());
    }
}

proof fn lemma_pow256_mono(a: nat, b: nat)
    requires
        a <= b,
    ensures
        pow256(a) <= pow256(b),
    decreases b,
{
    if a < b {
        lemma_pow256_mono(a, (b - 1) as nat);
    }
}

proof fn lemma_pow256_16()
    ensures
        pow256(8) == 0x1_0000_0000_0000_0000,
        pow256(16) == 0x1_0000_0000_0000_0000_0000_0000_0000_0000,
{
    reveal_with_fuel(pow256, 17);
}

/// The little-endian number held by `bytes`.
fn le_bytes(bytes: &[u8]) -> (r: u128)
    requires
        bytes@.len() <= 16,
    ensures
        r == le_value(bytes@),
{
    let n = bytes.len();
    let mut acc: u128 = 0;
    let mut i: usize = n;
    proof {
        assert(bytes@.subrange(n as int, n as int) =~= Seq::<u8>::empty());
        lemma_pow256_16();
    }
    while i > 0
        invariant
            n == bytes@.len() <= 16,
            0 <= i <= n,
            acc == le_value(bytes@.subrange(i as int, n as int)),
            pow256(16) == 0x1_0000_0000_0000_0000_0000_0000_0000_0000,
        decreases i,
    {
        let ghost rest = bytes@.subrange(i as int, n as int);
        proof {
            lemma_le_value_bound(rest);
            lemma_pow256_mono((n - i) as nat, 15);
            lemma_pow256_16();
            reveal_with_fuel(pow256, 2);
            assert(pow256(16) == 256 * pow256(15));
        }
        i -= 1;
        acc = acc * 256 + bytes[i] as u128;
        proof {
            assert(bytes@.subrange(i as int, n as int).drop_first() =~= rest);
        }
    }
    proof {
        assert(bytes@.subrange(0, n as int) =~= bytes@);
    }
    acc
}

impl DebugValue {
    /// The engine's type code of the value.
    pub open spec fn type_code(self) -> u32 {
        match self {
            DebugValue::Int8 { .. } => DEBUG_VALUE_INT8,
            DebugValue::Int16 { .. } => DEBUG_VALUE_INT16,
            DebugValue::Int32 { .. } => DEBUG_VALUE_INT32,
            DebugValue::Int64 { .. } => DEBUG_VALUE_INT64,
            DebugValue::Float32 { .. } => DEBUG_VALUE_FLOAT32,
            DebugValue::Float64 { .. } => DEBUG_VALUE_FLOAT64,
            DebugValue::Float80 { .. } => DEBUG_VALUE_FLOAT80,
            DebugValue::Float128 { .. } => DEBUG_VALUE_FLOAT128,
            DebugValue::Vector64 { .. } => DEBUG_VALUE_VECTOR64,
            DebugValue::Vector128 { .. } => DEBUG_VALUE_VECTOR128,
            DebugValue::Other { value_type } => value_type,
        }
    }

    /// The engine's type code of the value.
    pub fn value_type(&self) -> (r: u32)
        ensures
            r == self.type_code(),
    {
        match self {
            DebugValue::Int8 { .. } => DEBUG_VALUE_INT8,
            DebugValue::Int16 { .. } => DEBUG_VALUE_INT16,
            DebugValue::Int32 { .. } => DEBUG_VALUE_INT32,
            DebugValue::Int64 { .. } => DEBUG_VALUE_INT64,
            DebugValue::Float32 { .. } => DEBUG_VALUE_FLOAT32,
            DebugValue::Float64 { .. } => DEBUG_VALUE_FLOAT64,
            DebugValue::Float80 { .. } => DEBUG_VALUE_FLOAT80,
            DebugValue::Float128 { .. } => DEBUG_VALUE_FLOAT128,
            DebugValue::Vector64 { .. } => DEBUG_VALUE_VECTOR64,
            DebugValue::Vector128 { .. } => DEBUG_VALUE_VECTOR128,
            DebugValue::Other { value_type } => *value_type,
        }
    }

    /// Whether a value is well formed: `Other` never carries the code of a
    /// type that has a variant of its own.
    pub open spec fn is_valid(self) -> bool {
        match self {
            DebugValue::Other { value_type } => !is_known_type(value_type),
            _ => true,
        }
    }

    /// Whether the value is well formed.
    pub fn valid(&self) -> (r: bool)
        ensures
            r == self.is_valid(),
    {
        match self {
            DebugValue::Other { value_type } => !known_type(*value_type),
            _ => true,
        }
    }

    /// The value read as a 64-bit integer: integers zero-extended, a 64-bit
    /// vector as its little-endian bytes, a float as the bits of its
    /// double-precision form; `None` for the other types.
    pub open spec fn as_u64(self) -> Option<u64> {
        match self {
            DebugValue::Int8 { value } => Some(value as u64),
            DebugValue::Int16 { value } => Some(value as u64),
            DebugValue::Int32 { value } => Some(value as u64),
            DebugValue::Int64 { low, high } => Some((high as int * 0x1_0000_0000 + low as int) as u64),
            DebugValue::Float32 { widened } => Some(widened),
            DebugValue::Float64 { bits } => Some(bits),
            DebugValue::Vector64 { bytes } => Some(le_value(bytes@) as u64),
            _ => None,
        }
    }

    /// The value read as a 128-bit integer: the little-endian bytes of an
    /// 80-bit float (zero-extended), a 128-bit vector or a 128-bit float;
    /// `None` for the other types.
    pub open spec fn as_u128(self) -> Option<u128> {
        match self {
            DebugValue::Float80 { bytes } => Some(le_value(bytes@) as u128),
            DebugValue::Float128 { bytes } => Some(le_value(bytes@) as u128),
            DebugValue::Vector128 { bytes } => Some(le_value(bytes@) as u128),
            _ => None,
        }
    }
}

/// Whether a type code has a variant of its own in [`DebugValue`].
pub open spec fn is_known_type(value_type: u32) -> bool {
    DEBUG_VALUE_INT8 <= value_type <= DEBUG_VALUE_VECTOR128 && value_type != DEBUG_VALUE_FLOAT82
}

/// Whether a type code has a variant of its own in [`DebugValue`].
pub fn known_type(value_type: u32) -> (r: bool)
    ensures
        r == is_known_type(value_type),
{
    DEBUG_VALUE_INT8 <= value_type && value_type <= DEBUG_VALUE_VECTOR128 && value_type != DEBUG_VALUE_FLOAT82
}

/// The halves of a 64-bit value, as a 64-bit integer register holds them.
pub fn u64_parts(value: u64) -> (r: (u32, u32))
    ensures
        r.0 as int * 0x1_0000_0000 + r.1 as int == value,
{
    assert(value >> 32u64 <= 0xffff_ffff) by (bit_vector);
    assert(value & 0xffff_ffff <= 0xffff_ffff) by (bit_vector);
    assert(value == (value >> 32u64) * 0x1_0000_0000 + (value & 0xffff_ffff)) by (bit_vector);
    let high = (value >> 32u64) as u32;
    let low = (value & 0xffff_ffff) as u32;
    (high, low)
}

/// Extract a 128-bit integer off a register value.
pub fn u128_from_debugvalue(v: &DebugValue) -> (r: Result<u128, UnexpectedValueType>)
    requires
        v.is_valid(),
    ensures
        r == (match v.as_u128() {
            Some(x) => Ok::<u128, UnexpectedValueType>(x),
            None => Err(UnexpectedValueType { value_type: v.type_code() }),
        }),
{
    match v {
        DebugValue::Float80 { bytes } => Ok(le_bytes(bytes.as_slice())),
        DebugValue::Vector128 { bytes } => Ok(le_bytes(bytes.as_slice())),
        DebugValue::Float128 { bytes } => Ok(le_bytes(bytes.as_slice())),
        _ => Err(UnexpectedValueType { value_type: v.value_type() }),
    }
}

/// Extract a 64-bit integer off a register value.
pub fn u64_from_debugvalue(v: &DebugValue) -> (r: Result<u64, UnexpectedValueType>)
    requires
        v.is_valid(),
    ensures
        r == (match v.as_u64() {
            Some(x) => Ok::<u64, UnexpectedValueType>(x),
            None => Err(UnexpectedValueType { value_type: v.type_code() }),
        }),
{
    match v {
        DebugValue::Int64 { low, high } => {
            let h = *high as u64;
            let l = *low as u64;
            assert((h << 32u64) | l == h * 0x1_0000_0000 + l) by (bit_vector)
                requires
                    h < 0x1_0000_0000,
                    l < 0x1_0000_0000,
            ;
            Ok((h << 32u64) | l)
        },
        DebugValue::Int32 { value } => Ok(*value as u64),
        DebugValue::Int16 { value } => Ok(*value as u64),
        DebugValue::Int8 { value } => Ok(*value as u64),
        DebugValue::Vector64 { bytes } => {
            let x = le_bytes(bytes.as_slice());
            proof {
                lemma_le_value_bound(bytes@);
                lemma_pow256_16();
            }
            Ok(x as u64)
        },
        DebugValue::Float64 { bits } => Ok(*bits),
        DebugValue::Float32 { widened } => Ok(*widened),
        _ => Err(UnexpectedValueType { value_type: v.value_type() }),
    }
}

} // verus!
