//! The binary accessor decoder: typed, strided numeric arrays read out of
//! raw buffer blobs.
//!
//! An accessor describes `count` elements of `dimension` scalars each.
//! Scalar `d` of element `i` occupies the `size` bytes at
//! `offset + i * stride + d * size`, little-endian. Integer scalars decode
//! to their numeric value; single-precision float scalars decode to their
//! raw bit pattern, which later conversion steps interpret.

use vstd::prelude::*;
use crate::floatbits::f32_bits_as_exact_u32;
use crate::floatbits::f32_bits_represent_int;
use crate::floatbits::f32_bits_to_u32_exact;
use crate::floatbits::f32_bits_from_int;
use crate::floatbits::fits_f32_int;
use vstd::arithmetic::mul::lemma_mul_inequality;
use vstd::arithmetic::mul::lemma_mul_is_distributive_add_other_way;
use vstd::arithmetic::power2::pow2;
use vstd::arithmetic::power2::lemma_pow2_adds;
use vstd::arithmetic::power2::lemma_pow2_strictly_increases;
use vstd::arithmetic::power2::lemma2_to64;

verus! {

/// The scalar types a buffer may hold.
#[derive(Clone, Copy, PartialEq, Eq, Structural, Debug)]
pub enum ElementType {
    I8,
    U8,
    I16,
    U16,
    U32,
    F32,
}

impl ElementType {
    /// Bytes one scalar of this type occupies.
    pub open spec fn spec_size(self) -> int {
        match self {
            ElementType::I8 => 1,
            ElementType::U8 => 1,
            ElementType::I16 => 2,
            ElementType::U16 => 2,
            ElementType::U32 => 4,
            ElementType::F32 => 4,
        }
    }

    pub fn size(&self) -> (r: usize)
        ensures
            r == self.spec_size(),
            1 <= r <= 4,
    {
        match self {
            ElementType::I8 => 1,
            ElementType::U8 => 1,
            ElementType::I16 => 2,
            ElementType::U16 => 2,
            ElementType::U32 => 4,
            ElementType::F32 => 4,
        }
    }
}

/// A typed, strided view over one attribute's scalars in a buffer.
#[derive(Clone, Copy, PartialEq, Eq, Debug)]
pub struct AccessorView {
    /// First byte of element 0.
    pub offset: usize,
    /// Number of elements.
    pub count: usize,
    /// Scalar type of every component.
    pub data_type: ElementType,
    /// Scalars per element: 1, 2 or 3.
    pub dimension: usize,
    /// Bytes from one element's start to the next. May interleave with or
    /// overlap other attributes.
    pub stride: usize,
}

impl AccessorView {
    /// The dimensionality the data model admits: 1, 2 or 3 scalars per
    /// element.
    pub open spec fn wf(self) -> bool {
        1 <= self.dimension <= 3
    }

    /// Every byte the accessor reads lies inside a buffer of length `len`.
    pub open spec fn in_bounds(self, len: int) -> bool {
        self.count == 0 || self.offset + (self.count - 1) * self.stride + self.dimension
            * self.data_type.spec_size() <= len
    }
}

/// The stride an accessor reads with: the one its buffer view declares,
/// or, for tightly packed views that declare none, the element's own
/// size.
pub fn effective_stride(declared: Option<usize>, element_size: usize) -> (r: usize)
    ensures
        r == match declared {
            Some(s) => s,
            None => element_size,
        },
{
    match declared {
        Some(s) => s,
        None => element_size,
    }
}

/// The unsigned value of `size` little-endian bytes starting at `start`.
pub open spec fn le_bytes_value(bytes: Seq<u8>, start: int, size: int) -> int
    decreases size,
{
    if size <= 0 {
        0
    } else {
        bytes[start] + 256 * le_bytes_value(bytes, start + 1, size - 1)
    }
}

/// The numeric value of a raw unsigned scalar word: two's-complement for
/// the signed types, the word itself for the unsigned types, and the raw
/// bit pattern for floats.
pub open spec fn scalar_value(raw: int, ty: ElementType) -> int {
    match ty {
        ElementType::I8 => if raw < 0x80 { raw } else { raw - 0x100 },
        ElementType::U8 => raw,
        ElementType::I16 => if raw < 0x8000 { raw } else { raw - 0x10000 },
        ElementType::U16 => raw,
        ElementType::U32 => raw,
        ElementType::F32 => raw,
    }
}

/// Byte position of scalar `d` of element `i`.
pub open spec fn scalar_start(view: AccessorView, i: int, d: int) -> int {
    view.offset + i * view.stride + d * view.data_type.spec_size()
}

/// The decoded value of scalar `d` of element `i`.
pub open spec fn decoded_scalar(bytes: Seq<u8>, view: AccessorView, i: int, d: int) -> int {
    scalar_value(
        le_bytes_value(bytes, scalar_start(view, i, d), view.data_type.spec_size()),
        view.data_type,
    )
}

/// Why a decode failed.
#[derive(Clone, Copy, PartialEq, Eq, Structural, Debug)]
pub enum DecodeError {
    /// Some scalar's byte range runs past the buffer's end.
    OutOfBounds,
    /// Some decoded value cannot be represented exactly in the requested
    /// target type.
    Unrepresentable,
}

/// Reads one raw little-endian scalar word.
fn read_scalar(buffer: &Vec<u8>, start: usize, size: usize) -> (r: u64)
    requires
        size <= 4,
        start + size <= buffer@.len(),
    ensures
        r == le_bytes_value(buffer@, start as int, size as int),
        r < pow2((8 * size) as nat),
{
    proof {
        lemma2_to64();
    }
    let blen: usize = buffer.len();
    let mut r: u64 = 0;
    let mut j: usize = size;
    while j > 0
        invariant
            j <= size,
            size <= 4,
            blen == buffer@.len(),
            start + size <= blen,
            r == le_bytes_value(buffer@, start + j, size - j),
            r < pow2((8 * (size - j)) as nat),
            r < 0x1_0000_0000,
        decreases j,
    {
        j = j - 1;
        proof {
            lemma_pow2_adds((8 * (size - j - 1)) as nat, 8);
            lemma2_to64();
            if 8 * (size - j) < 32 {
                lemma_pow2_strictly_increases((8 * (size - j)) as nat, 32);
            }
        }
        r = r * 256 + buffer[start + j] as u64;
    }
    r
}

/// Interprets a raw scalar word as its numeric value.
fn interpret_scalar(raw: u64, ty: ElementType) -> (r: i64)
    requires
        raw < 0x1_0000_0000,
    ensures
        r == scalar_value(raw as int, ty),
{
    match ty {
        ElementType::I8 => if raw < 0x80 {
            raw as i64
        } else {
            raw as i64 - 0x100
        },
        ElementType::U8 => raw as i64,
        ElementType::I16 => if raw < 0x8000 {
            raw as i64
        } else {
            raw as i64 - 0x10000
        },
        ElementType::U16 => raw as i64,
        ElementType::U32 => raw as i64,
        ElementType::F32 => raw as i64,
    }
}

/// Decodes every scalar of the accessor into a flat list, element-major:
/// scalar `d` of element `i` lands at `i * dimension + d`. Fails exactly
/// when the accessor's byte range runs past the buffer's end.
pub fn decode_scalars(buffer: &Vec<u8>, view: &AccessorView) -> (r: Result<Vec<i64>, DecodeError>)
    requires
        view.wf(),
    ensures
        r is Ok <==> view.in_bounds(buffer@.len() as int),
        match r {
            Ok(v) => {
                &&& v@.len() == view.count * view.dimension
                &&& forall|i: int, d: int|
                    0 <= i < view.count && 0 <= d < view.dimension ==> v@[i * view.dimension + d]
                        == decoded_scalar(buffer@, *view, i, d)
            },
            Err(e) => e == DecodeError::OutOfBounds,
        },
{
    let size: usize = view.data_type.size();
    if view.count == 0 {
        let v: Vec<i64> = Vec::new();
        return Ok(v);
    }
    // Bounds check, in 128-bit arithmetic so nothing overflows.
    proof {
        assert((view.count as u128 - 1) * view.stride as u128 <= 0xFFFF_FFFF_FFFF_FFFFu128
            * 0xFFFF_FFFF_FFFF_FFFFu128) by (nonlinear_arith)
            requires
                view.count as u128 - 1 <= 0xFFFF_FFFF_FFFF_FFFFu128,
                view.stride as u128 <= 0xFFFF_FFFF_FFFF_FFFFu128,
        ;
        assert((view.dimension as u128) * (size as u128) <= 12) by (nonlinear_arith)
            requires
                view.dimension as u128 <= 3,
                size as u128 <= 4,
        ;
    }
    let end: u128 = view.offset as u128 + (view.count as u128 - 1) * view.stride as u128 + (
    view.dimension as u128) * (size as u128);
    if end > buffer.len() as u128 {
        return Err(DecodeError::OutOfBounds);
    }
    let len: usize = buffer.len();
    let mut v: Vec<i64> = Vec::new();
    let mut i: usize = 0;
    while i < view.count
        invariant
            i <= view.count,
            view.count > 0,
            size == view.data_type.spec_size(),
            len == buffer@.len(),
            view.offset + (view.count - 1) * view.stride + view.dimension * size <= len,
            v@.len() == i * view.dimension,
            forall|k: int, e: int|
                0 <= k < i && 0 <= e < view.dimension ==> v@[k * view.dimension + e]
                    == decoded_scalar(buffer@, *view, k, e),
        decreases view.count - i,
    {
        proof {
            lemma_mul_inequality(i as int, view.count - 1, view.stride as int);
            assert(view.offset + i * view.stride + view.dimension * size <= len);
        }
        let element_start: usize = view.offset + i * view.stride;
        let mut d: usize = 0;
        while d < view.dimension
            invariant
                d <= view.dimension,
                i < view.count,
                size == view.data_type.spec_size(),
                element_start == view.offset + i * view.stride,
                len == buffer@.len(),
                element_start + view.dimension * size <= len,
                v@.len() == i * view.dimension + d,
                forall|k: int, e: int|
                    0 <= k < i && 0 <= e < view.dimension ==> v@[k * view.dimension + e]
                        == decoded_scalar(buffer@, *view, k, e),
                forall|e: int|
                    0 <= e < d ==> v@[i * view.dimension + e] == decoded_scalar(
                        buffer@,
                        *view,
                        i as int,
                        e,
                    ),
            decreases view.dimension - d,
        {
            proof {
                lemma_mul_inequality(d + 1, view.dimension as int, size as int);
                lemma_mul_is_distributive_add_other_way(size as int, d as int, 1);
            }
            let start: usize = element_start + d * size;
            let raw = read_scalar(buffer, start, size);
            proof {
                lemma2_to64();
                if 8 * size < 32 {
                    lemma_pow2_strictly_increases((8 * size) as nat, 32);
                }
            }
            let value = interpret_scalar(raw, view.data_type);
            v.push(value);
            d = d + 1;
            proof {
                assert forall|k: int, e: int|
                    0 <= k < i && 0 <= e < view.dimension implies v@[k * view.dimension + e]
                    == decoded_scalar(buffer@, *view, k, e) by {
                    lemma_mul_inequality(k + 1, i as int, view.dimension as int);
                    lemma_mul_is_distributive_add_other_way(view.dimension as int, k, 1);
                }
            }
        }
        proof {
            lemma_mul_is_distributive_add_other_way(view.dimension as int, i as int, 1);
            assert forall|k: int, e: int|
                0 <= k < i + 1 && 0 <= e < view.dimension implies v@[k * view.dimension + e]
                == decoded_scalar(buffer@, *view, k, e) by {
                if k == i as int {
                    assert(v@[i as int * view.dimension + e] == decoded_scalar(
                        buffer@,
                        *view,
                        i as int,
                        e,
                    ));
                }
            }
        }
        i = i + 1;
    }
    Ok(v)
}

/// Every little-endian word is nonnegative and below `2^(8 * size)`.
pub proof fn lemma_le_bytes_value_bound(bytes: Seq<u8>, start: int, size: int)
    requires
        size >= 0,
    ensures
        0 <= le_bytes_value(bytes, start, size) < pow2((8 * size) as nat),
    decreases size,
{
    lemma2_to64();
    if size > 0 {
        lemma_le_bytes_value_bound(bytes, start + 1, size - 1);
        lemma_pow2_adds((8 * (size - 1)) as nat, 8);
    }
}

/// Decoded scalars stay in the numeric range of their type; for floats
/// the raw word stays below `2^32`.
pub proof fn lemma_decoded_scalar_bound(bytes: Seq<u8>, view: AccessorView, i: int, d: int)
    ensures
        -0x8000 <= decoded_scalar(bytes, view, i, d) < 0x1_0000_0000,
        view.data_type == ElementType::F32 ==> 0 <= decoded_scalar(bytes, view, i, d),
{
    lemma_le_bytes_value_bound(bytes, scalar_start(view, i, d), view.data_type.spec_size());
    lemma2_to64();
}

/// Relies on `num::cast`: an `i64` casts to a `u32` exactly when it lies
/// in the target's range, and the cast preserves the value.
#[verifier::external_body]
fn cast_index_to_u32(v: i64) -> (r: Option<u32>)
    ensures
        r == (if 0 <= v && v <= u32::MAX as i64 {
            Some(v as u32)
        } else {
            None::<u32>
        }),
{
    num::cast::<i64, u32>(v)
}

/// Whether one decoded scalar converts to a `u32` index: integer values
/// must lie in the index range, float bit patterns must encode an exact
/// integer in it.
pub open spec fn index_representable(value: int, ty: ElementType) -> bool {
    match ty {
        ElementType::F32 => f32_bits_as_exact_u32(value as u32) is Some,
        _ => 0 <= value <= u32::MAX,
    }
}

/// The index a decoded scalar converts to.
pub open spec fn index_value(value: int, ty: ElementType) -> int {
    match ty {
        ElementType::F32 => f32_bits_as_exact_u32(value as u32)->Some_0,
        _ => value,
    }
}

/// Decodes an index accessor as `u32` values.
///
/// Fails with `OutOfBounds` exactly when the accessor's byte range runs
/// past the buffer, and with `Unrepresentable` exactly when some scalar
/// has no exact `u32` value.
pub fn load_indices(buffer: &Vec<u8>, view: &AccessorView) -> (r: Result<Vec<u32>, DecodeError>)
    requires
        view.wf(),
        view.dimension == 1,
    ensures
        r matches Err(DecodeError::OutOfBounds) <==> !view.in_bounds(buffer@.len() as int),
        r is Ok <==> view.in_bounds(buffer@.len() as int) && (forall|i: int|
            0 <= i < view.count ==> index_representable(
                decoded_scalar(buffer@, *view, i, 0),
                view.data_type,
            )),
        match r {
            Ok(v) => {
                &&& v@.len() == view.count
                &&& forall|i: int|
                    0 <= i < view.count ==> v@[i] == index_value(
                        decoded_scalar(buffer@, *view, i, 0),
                        view.data_type,
                    )
            },
            Err(_) => true,
        },
{
    let flat = match decode_scalars(buffer, view) {
        Ok(flat) => flat,
        Err(e) => {
            return Err(e);
        },
    };
    let mut out: Vec<u32> = Vec::new();
    let mut i: usize = 0;
    assert(flat@.len() == view.count * 1);
    while i < view.count
        invariant
            i <= view.count,
            view.dimension == 1,
            flat@.len() == view.count,
            view.in_bounds(buffer@.len() as int),
            forall|k: int|
                0 <= k < view.count ==> flat@[k] == decoded_scalar(buffer@, *view, k, 0),
            out@.len() == i,
            forall|k: int|
                0 <= k < i ==> index_representable(
                    decoded_scalar(buffer@, *view, k, 0),
                    view.data_type,
                ),
            forall|k: int|
                0 <= k < i ==> out@[k] == index_value(
                    decoded_scalar(buffer@, *view, k, 0),
                    view.data_type,
                ),
        decreases view.count - i,
    {
        proof {
            lemma_decoded_scalar_bound(buffer@, *view, i as int, 0);
        }
        let value: i64 = flat[i];
        let converted: Option<u32> = if matches!(view.data_type, ElementType::F32) {
            f32_bits_to_u32_exact(value as u32)
        } else {
            cast_index_to_u32(value)
        };
        match converted {
            Some(w) => {
                out.push(w);
            },
            None => {
                return Err(DecodeError::Unrepresentable);
            },
        }
        i = i + 1;
    }
    Ok(out)
}

/// How a decoded scalar stands as a float bit pattern: a float scalar is
/// its own bits; an integer scalar must be encoded exactly.
pub open spec fn float_bits_of(result: u32, value: int, ty: ElementType) -> bool {
    match ty {
        ElementType::F32 => result == value,
        _ => f32_bits_represent_int(result, value),
    }
}

/// Whether a decoded scalar has an exact float bit pattern at all.
pub open spec fn float_representable(value: int, ty: ElementType) -> bool {
    match ty {
        ElementType::F32 => true,
        _ => fits_f32_int(value),
    }
}

/// Converts one decoded scalar to its float bit pattern.
fn scalar_to_float_bits(value: i64, ty: ElementType) -> (r: Option<u32>)
    requires
        -0x8000 <= value < 0x1_0000_0000,
        ty == ElementType::F32 ==> 0 <= value,
    ensures
        match r {
            Some(bits) => float_bits_of(bits, value as int, ty),
            None => !float_representable(value as int, ty),
        },
        r is Some <==> float_representable(value as int, ty),
{
    match ty {
        ElementType::F32 => Some(value as u32),
        _ => f32_bits_from_int(value),
    }
}

/// Decodes a 2-vector float attribute: each element's two scalars as
/// `f32` bit patterns.
///
/// Fails with `OutOfBounds` exactly when the accessor's byte range runs
/// past the buffer, and with `Unrepresentable` exactly when some integer
/// scalar has no exact single-precision encoding.
pub fn load_2d_array(buffer: &Vec<u8>, view: &AccessorView) -> (r: Result<
    Vec<[u32; 2]>,
    DecodeError,
>)
    requires
        view.wf(),
        view.dimension == 2,
    ensures
        r matches Err(DecodeError::OutOfBounds) <==> !view.in_bounds(buffer@.len() as int),
        r is Ok <==> view.in_bounds(buffer@.len() as int) && (forall|i: int, d: int|
            0 <= i < view.count && 0 <= d < 2 ==> float_representable(
                decoded_scalar(buffer@, *view, i, d),
                view.data_type,
            )),
        match r {
            Ok(v) => {
                &&& v@.len() == view.count
                &&& forall|i: int|
                    0 <= i < view.count ==> float_bits_of(
                        v@[i][0],
                        decoded_scalar(buffer@, *view, i, 0),
                        view.data_type,
                    ) && float_bits_of(
                        v@[i][1],
                        decoded_scalar(buffer@, *view, i, 1),
                        view.data_type,
                    )
            },
            Err(_) => true,
        },
{
    let flat = match decode_scalars(buffer, view) {
        Ok(flat) => flat,
        Err(e) => {
            return Err(e);
        },
    };
    let flen: usize = flat.len();
    let mut out: Vec<[u32; 2]> = Vec::new();
    let mut i: usize = 0;
    while i < view.count
        invariant
            i <= view.count,
            view.dimension == 2,
            flen == flat@.len(),
            flat@.len() == view.count * 2,
            view.in_bounds(buffer@.len() as int),
            forall|k: int, e: int|
                0 <= k < view.count && 0 <= e < 2 ==> flat@[k * 2 + e] == decoded_scalar(
                    buffer@,
                    *view,
                    k,
                    e,
                ),
            out@.len() == i,
            forall|k: int, e: int|
                0 <= k < i && 0 <= e < 2 ==> float_representable(
                    decoded_scalar(buffer@, *view, k, e),
                    view.data_type,
                ),
            forall|k: int|
                0 <= k < i ==> float_bits_of(
                    out@[k][0],
                    decoded_scalar(buffer@, *view, k, 0),
                    view.data_type,
                ) && float_bits_of(
                    out@[k][1],
                    decoded_scalar(buffer@, *view, k, 1),
                    view.data_type,
                ),
        decreases view.count - i,
    {
        proof {
            lemma_decoded_scalar_bound(buffer@, *view, i as int, 0);
            lemma_decoded_scalar_bound(buffer@, *view, i as int, 1);
        }
        let b0 = match scalar_to_float_bits(flat[2 * i], view.data_type) {
            Some(b) => b,
            None => {
                return Err(DecodeError::Unrepresentable);
            },
        };
        let b1 = match scalar_to_float_bits(flat[2 * i + 1], view.data_type) {
            Some(b) => b,
            None => {
                return Err(DecodeError::Unrepresentable);
            },
        };
        out.push([b0, b1]);
        i = i + 1;
    }
    Ok(out)
}

/// Decodes a 3-vector float attribute: each element's three scalars as
/// `f32` bit patterns. Failure cases as in [`load_2d_array`].
pub fn load_3d_array(buffer: &Vec<u8>, view: &AccessorView) -> (r: Result<
    Vec<[u32; 3]>,
    DecodeError,
>)
    requires
        view.wf(),
        view.dimension == 3,
    ensures
        r matches Err(DecodeError::OutOfBounds) <==> !view.in_bounds(buffer@.len() as int),
        r is Ok <==> view.in_bounds(buffer@.len() as int) && (forall|i: int, d: int|
            0 <= i < view.count && 0 <= d < 3 ==> float_representable(
                decoded_scalar(buffer@, *view, i, d),
                view.data_type,
            )),
        match r {
            Ok(v) => {
                &&& v@.len() == view.count
                &&& forall|i: int|
                    0 <= i < view.count ==> float_bits_of(
                        v@[i][0],
                        decoded_scalar(buffer@, *view, i, 0),
                        view.data_type,
                    ) && float_bits_of(
                        v@[i][1],
                        decoded_scalar(buffer@, *view, i, 1),
                        view.data_type,
                    ) && float_bits_of(
                        v@[i][2],
                        decoded_scalar(buffer@, *view, i, 2),
                        view.data_type,
                    )
            },
            Err(_) => true,
        },
{
    let flat = match decode_scalars(buffer, view) {
        Ok(flat) => flat,
        Err(e) => {
            return Err(e);
        },
    };
    let flen: usize = flat.len();
    let mut out: Vec<[u32; 3]> = Vec::new();
    let mut i: usize = 0;
    while i < view.count
        invariant
            i <= view.count,
            view.dimension == 3,
            flen == flat@.len(),
            flat@.len() == view.count * 3,
            view.in_bounds(buffer@.len() as int),
            forall|k: int, e: int|
                0 <= k < view.count && 0 <= e < 3 ==> flat@[k * 3 + e] == decoded_scalar(
                    buffer@,
                    *view,
                    k,
                    e,
                ),
            out@.len() == i,
            forall|k: int, e: int|
                0 <= k < i && 0 <= e < 3 ==> float_representable(
                    decoded_scalar(buffer@, *view, k, e),
                    view.data_type,
                ),
            forall|k: int|
                0 <= k < i ==> float_bits_of(
                    out@[k][0],
                    decoded_scalar(buffer@, *view, k, 0),
                    view.data_type,
                ) && float_bits_of(
                    out@[k][1],
                    decoded_scalar(buffer@, *view, k, 1),
                    view.data_type,
                ) && float_bits_of(
                    out@[k][2],
                    decoded_scalar(buffer@, *view, k, 2),
                    view.data_type,
                ),
        decreases view.count - i,
    {
        proof {
            lemma_decoded_scalar_bound(buffer@, *view, i as int, 0);
            lemma_decoded_scalar_bound(buffer@, *view, i as int, 1);
            lemma_decoded_scalar_bound(buffer@, *view, i as int, 2);
        }
        let b0 = match scalar_to_float_bits(flat[3 * i], view.data_type) {
            Some(b) => b,
            None => {
                return Err(DecodeError::Unrepresentable);
            },
        };
        let b1 = match scalar_to_float_bits(flat[3 * i + 1], view.data_type) {
            Some(b) => b,
            None => {
                return Err(DecodeError::Unrepresentable);
            },
        };
        let b2 = match scalar_to_float_bits(flat[3 * i + 2], view.data_type) {
            Some(b) => b,
            None => {
                return Err(DecodeError::Unrepresentable);
            },
        };
        out.push([b0, b1, b2]);
        i = i + 1;
    }
    Ok(out)
}

/// The numeric range of each scalar type; for floats, the range of raw
/// bit patterns.
pub open spec fn scalar_in_range(v: int, ty: ElementType) -> bool {
    match ty {
        ElementType::I8 => -0x80 <= v < 0x80,
        ElementType::U8 => 0 <= v < 0x100,
        ElementType::I16 => -0x8000 <= v < 0x8000,
        ElementType::U16 => 0 <= v < 0x1_0000,
        ElementType::U32 => 0 <= v < 0x1_0000_0000,
        ElementType::F32 => 0 <= v < 0x1_0000_0000,
    }
}

/// The raw unsigned word that encodes a value: its two's complement.
pub open spec fn scalar_raw(v: int, ty: ElementType) -> int {
    v % (pow2((8 * ty.spec_size()) as nat) as int)
}

/// The little-endian encoding of a raw word.
pub open spec fn le_bytes_of(raw: int, size: int) -> Seq<u8>
    decreases size,
{
    if size <= 0 {
        Seq::empty()
    } else {
        seq![(raw % 256) as u8] + le_bytes_of(raw / 256, size - 1)
    }
}

/// Interpreting a raw word as its type's value and re-encoding it as a
/// raw word is the identity on in-range values.
pub proof fn lemma_scalar_value_raw_roundtrip(v: int, ty: ElementType)
    requires
        scalar_in_range(v, ty),
    ensures
        scalar_value(scalar_raw(v, ty), ty) == v,
{
    lemma2_to64();
    let p = pow2((8 * ty.spec_size()) as nat) as int;
    if v >= 0 {
        vstd::arithmetic::div_mod::lemma_fundamental_div_mod_converse(v, p, 0, v);
    } else {
        vstd::arithmetic::div_mod::lemma_fundamental_div_mod_converse(v, p, -1, v + p);
    }
}

/// A little-endian encoding is one byte per size unit.
pub proof fn lemma_le_bytes_of_len(raw: int, size: int)
    requires
        size >= 0,
    ensures
        le_bytes_of(raw, size).len() == size,
    decreases size,
{
    if size > 0 {
        lemma_le_bytes_of_len(raw / 256, size - 1);
    }
}

/// Reading back a little-endian encoding yields the raw word.
pub proof fn lemma_le_bytes_roundtrip(bytes: Seq<u8>, start: int, raw: int, size: int)
    requires
        0 <= size,
        0 <= raw < pow2((8 * size) as nat),
        0 <= start,
        start + size <= bytes.len(),
        bytes.subrange(start, start + size) =~= le_bytes_of(raw, size),
    ensures
        le_bytes_value(bytes, start, size) == raw,
    decreases size,
{
    lemma2_to64();
    if size > 0 {
        let sub = bytes.subrange(start, start + size);
        let enc = le_bytes_of(raw, size);
        assert(sub[0] == bytes[start]);
        assert(enc[0] == (raw % 256) as u8);
        vstd::arithmetic::div_mod::lemma_mod_bound(raw, 256);
        assert(bytes[start] == raw % 256);
        lemma_pow2_adds((8 * (size - 1)) as nat, 8);
        vstd::arithmetic::div_mod::lemma_fundamental_div_mod(raw, 256);
        assert(0 <= raw / 256 < pow2((8 * (size - 1)) as nat)) by {
            if raw / 256 >= pow2((8 * (size - 1)) as nat) {
                lemma_mul_inequality(
                    pow2((8 * (size - 1)) as nat) as int,
                    raw / 256,
                    256,
                );
            }
            vstd::arithmetic::div_mod::lemma_div_pos_is_pos(raw, 256);
        }
        lemma_le_bytes_of_len(raw / 256, size - 1);
        assert(bytes.subrange(start + 1, start + size) =~= le_bytes_of(raw / 256, size - 1)) by {
            assert forall|j: int| 0 <= j < size - 1 implies #[trigger] bytes.subrange(
                start + 1,
                start + size,
            )[j] == le_bytes_of(raw / 256, size - 1)[j] by {
                let tail = le_bytes_of(raw / 256, size - 1);
                assert(enc =~= seq![(raw % 256) as u8] + tail);
                assert(sub[j + 1] == enc[j + 1]);
                assert((seq![(raw % 256) as u8] + tail)[j + 1] == tail[j]);
            }
        }
        lemma_le_bytes_roundtrip(bytes, start + 1, raw / 256, size - 1);
    }
}

/// Decode inverts encode. For a buffer that holds, at each scalar's
/// position, the little-endian two's-complement encoding of an in-range
/// value, every decoded scalar is exactly that value: exact for the
/// integer types, bit-identical for floats.
pub proof fn lemma_decode_round_trip(buffer: Seq<u8>, view: AccessorView, values: Seq<int>)
    requires
        values.len() == view.count * view.dimension,
        forall|i: int, d: int|
            0 <= i < view.count && 0 <= d < view.dimension ==> scalar_in_range(
                #[trigger] values[i * view.dimension + d],
                view.data_type,
            ),
        forall|i: int, d: int|
            0 <= i < view.count && 0 <= d < view.dimension ==> {
                &&& 0 <= #[trigger] scalar_start(view, i, d)
                &&& scalar_start(view, i, d) + view.data_type.spec_size() <= buffer.len()
                &&& buffer.subrange(
                    scalar_start(view, i, d),
                    scalar_start(view, i, d) + view.data_type.spec_size(),
                ) =~= le_bytes_of(
                    scalar_raw(values[i * view.dimension + d], view.data_type),
                    view.data_type.spec_size(),
                )
            },
    ensures
        forall|i: int, d: int|
            0 <= i < view.count && 0 <= d < view.dimension ==> decoded_scalar(buffer, view, i, d)
                == values[i * view.dimension + d],
{
    assert forall|i: int, d: int|
        0 <= i < view.count && 0 <= d < view.dimension implies decoded_scalar(buffer, view, i, d)
        == values[i * view.dimension + d] by {
        let v = values[i * view.dimension + d];
        let ty = view.data_type;
        let raw = scalar_raw(v, ty);
        lemma2_to64();
        vstd::arithmetic::div_mod::lemma_mod_bound(
            v,
            pow2((8 * ty.spec_size()) as nat) as int,
        );
        lemma_le_bytes_roundtrip(buffer, scalar_start(view, i, d), raw, ty.spec_size());
        lemma_scalar_value_raw_roundtrip(v, ty);
    }
}

} // verus!
