use pbr_core::accessor::{
    decode_scalars, load_2d_array, load_3d_array, load_indices, AccessorView, DecodeError,
    ElementType,
};
use pbr_core::floatbits::{f32_bits_from_int, f32_bits_to_u32_exact, pow2_u64};

fn view(offset: usize, count: usize, ty: ElementType, dim: usize, stride: usize) -> AccessorView {
    AccessorView { offset, count, data_type: ty, dimension: dim, stride }
}

#[test]
fn decode_u16_scalars_round_trip() {
    let values: [u16; 4] = [0, 1, 513, 65535];
    let mut buffer: Vec<u8> = Vec::new();
    for v in values {
        buffer.extend_from_slice(&v.to_le_bytes());
    }
    let out = decode_scalars(&buffer, &view(0, 4, ElementType::U16, 1, 2)).unwrap();
    assert_eq!(out, vec![0, 1, 513, 65535]);
}

#[test]
fn decode_i8_and_i16_two_complement() {
    let buffer: Vec<u8> = vec![0xFF, 0x80, 0x7F, 0x00];
    let out = decode_scalars(&buffer, &view(0, 4, ElementType::I8, 1, 1)).unwrap();
    assert_eq!(out, vec![-1, -128, 127, 0]);

    let mut buffer: Vec<u8> = Vec::new();
    for v in [-1i16, -32768, 32767, 12] {
        buffer.extend_from_slice(&v.to_le_bytes());
    }
    let out = decode_scalars(&buffer, &view(0, 4, ElementType::I16, 1, 2)).unwrap();
    assert_eq!(out, vec![-1, -32768, 32767, 12]);
}

#[test]
fn decode_f32_scalars_are_bit_exact() {
    let values: [f32; 3] = [1.5, -0.25, 1024.125];
    let mut buffer: Vec<u8> = Vec::new();
    for v in values {
        buffer.extend_from_slice(&v.to_le_bytes());
    }
    let out = decode_scalars(&buffer, &view(0, 3, ElementType::F32, 1, 4)).unwrap();
    for (decoded, original) in out.iter().zip(values.iter()) {
        // Decode then re-encode: bit-identical.
        assert_eq!(*decoded as u32, original.to_bits());
        assert_eq!(f32::from_bits(*decoded as u32), *original);
    }
}

#[test]
fn decode_respects_stride_and_offset() {
    // Two 3-vectors of u8 interleaved with one byte of padding each.
    let buffer: Vec<u8> = vec![9, 1, 2, 3, 99, 4, 5, 6, 99];
    let out = decode_scalars(&buffer, &view(1, 2, ElementType::U8, 3, 4)).unwrap();
    assert_eq!(out, vec![1, 2, 3, 4, 5, 6]);
}

#[test]
fn decode_out_of_bounds_fails() {
    let buffer: Vec<u8> = vec![0; 7];
    let r = decode_scalars(&buffer, &view(0, 2, ElementType::U32, 1, 4));
    assert_eq!(r.unwrap_err(), DecodeError::OutOfBounds);
    // One byte more and the same accessor fits.
    let buffer: Vec<u8> = vec![0; 8];
    assert!(decode_scalars(&buffer, &view(0, 2, ElementType::U32, 1, 4)).is_ok());
}

#[test]
fn load_indices_from_u16() {
    let mut buffer: Vec<u8> = Vec::new();
    for v in [0u16, 1, 2, 2, 1, 3] {
        buffer.extend_from_slice(&v.to_le_bytes());
    }
    let out = load_indices(&buffer, &view(0, 6, ElementType::U16, 1, 2)).unwrap();
    assert_eq!(out, vec![0, 1, 2, 2, 1, 3]);
}

#[test]
fn load_indices_from_integral_floats() {
    let mut buffer: Vec<u8> = Vec::new();
    for v in [0.0f32, 7.0, 4096.0] {
        buffer.extend_from_slice(&v.to_le_bytes());
    }
    let out = load_indices(&buffer, &view(0, 3, ElementType::F32, 1, 4)).unwrap();
    assert_eq!(out, vec![0, 7, 4096]);
}

#[test]
fn load_indices_rejects_negative_and_fractional() {
    let buffer: Vec<u8> = vec![0xFF];
    let r = load_indices(&buffer, &view(0, 1, ElementType::I8, 1, 1));
    assert_eq!(r.unwrap_err(), DecodeError::Unrepresentable);

    let buffer = 1.5f32.to_le_bytes().to_vec();
    let r = load_indices(&buffer, &view(0, 1, ElementType::F32, 1, 4));
    assert_eq!(r.unwrap_err(), DecodeError::Unrepresentable);
}

#[test]
fn load_3d_array_groups_f32_bits() {
    let values: [f32; 6] = [1.0, 2.0, 3.0, -1.0, -2.0, -3.0];
    let mut buffer: Vec<u8> = Vec::new();
    for v in values {
        buffer.extend_from_slice(&v.to_le_bytes());
    }
    let out = load_3d_array(&buffer, &view(0, 2, ElementType::F32, 3, 12)).unwrap();
    assert_eq!(out.len(), 2);
    assert_eq!(out[0], [1.0f32.to_bits(), 2.0f32.to_bits(), 3.0f32.to_bits()]);
    assert_eq!(out[1], [(-1.0f32).to_bits(), (-2.0f32).to_bits(), (-3.0f32).to_bits()]);
}

#[test]
fn load_2d_array_converts_integers_exactly() {
    // i16 texture coordinates become the floats of the same value.
    let mut buffer: Vec<u8> = Vec::new();
    for v in [-3i16, 120, 32767, 0] {
        buffer.extend_from_slice(&v.to_le_bytes());
    }
    let out = load_2d_array(&buffer, &view(0, 2, ElementType::I16, 2, 4)).unwrap();
    assert_eq!(out[0], [(-3.0f32).to_bits(), 120.0f32.to_bits()]);
    assert_eq!(out[1], [32767.0f32.to_bits(), 0.0f32.to_bits()]);
}

#[test]
fn f32_encoding_matches_hardware() {
    for v in [0i64, 1, -1, 2, 7, 255, 4096, 8388607, 16777216, -16777216, 1 << 30] {
        let bits = f32_bits_from_int(v).unwrap();
        assert_eq!(bits, (v as f32).to_bits(), "value {v}");
    }
}

#[test]
fn f32_encoding_refuses_lossy_values() {
    // 2^24 + 1 is the first integer single precision cannot hold.
    assert_eq!(f32_bits_from_int(16777217), None);
    assert_eq!(f32_bits_from_int(-16777217), None);
    // 2^24 + 2 is even and fits again.
    let bits = f32_bits_from_int(16777218).unwrap();
    assert_eq!(bits, 16777218.0f32.to_bits());
}

#[test]
fn f32_decoding_matches_hardware() {
    for v in [0u32, 1, 2, 100, 16777216, u32::MAX - 255] {
        let bits = (v as f32).to_bits();
        if (v as f32) as u32 == v {
            assert_eq!(f32_bits_to_u32_exact(bits), Some(v), "value {v}");
        }
    }
    assert_eq!(f32_bits_to_u32_exact(0.5f32.to_bits()), None);
    assert_eq!(f32_bits_to_u32_exact((-1.0f32).to_bits()), None);
    assert_eq!(f32_bits_to_u32_exact(f32::NAN.to_bits()), None);
    assert_eq!(f32_bits_to_u32_exact(f32::INFINITY.to_bits()), None);
    // 2^32 is one too many.
    assert_eq!(f32_bits_to_u32_exact(4294967296.0f32.to_bits()), None);
}

#[test]
fn pow2_helper_matches_shifts() {
    for e in [0u64, 1, 8, 23, 31, 63] {
        assert_eq!(pow2_u64(e), 1u64 << e);
    }
}

#[test]
fn decode_empty_accessor_yields_nothing() {
    let buffer: Vec<u8> = Vec::new();
    let out = decode_scalars(&buffer, &view(100, 0, ElementType::U32, 3, 12)).unwrap();
    assert!(out.is_empty());
    let out = load_indices(&buffer, &view(0, 0, ElementType::U16, 1, 2)).unwrap();
    assert!(out.is_empty());
}

#[test]
fn decode_overlapping_stride_rereads_bytes() {
    // A stride smaller than the element lets elements share bytes.
    let buffer: Vec<u8> = vec![1, 2, 3];
    let out = decode_scalars(&buffer, &view(0, 2, ElementType::U8, 2, 1)).unwrap();
    assert_eq!(out, vec![1, 2, 2, 3]);
}
