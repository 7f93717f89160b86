use fastpfor::{AnyLenCodec, FastPFor128};
use mlt::decoder::integer::{
    bytes_to_encoded_u32s, decode_componentwise_delta_vec2, decode_fast_pfor, decode_int_stream,
    decode_morton, decode_morton_code, decode_morton_codes, decode_rle, decode_zigzag,
    decode_zigzag_delta,
};
use mlt::decoder::integer::{to_i32s, write_into_zeros};
use mlt::decoder::tracked_bytes::{TrackedBytes, VarintFailure};
use mlt::decoder::varint::{decode, varint_error};
use mlt::encoder::helpers::encoded_u32s_to_bytes;
use mlt::error::{MltError, VarintError};
use mlt::metadata::stream::{Rle, StreamMetadata};
use mlt::metadata::stream_encoding::{
    Logical, LogicalLevelTechnique, LogicalStreamType, Physical, PhysicalLevelTechnique,
    PhysicalStreamType,
};

fn metadata(technique: PhysicalLevelTechnique, num_values: u32, byte_length: u32) -> StreamMetadata {
    StreamMetadata {
        logical: Logical::new(
            Some(LogicalStreamType::Dictionary(None)),
            LogicalLevelTechnique::Plain,
            LogicalLevelTechnique::Plain,
        ),
        physical: Physical::new(PhysicalStreamType::Present, technique),
        num_values,
        byte_length,
        morton: None,
        rle: None,
    }
}

#[test]
fn test_decode_fast_pfor() {
    // Encode a sample input using the FastPFor128 codec
    let mut codec = FastPFor128::default();
    let input: Vec<u32> = vec![5, 10, 15, 20, 25, 30, 35];
    let mut encoded: Vec<u32> = Vec::new();
    codec.encode(&input, &mut encoded).unwrap();
    let byte_length = (encoded.len() * std::mem::size_of::<u32>()) as u32;
    let num_values = input.len() as u32;

    // Prepare the tile as a TrackedBytes instance
    let encoded_bytes: Vec<u8> = encoded_u32s_to_bytes(&encoded);
    let mut tile: TrackedBytes = encoded_bytes.into();

    let stream_metadata = StreamMetadata {
        logical: Logical::new(
            Some(LogicalStreamType::Dictionary(None)),
            LogicalLevelTechnique::Plain,
            LogicalLevelTechnique::Plain,
        ),
        physical: Physical::new(PhysicalStreamType::Present, PhysicalLevelTechnique::FastPfor),
        num_values,
        byte_length,
        morton: None,
        rle: None,
    };
    let result = decode_fast_pfor(&mut tile, &stream_metadata);
    assert_eq!(input, result);
    assert_eq!(tile.offset(), byte_length as usize);
}

#[test]
fn test_bytes_to_encoded_u32s() {
    let mut tile: TrackedBytes = [0x12, 0x34, 0x56, 0x78, 0x90, 0xab, 0xcd, 0xef]
        .as_slice()
        .into();
    let result = bytes_to_encoded_u32s(&mut tile, 8);
    assert_eq!(result, vec![0x12345678, 0x90abcdef]);
}

#[test]
fn test_decode_rle() {
    let rle_meta = Rle { runs: 3, num_rle_values: 6 };

    let data_u32: Vec<u32> = vec![3, 2, 1, 10, 20, 30];
    let decoded_u32 = decode_rle::<u32>(&data_u32, &rle_meta).unwrap();
    assert_eq!(decoded_u32, vec![10, 10, 10, 20, 20, 30]);

    let data_u64: Vec<u64> = vec![3, 2, 1, 10, 20, 30];
    let decoded_u64 = decode_rle::<u64>(&data_u64, &rle_meta).unwrap();
    assert_eq!(decoded_u64, vec![10, 10, 10, 20, 20, 30]);

    let data_i32: Vec<i32> = vec![3, 2, 1, -10, 20, 30];
    let decoded_i32 = decode_rle::<i32>(&data_i32, &rle_meta).unwrap();
    assert_eq!(decoded_i32, vec![-10, -10, -10, 20, 20, 30]);

    let data_i64: Vec<i64> = vec![3, 2, 1, -10, 20, 30];
    let decoded_i64 = decode_rle::<i64>(&data_i64, &rle_meta).unwrap();
    assert_eq!(decoded_i64, vec![-10, -10, -10, 20, 20, 30]);
}

#[test]
fn test_decode_zigzag() {
    let encoded_u32 = vec![0u32, 1, 2, 3, 4, 5];
    let expected_i32 = vec![0i32, -1, 1, -2, 2, -3];
    let decoded_i32 = decode_zigzag::<i32>(&encoded_u32).unwrap();
    assert_eq!(decoded_i32, expected_i32);

    let encoded_u64 = vec![0u64, 1, 2, 3, 4, 5];
    let expected_i64 = vec![0i64, -1, 1, -2, 2, -3];
    let decoded_i64 = decode_zigzag::<i64>(&encoded_u64).unwrap();
    assert_eq!(decoded_i64, expected_i64);
}

#[test]
fn rle_wrong_data_length_is_an_error() {
    let rle_meta = Rle { runs: 3, num_rle_values: 6 };
    let data: Vec<u32> = vec![3, 2, 1, 10, 20];
    let result = decode_rle::<u32>(&data, &rle_meta);
    assert!(matches!(result, Err(MltError::RleDecode(_))));
}

#[test]
fn rle_zero_runs_and_zero_lengths() {
    let empty: Vec<u32> = vec![];
    assert_eq!(decode_rle::<u32>(&empty, &Rle { runs: 0, num_rle_values: 0 }).unwrap(), empty);
    let data: Vec<i64> = vec![0, 2, 7, 8];
    assert_eq!(decode_rle::<i64>(&data, &Rle { runs: 2, num_rle_values: 2 }).unwrap(), vec![8, 8]);
}

#[test]
fn rle_output_length_is_the_sum_of_runs() {
    let data: Vec<u32> = vec![4, 0, 5, 1, 2, 3];
    let decoded = decode_rle::<u32>(&data, &Rle { runs: 3, num_rle_values: 9 }).unwrap();
    assert_eq!(decoded.len(), 4 + 0 + 5);
    assert_eq!(decoded, vec![1, 1, 1, 1, 3, 3, 3, 3, 3]);
}

#[test]
fn zigzag_extremes() {
    let decoded = decode_zigzag::<i32>(&[u32::MAX, u32::MAX - 1, 7]).unwrap();
    assert_eq!(decoded, vec![i32::MIN, i32::MAX, -4]);
    let decoded = decode_zigzag::<i64>(&[u64::MAX, u64::MAX - 1]).unwrap();
    assert_eq!(decoded, vec![i64::MIN, i64::MAX]);
}

#[test]
fn zigzag_roundtrip_on_values() {
    for x in [-5i32, -1, 0, 1, 2, 1000, i32::MIN, i32::MAX] {
        let code = if x >= 0 { (x as u32) * 2 } else { (-(x as i64) * 2 - 1) as u32 };
        assert_eq!(decode_zigzag::<i32>(&[code]).unwrap(), vec![x]);
    }
}

#[test]
fn bytes_to_encoded_u32s_leaves_partial_word() {
    let mut tile = TrackedBytes::from_vec(vec![0, 0, 1, 2, 0xff, 9]);
    let result = bytes_to_encoded_u32s(&mut tile, 6);
    assert_eq!(result, vec![0x0102]);
    assert_eq!(tile.offset(), 4);
    assert_eq!(tile.get_u8(), 0xff);
    assert_eq!(tile.offset(), 5);
}

#[test]
fn encoded_bytes_roundtrip() {
    let values = vec![0u32, 1, 0xdeadbeef, u32::MAX, 0x01020304];
    let bytes = encoded_u32s_to_bytes(&values);
    assert_eq!(&bytes[8..12], &[0xde, 0xad, 0xbe, 0xef]);
    let mut tile = TrackedBytes::from_vec(bytes);
    assert_eq!(bytes_to_encoded_u32s(&mut tile, 4 * values.len()), values);
    assert_eq!(tile.offset(), 20);
}

#[test]
fn decode_fast_pfor_bad_stream_gives_zeros() {
    // An empty stream cannot hold three values.
    let mut tile = TrackedBytes::from_vec(vec![]);
    let result = decode_fast_pfor(&mut tile, &metadata(PhysicalLevelTechnique::FastPfor, 3, 0));
    assert_eq!(result, vec![0, 0, 0]);
}

#[test]
fn decode_int_stream_fast_pfor() {
    let mut codec = FastPFor128::default();
    let input: Vec<u32> = (0..300).map(|i| i * 3).chain([u32::MAX]).collect();
    let mut encoded: Vec<u32> = Vec::new();
    codec.encode(&input, &mut encoded).unwrap();
    let byte_length = (encoded.len() * 4) as u32;
    let mut bytes = encoded_u32s_to_bytes(&encoded);
    bytes.push(42);
    let mut tile = TrackedBytes::from_vec(bytes);
    let meta = metadata(PhysicalLevelTechnique::FastPfor, input.len() as u32, byte_length);
    let result = decode_int_stream(&mut tile, &meta, false).unwrap();
    let expected: Vec<i32> = input.iter().map(|&x| x as i32).collect();
    assert_eq!(result, expected);
    assert_eq!(*result.last().unwrap(), -1);
    assert_eq!(tile.offset(), byte_length as usize);
    assert_eq!(tile.get_u8(), 42);
}

#[test]
fn decode_int_stream_varint() {
    // 1, 300, 0xffffffff
    let bytes = vec![0x01, 0xac, 0x02, 0xff, 0xff, 0xff, 0xff, 0x0f, 0x07];
    let mut tile = TrackedBytes::from_vec(bytes);
    let meta = metadata(PhysicalLevelTechnique::Varint, 3, 8);
    let result = decode_int_stream(&mut tile, &meta, false).unwrap();
    assert_eq!(result, vec![1, 300, -1]);
    assert_eq!(tile.offset(), 8);
}

#[test]
fn decode_int_stream_varint_errors() {
    let mut tile = TrackedBytes::from_vec(vec![0x80, 0x80]);
    let meta = metadata(PhysicalLevelTechnique::Varint, 1, 2);
    let result = decode_int_stream(&mut tile, &meta, false);
    assert!(matches!(result, Err(MltError::Varint(VarintError::Eof))));

    let mut tile = TrackedBytes::from_vec(vec![0xff, 0xff, 0xff, 0xff, 0x7f]);
    let result = decode_int_stream(&mut tile, &meta, false);
    assert!(matches!(result, Err(MltError::Varint(VarintError::Overflow))));
}

#[test]
fn decode_int_stream_unsupported_technique() {
    let mut tile = TrackedBytes::from_vec(vec![1, 2, 3]);
    let meta = metadata(PhysicalLevelTechnique::Alp, 1, 3);
    match decode_int_stream(&mut tile, &meta, true) {
        Err(MltError::UnsupportedIntStreamTechnique(name)) => assert_eq!(name, "Alp"),
        other => panic!("unexpected {:?}", other),
    }
    assert_eq!(tile.offset(), 0);
    let meta = metadata(PhysicalLevelTechnique::Plain, 1, 3);
    match decode_int_stream(&mut tile, &meta, true) {
        Err(MltError::UnsupportedIntStreamTechnique(name)) => assert_eq!(name, "None"),
        other => panic!("unexpected {:?}", other),
    }
}

#[test]
fn placeholders_decode_nothing() {
    assert!(decode_zigzag_delta().unwrap().is_empty());
    assert!(decode_componentwise_delta_vec2().unwrap().is_empty());
    assert!(decode_morton().unwrap().is_empty());
    assert!(decode_morton_code().unwrap().is_empty());
    assert!(decode_morton_codes().unwrap().is_empty());
}

#[test]
fn write_into_zeros_cases() {
    assert_eq!(write_into_zeros(&vec![], 2), vec![0, 0]);
    assert_eq!(write_into_zeros(&vec![4, 5], 2), vec![4, 5]);
    assert_eq!(write_into_zeros(&vec![4], 3), vec![4, 0, 0]);
    assert_eq!(write_into_zeros(&vec![4, 5, 6], 2), vec![4, 5]);
}

#[test]
fn to_i32s_is_bitwise() {
    assert_eq!(to_i32s(vec![0, 1, 0x7fff_ffff, 0x8000_0000, u32::MAX]), vec![0, 1, i32::MAX, i32::MIN, -1]);
}

#[test]
fn tracked_varint_reads() {
    let mut tile = TrackedBytes::from_vec(vec![0x96, 0x01, 0x05]);
    assert_eq!(tile.try_get_u32_varint(), Ok(150));
    assert_eq!(tile.offset(), 2);
    assert_eq!(decode(&mut tile, 1).unwrap(), vec![5]);
    assert_eq!(tile.offset(), 3);
    assert_eq!(tile.try_get_u32_varint(), Err(VarintFailure::BufferUnderflow));
    assert_eq!(varint_error(VarintFailure::BufferUnderflow), VarintError::Eof);
    assert_eq!(varint_error(VarintFailure::NumericOverflow), VarintError::Overflow);
}

#[test]
fn decode_fast_pfor_short_stream_is_padded_with_zeros() {
    let mut codec = FastPFor128::default();
    let input: Vec<u32> = vec![11, 22];
    let mut encoded: Vec<u32> = Vec::new();
    codec.encode(&input, &mut encoded).unwrap();
    let byte_length = (encoded.len() * 4) as u32;
    let mut tile = TrackedBytes::from_vec(encoded_u32s_to_bytes(&encoded));
    let result = decode_fast_pfor(&mut tile, &metadata(PhysicalLevelTechnique::FastPfor, 4, byte_length));
    assert_eq!(result, vec![11, 22, 0, 0]);
    assert_eq!(tile.offset(), byte_length as usize);
}
