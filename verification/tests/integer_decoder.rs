use fastpfor::{AnyLenCodec, FastPFor128};
use mlt::decoder::integer_decoder::{decode_fast_pfor, decode_int_array, decode_int_stream};
use mlt::decoder::tracked_bytes::TrackedBytes;
use mlt::encoder::helpers::encoded_u32s_to_bytes;
use mlt::metadata::stream::StreamMetadata;
use mlt::metadata::stream_encoding::{
    Logical, LogicalLevelTechnique, LogicalStreamType, Physical, PhysicalLevelTechnique,
    PhysicalStreamType,
};

fn metadata(technique: PhysicalLevelTechnique, num_values: u32, byte_length: u32) -> StreamMetadata {
    StreamMetadata {
        logical: Logical::new(
            Some(LogicalStreamType::Dictionary(None)),
            LogicalLevelTechnique::Plain,
            LogicalLevelTechnique::Plain,
        ),
        physical: Physical::new(PhysicalStreamType::Present, technique),
        num_values,
        byte_length,
        morton: None,
        rle: None,
    }
}

#[test]
fn test_decode_fast_pfor_empty() {
    assert_eq!(vec![1], vec![1]);
}

#[test]
fn test_decode_fast_pfor_non_empty_placeholder() {
    // Encode a sample input using the FastPFor128 codec
    let mut codec = FastPFor128::default();
    let input: Vec<u32> = vec![5, 10, 15, 20, 25, 30, 35];
    let mut encoded: Vec<u32> = Vec::new();
    codec.encode(&input, &mut encoded).unwrap();
    let byte_length = (encoded.len() * std::mem::size_of::<u32>()) as u32;
    let num_values = input.len() as u32;

    // Prepare the tile as a TrackedBytes instance
    let encoded_bytes: Vec<u8> = encoded_u32s_to_bytes(&encoded);
    let mut tile: TrackedBytes = encoded_bytes.into();

    let stream_metadata = StreamMetadata {
        logical: Logical::new(
            Some(LogicalStreamType::Dictionary(None)),
            LogicalLevelTechnique::Plain,
            LogicalLevelTechnique::Plain,
        ),
        physical: Physical::new(PhysicalStreamType::Present, PhysicalLevelTechnique::FastPfor),
        num_values,
        byte_length,
        morton: None,
        rle: None,
    };
    let result = decode_fast_pfor(&mut tile, &stream_metadata);
    assert_eq!(input, result);
    assert_eq!(tile.offset(), byte_length as usize);
}

#[test]
fn integer_decoder_fast_pfor_stream() {
    let mut codec = FastPFor128::default();
    let input: Vec<u32> = vec![7, 0x8000_0000, 9];
    let mut encoded: Vec<u32> = Vec::new();
    codec.encode(&input, &mut encoded).unwrap();
    let byte_length = (encoded.len() * 4) as u32;
    let mut tile = TrackedBytes::from_vec(encoded_u32s_to_bytes(&encoded));
    let result = decode_int_stream(&mut tile, &metadata(PhysicalLevelTechnique::FastPfor, 3, byte_length), true);
    assert_eq!(result, vec![7, i32::MIN, 9]);
    assert_eq!(tile.offset(), byte_length as usize);
}

#[test]
fn integer_decoder_varint_stream() {
    let mut tile = TrackedBytes::from_vec(vec![0x01, 0xac, 0x02, 0x09]);
    let result = decode_int_stream(&mut tile, &metadata(PhysicalLevelTechnique::Varint, 2, 3), false);
    assert_eq!(result, vec![1, 300]);
    assert_eq!(tile.offset(), 3);
}

#[test]
fn integer_decoder_other_techniques_yield_nothing() {
    let mut tile = TrackedBytes::from_vec(vec![1, 2, 3, 4]);
    let result = decode_int_stream(&mut tile, &metadata(PhysicalLevelTechnique::Alp, 1, 4), false);
    assert!(result.is_empty());
    assert_eq!(tile.offset(), 0);
    assert!(decode_int_array().is_empty());
}

#[test]
fn integer_decoder_varint_failure_reads_to_the_failing_byte() {
    // The second varint runs past the end of the buffer: every byte is read.
    let mut tile = TrackedBytes::from_vec(vec![0x05, 0x80, 0x80]);
    let result = decode_int_stream(&mut tile, &metadata(PhysicalLevelTechnique::Varint, 2, 3), false);
    assert!(result.is_empty());
    assert_eq!(tile.offset(), 3);
    // An overflow stops at the fifth byte.
    let mut tile = TrackedBytes::from_vec(vec![0xff, 0xff, 0xff, 0xff, 0x10, 0x01]);
    let result = decode_int_stream(&mut tile, &metadata(PhysicalLevelTechnique::Varint, 1, 6), false);
    assert!(result.is_empty());
    assert_eq!(tile.offset(), 5);
}
