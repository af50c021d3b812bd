use pngchunk::{Chunk, ChunkType, ErrorKind};

const MESSAGE: &str = "This is where your secret message will be!";

fn chunk_bytes(data_length: u32, chunk_type: &[u8], message_bytes: &[u8], crc: u32) -> Vec<u8> {
    data_length
        .to_be_bytes()
        .iter()
        .chain(chunk_type.iter())
        .chain(message_bytes.iter())
        .chain(crc.to_be_bytes().iter())
        .copied()
        .collect()
}

fn testing_chunk() -> Chunk {
    let chunk_data = chunk_bytes(42, "RuSt".as_bytes(), MESSAGE.as_bytes(), 2882656334);
    Chunk::try_from(chunk_data.as_ref()).unwrap()
}

#[test]
fn test_new_chunk() {
    let chunk_type = ChunkType::from_str("RuSt").unwrap();
    let data = "This is where your secret message will be!".as_bytes().to_vec();
    let chunk = Chunk::new(chunk_type, data);
    assert_eq!(chunk.length(), 42);
    assert_eq!(chunk.crc(), 2882656334);
}

#[test]
fn test_chunk_length() {
    let chunk = testing_chunk();
    assert_eq!(chunk.length(), 42);
}

#[test]
fn test_chunk_type() {
    let chunk = testing_chunk();
    assert_eq!(chunk.chunk_type().to_string(), String::from("RuSt"));
}

#[test]
fn test_chunk_string() {
    let chunk = testing_chunk();
    let chunk_string = chunk.data_as_string().unwrap();
    let expected_chunk_string = String::from("This is where your secret message will be!");
    assert_eq!(chunk_string, expected_chunk_string);
}

#[test]
fn test_chunk_crc() {
    let chunk = testing_chunk();
    assert_eq!(chunk.crc(), 2882656334);
}

#[test]
fn test_valid_chunk_from_bytes() {
    let chunk_data = chunk_bytes(42, "RuSt".as_bytes(), MESSAGE.as_bytes(), 2882656334);
    let chunk = Chunk::try_from(chunk_data.as_ref()).unwrap();

    let chunk_string = chunk.data_as_string().unwrap();
    let expected_chunk_string = String::from("This is where your secret message will be!");

    assert_eq!(chunk.length(), 42);
    assert_eq!(chunk.chunk_type().to_string(), String::from("RuSt"));
    assert_eq!(chunk_string, expected_chunk_string);
    assert_eq!(chunk.crc(), 2882656334);
}

#[test]
fn test_invalid_chunk_from_bytes() {
    let chunk_data = chunk_bytes(42, "RuSt".as_bytes(), MESSAGE.as_bytes(), 2882656333);
    let chunk = Chunk::try_from(chunk_data.as_ref());
    assert!(chunk.is_err());
}

#[test]
fn test_chunk_trait_impls() {
    let chunk_data = chunk_bytes(42, "RuSt".as_bytes(), MESSAGE.as_bytes(), 2882656334);
    let chunk: Chunk = TryFrom::try_from(chunk_data.as_ref()).unwrap();
    let _chunk_string = chunk.to_string();
}

#[test]
fn summary_shows_length_type_and_checksum() {
    let chunk = testing_chunk();
    assert_eq!(chunk.to_string(), "Chunk {Length: 42, Type: RuSt, Crc: 2882656334}\n");
    let empty = Chunk::new(ChunkType::from_str("IEND").unwrap(), vec![]);
    assert_eq!(empty.to_string(), "Chunk {Length: 0, Type: IEND, Crc: 2923585666}\n");
}

#[test]
fn invalid_crc_is_a_checksum_mismatch() {
    let chunk_data = chunk_bytes(42, "RuSt".as_bytes(), MESSAGE.as_bytes(), 2882656333);
    let err = Chunk::try_from(chunk_data.as_ref()).unwrap_err();
    assert_eq!(err.kind, ErrorKind::ChecksumMismatch);
}

#[test]
fn encode_gives_the_wire_layout() {
    let chunk = Chunk::new(ChunkType::from_str("RuSt").unwrap(), MESSAGE.as_bytes().to_vec());
    let expected = chunk_bytes(42, "RuSt".as_bytes(), MESSAGE.as_bytes(), 2882656334);
    let bytes = chunk.as_bytes();
    assert_eq!(bytes.len(), 12 + 42);
    assert_eq!(bytes, expected);
}

#[test]
fn round_trip_keeps_type_and_payload() {
    let payloads: Vec<Vec<u8>> = vec![vec![], vec![0], vec![255, 0, 7, 128, 3], MESSAGE.as_bytes().to_vec()];
    for payload in payloads {
        let chunk = Chunk::new(ChunkType::from_str("ruSt").unwrap(), payload.clone());
        let decoded = Chunk::try_from(chunk.as_bytes().as_slice()).unwrap();
        assert_eq!(decoded.chunk_type(), chunk.chunk_type());
        assert_eq!(decoded.data(), payload.as_slice());
        assert_eq!(decoded.crc(), chunk.crc());
    }
}

#[test]
fn empty_payload_encodes_to_twelve_bytes() {
    let chunk = Chunk::new(ChunkType::from_str("IEND").unwrap(), vec![]);
    assert_eq!(chunk.length(), 0);
    assert_eq!(chunk.as_bytes(), vec![0, 0, 0, 0, 73, 69, 78, 68, 0xae, 0x42, 0x60, 0x82]);
}

#[test]
fn checksum_is_deterministic_and_sees_each_byte() {
    let a = Chunk::new(ChunkType::from_str("RuSt").unwrap(), MESSAGE.as_bytes().to_vec());
    let b = Chunk::new(ChunkType::from_str("RuSt").unwrap(), MESSAGE.as_bytes().to_vec());
    assert_eq!(a.crc(), b.crc());
    let mut changed = MESSAGE.as_bytes().to_vec();
    changed[0] = b't';
    let c = Chunk::new(ChunkType::from_str("RuSt").unwrap(), changed);
    assert_ne!(a.crc(), c.crc());
    let d = Chunk::new(ChunkType::from_str("RuSu").unwrap(), MESSAGE.as_bytes().to_vec());
    assert_ne!(a.crc(), d.crc());
}

#[test]
fn short_buffer_is_incomplete() {
    for n in 0..12usize {
        let buf = vec![0u8; n];
        assert_eq!(Chunk::try_from(buf.as_slice()).unwrap_err().kind, ErrorKind::Incomplete);
    }
}

#[test]
fn length_field_must_match_buffer_size() {
    let mut too_long = chunk_bytes(42, "RuSt".as_bytes(), MESSAGE.as_bytes(), 2882656334);
    too_long.push(0);
    assert_eq!(Chunk::try_from(too_long.as_slice()).unwrap_err().kind, ErrorKind::InvalidLength);
    let declared_longer = chunk_bytes(43, "RuSt".as_bytes(), MESSAGE.as_bytes(), 2882656334);
    assert_eq!(
        Chunk::try_from(declared_longer.as_slice()).unwrap_err().kind,
        ErrorKind::InvalidLength
    );
}

#[test]
fn bad_type_byte_in_buffer_is_reported() {
    let buf = chunk_bytes(0, &[82, 117, 49, 116], &[], 0);
    assert_eq!(
        Chunk::try_from(buf.as_slice()).unwrap_err().kind,
        ErrorKind::TypeByteOutOfRange(2)
    );
}

#[test]
fn parse_fields_splits_without_checking_crc() {
    let buf = chunk_bytes(3, "abcd".as_bytes(), &[9, 8, 7], 0x01020304);
    let (t, d, c) = Chunk::parse_fields(buf.as_slice()).unwrap();
    assert_eq!(t.bytes(), *b"abcd");
    assert_eq!(d, vec![9, 8, 7]);
    assert_eq!(c, 0x01020304);
}

#[test]
fn non_utf8_payload_is_rejected() {
    let chunk = Chunk::new(ChunkType::from_str("RuSt").unwrap(), vec![0xff, 0xfe]);
    assert_eq!(chunk.data_as_string().unwrap_err().kind, ErrorKind::InvalidUtf8);
}
