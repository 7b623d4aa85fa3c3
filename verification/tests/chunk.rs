use zarrs_n5::chunk::{N5ChunkHeader, N5ChunkMode};
use zarrs_n5::error::{Error, FormatError};

fn header(mode: u16, shape: &[u32]) -> Vec<u8> {
    let mut bytes = Vec::new();
    bytes.extend_from_slice(&mode.to_be_bytes());
    bytes.extend_from_slice(&(shape.len() as u16).to_be_bytes());
    for dim in shape {
        bytes.extend_from_slice(&dim.to_be_bytes());
    }
    bytes
}

#[test]
fn default_header_is_parsed() {
    let mut bytes = header(0, &[3, 0x0102_0304, 5]);
    bytes.extend_from_slice(&[9, 9]);
    let parsed = N5ChunkHeader::from_bytes(&bytes).unwrap();
    assert_eq!(parsed.mode(), N5ChunkMode::Default);
    assert_eq!(parsed.shape(), &vec![3, 0x0102_0304, 5]);
    assert_eq!(parsed.data_offset(), 16);
}

#[test]
fn data_offset_of_default_mode_is_4_plus_4n() {
    for n in 0..6usize {
        let shape = vec![7u32; n];
        let parsed = N5ChunkHeader::from_bytes(&header(0, &shape)).unwrap();
        assert_eq!(parsed.data_offset(), 4 + 4 * n);
        let parsed = N5ChunkHeader::from_bytes(&header(2, &shape)).unwrap();
        assert_eq!(parsed.mode(), N5ChunkMode::Object);
        assert_eq!(parsed.data_offset(), 4 + 4 * n);
    }
}

#[test]
fn data_offset_of_var_length_mode_is_8_plus_4n() {
    for n in 0..6usize {
        let shape = vec![7u32; n];
        let mut bytes = header(1, &shape);
        bytes.extend_from_slice(&0x0001_0002u32.to_be_bytes());
        let parsed = N5ChunkHeader::from_bytes(&bytes).unwrap();
        assert_eq!(parsed.mode(), N5ChunkMode::VarLen { num_el: 0x0001_0002 });
        assert_eq!(parsed.shape(), &shape);
        assert_eq!(parsed.data_offset(), 8 + 4 * n);
    }
}

#[test]
fn empty_shape_is_a_header() {
    let parsed = N5ChunkHeader::from_bytes(&[0, 0, 0, 0]).unwrap();
    assert_eq!(parsed.mode(), N5ChunkMode::Default);
    assert!(parsed.shape().is_empty());
    assert_eq!(parsed.data_offset(), 4);
}

#[test]
fn short_buffers_are_truncated() {
    let truncated = |bytes: &[u8]| match N5ChunkHeader::from_bytes(bytes) {
        Err(Error::Format(FormatError::Truncated { needed, available })) => (needed, available),
        other => panic!("expected a truncated header, got {other:?}"),
    };
    assert_eq!(truncated(&[]), (2, 0));
    assert_eq!(truncated(&[0]), (2, 1));
    assert_eq!(truncated(&[0, 0, 0]), (4, 3));
    assert_eq!(truncated(&header(0, &[1, 2])[..11]), (12, 11));
    // The element count of a variable-length block is part of the header.
    assert_eq!(truncated(&header(1, &[1, 2])), (16, 12));
    // Truncation is found before the mode is judged.
    assert_eq!(truncated(&header(7, &[1, 2])[..6]), (12, 6));
}

#[test]
fn unknown_mode_is_invalid() {
    for mode in [3u16, 4, 255, 256, 0xFFFF] {
        assert!(matches!(
            N5ChunkHeader::from_bytes(&header(mode, &[1])),
            Err(Error::Format(FormatError::InvalidMode(found))) if found == mode
        ));
    }
}

#[test]
fn clone_keeps_the_header() {
    let parsed = N5ChunkHeader::from_bytes(&header(0, &[4, 3])).unwrap();
    let copy = parsed.clone();
    assert_eq!(copy.mode(), parsed.mode());
    assert_eq!(copy.shape(), parsed.shape());
}
