use glk_rs::blorb::chunk::{BlorbChunk, bytes_to_string};
use glk_rs::blorb::error::BlorbError;
use glk_rs::blorb::stream::{BlorbStream, RawBlorbChunk};
use glk_rs::blorb::types::{BlorbType, ResourceType};

fn implements_debug<T: std::fmt::Debug>() {}

#[test]
fn can_read_ifrs() {
    assert_eq!(Ok(BlorbType::Ifrs), BlorbType::from_name("IFRS"));
}

#[test]
fn types_can_read_ifrs() {
    assert_eq!(Ok(BlorbType::Ifrs), BlorbType::from_name("IFRS"));
}

#[test]
fn can_read_ridx() {
    assert_eq!(Ok(BlorbType::Ridx), BlorbType::from_name("RIdx"));
}

#[test]
fn types_can_read_ridx() {
    assert_eq!(Ok(BlorbType::Ridx), BlorbType::from_name("RIdx"));
}

#[test]
fn fails_on_invalid_input() {
    assert!(BlorbType::from_name("asdflkjasdf").is_err());
}

#[test]
fn types_fails_on_invalid_input() {
    assert!(BlorbType::from_name("asdflkjasdf").is_err());
}

#[test]
fn can_read_u8_ifrs() {
    assert_eq!(
        Ok(BlorbType::Ifrs),
        BlorbType::from_tag(&[b'I', b'F', b'R', b'S'][0..4])
    );
}

#[test]
fn can_read_pict_resource_type() {
    assert_eq!(Ok(ResourceType::Pict), ResourceType::from_name("Pict"));
}

#[test]
fn can_convert_rdes() {
    assert_eq!(Ok(BlorbType::Rdes), BlorbType::from_name("RDes"));
}

#[test]
fn can_read_rdes_data() {
    let bytes = [
        0u8, 0, 0, 2, 0x50, 0x69, 0x63, 0x74, 0, 0, 0, 3, 0, 0, 0, 0xd, 0x64, 0x69, 0x6d, 0x20,
        0x6e, 0x6f, 0x72, 0x74, 0x68, 0x77, 0x65, 0x73, 0x74, 0x50, 0x69, 0x63, 0x74, 0, 0, 0,
        4, 0, 0, 0, 0xd, 0x64, 0x69, 0x6d, 0x20, 0x6e, 0x6f, 0x72, 0x74, 0x68, 0x77, 0x65,
        0x73, 0x74,
    ];

    let rbc = RawBlorbChunk {
        usage: None,
        blorb_type: BlorbType::Rdes,
        bytes: bytes.to_vec(),
    };
    let rdes: BlorbChunk = BlorbChunk::from_raw(&rbc).expect("could not convert");
    match rdes {
        BlorbChunk::ResourceDescription(v) => assert_eq!(v.len(), 2),
        _ => panic!("invalid conversion"),
    }
}

#[test]
fn can_interpret_rect_chunk() {
    let bytes = [0u8, 0, 1, 0, 0, 0, 2, 0];
    let rbc = RawBlorbChunk {
        usage: None,
        blorb_type: BlorbType::Rect,
        bytes: bytes.to_vec(),
    };
    let rdes: BlorbChunk = BlorbChunk::from_raw(&rbc).expect("could not convert");
    assert_eq!(BlorbChunk::Placeholder(256, 512), rdes);
}

#[test]
fn chunk_can_generate_debug_output() {
    implements_debug::<RawBlorbChunk>();
}

#[test]
fn read_even_number_of_bytes() {
    let mut stream = BlorbStream::new(vec![0, 0, 0, 0, 0, 0, 0, 0, 0]);
    let _ = stream.get_next_chunk(4);
    assert_eq!(stream.get_offset(), 4);
}

#[test]
fn read_odd_number_of_bytes() {
    let mut stream = BlorbStream::new(vec![0, 0, 0, 0, 0, 0, 0, 0, 0]);
    let _ = stream.get_next_chunk(3);
    assert_eq!(stream.get_offset(), 4);
}

#[test]
fn non_form_types_just_return_the_data() {
    let mut stream = BlorbStream::new(vec![
        0x50, 0x4e, 0x47, 0x20, // the image tag
        0, 0, 0, 8, // chunk length
        0x0a, 0x0b, 0x0c, 0x0d, 1, 2, 3, 4, // payload
    ]);
    let chunk = stream.read_chunk().expect("could not decode chunk");
    assert_eq!(BlorbType::Png, chunk.blorb_type);
    assert_eq!(vec![0x0a, 0x0b, 0x0c, 0x0d, 1, 2, 3, 4], chunk.bytes);
}

#[test]
fn form_types_return_everything() {
    let data = vec![
        0x46, 0x4f, 0x52, 0x4d, // the container tag
        0, 0, 0, 8, // chunk length
        0x49, 0x46, 0x5a, 0x53, // the contained form's tag
        1, 2, 3, 4,
    ];
    let mut stream = BlorbStream::new(data.clone());
    let chunk = stream.read_chunk().expect("Could not decode chunk");
    assert_eq!(BlorbType::Form, chunk.blorb_type);
    assert_eq!(data, chunk.bytes);
}

#[test]
fn author_chunks_decode_their_text() {
    let rbc = RawBlorbChunk {
        usage: None,
        blorb_type: BlorbType::Auth,
        bytes: b"A. Writer".to_vec(),
    };
    match BlorbChunk::from_raw(&rbc) {
        Ok(BlorbChunk::Author(s)) => assert_eq!(s, "A. Writer"),
        _ => panic!("expected an author chunk"),
    }
}

#[test]
fn broken_text_is_a_decode_error() {
    assert_eq!(
        bytes_to_string(&[0xff, 0xfe]),
        Err(BlorbError::InvalidUtf8String)
    );
}

#[test]
fn release_number_chunks_read_big_endian() {
    let rbc = RawBlorbChunk {
        usage: None,
        blorb_type: BlorbType::Reln,
        bytes: vec![0x01, 0x2c],
    };
    assert_eq!(Ok(BlorbChunk::ReleaseNumber(300)), BlorbChunk::from_raw(&rbc));
}

#[test]
fn a_whole_archive_finds_its_resources() {
    // a container with one resource index entry naming an executable chunk
    let mut file: Vec<u8> = Vec::new();
    file.extend_from_slice(b"FORM");
    file.extend_from_slice(&[0, 0, 0, 36]);
    file.extend_from_slice(b"IFRS");
    file.extend_from_slice(b"RIdx");
    file.extend_from_slice(&[0, 0, 0, 16]);
    file.extend_from_slice(&[0, 0, 0, 1]); // one entry
    file.extend_from_slice(b"Exec");
    file.extend_from_slice(&[0, 0, 0, 0]); // resource number 0
    file.extend_from_slice(&[0, 0, 0, 36]); // chunk offset
    file.extend_from_slice(b"GLUL");
    file.extend_from_slice(&[0, 0, 0, 4]);
    file.extend_from_slice(&[9, 9, 9, 9]);

    let mut reader = glk_rs::blorb::reader::BlorbReader::new(file).expect("reader");
    let chunk = reader
        .get_resource(ResourceType::Executable, 0)
        .expect("resource");
    assert_eq!(chunk.blorb_type, BlorbType::Glul);
    assert_eq!(chunk.bytes, vec![9, 9, 9, 9]);
    assert_eq!(chunk.usage, Some(ResourceType::Executable));
    assert!(matches!(
        reader.get_resource(ResourceType::Pict, 7),
        Err(BlorbError::NonExistentResource(7))
    ));
}
