use glk_rs::entry::Glk;
use glk_rs::{GlkFileMode, GlkFileUsage, GlkSeekMode};

fn bytes_of(s: &str) -> Vec<u8> {
    s.chars().map(|c| c as u8).collect::<Vec<_>>()
}

fn uni_bytes_of(s: &str) -> Vec<u8> {
    let mut buf = Vec::new();
    for ch in s.chars() {
        buf.push((ch as u32 >> 24) as u8);
        buf.push(((ch as u32 >> 16) & 0xff) as u8);
        buf.push(((ch as u32 >> 8) & 0xff) as u8);
        buf.push((ch as u32 & 0xff) as u8);
    }
    buf
}

fn read_byte_body() {
    let mut glk = Glk::new();
    let mem_stream = glk.stream_open_memory(vec![b't'], GlkFileMode::Read, 45);
    assert_eq!(glk.get_char_stream(mem_stream).unwrap(), Some(b't'));
}

#[test]
fn entry_can_read_byte_from_stream() {
    read_byte_body();
}

#[test]
fn glk_stream_can_read_byte_from_stream() {
    read_byte_body();
}

fn read_byte_buffer_body() {
    let mut glk = Glk::new();
    let mem_stream = glk.stream_open_memory(
        vec![b't', b'e', b's', b't', b'i', b'n', b'g'],
        GlkFileMode::Read,
        45,
    );
    assert_eq!(glk.get_buffer_stream(mem_stream, None).unwrap(), bytes_of("testing"));
}

#[test]
fn entry_can_read_byte_buffer_from_stream() {
    read_byte_buffer_body();
}

#[test]
fn glk_stream_can_read_byte_buffer_from_stream() {
    read_byte_buffer_body();
}

fn read_line_of_bytes_body() {
    let mut glk = Glk::new();
    let test_string = "testing line 1\ntesting line 2\ntesting line 3\n";
    let mem_stream = glk.stream_open_memory(bytes_of(test_string), GlkFileMode::Read, 45);
    // the newline ends the line and comes back with it
    assert_eq!(glk.get_line_stream(mem_stream, None).unwrap(), bytes_of("testing line 1\n"));
    assert_eq!(glk.get_line_stream(mem_stream, None).unwrap(), bytes_of("testing line 2\n"));
}

#[test]
fn entry_can_read_a_line_of_bytes_from_a_stream() {
    read_line_of_bytes_body();
}

#[test]
fn glk_stream_can_read_a_line_of_bytes_from_a_stream() {
    read_line_of_bytes_body();
}

fn read_char_body() {
    let mut glk = Glk::new();
    let mem_stream = glk.stream_open_memory(uni_bytes_of("testing"), GlkFileMode::Read, 45);
    assert_eq!(glk.get_char_stream_uni(mem_stream).unwrap(), Some('t'));
}

#[test]
fn entry_can_read_char_from_stream() {
    read_char_body();
}

#[test]
fn glk_stream_can_read_char_from_stream() {
    read_char_body();
}

fn read_char_buffer_body() {
    let mut glk = Glk::new();
    let mem_stream = glk.stream_open_memory(uni_bytes_of("testing"), GlkFileMode::Read, 45);
    let chars = glk.get_buffer_stream_uni(mem_stream, None).unwrap();
    assert_eq!(chars.iter().collect::<String>(), "testing");
}

#[test]
fn entry_can_read_char_buffer_from_stream() {
    read_char_buffer_body();
}

#[test]
fn glk_stream_can_read_char_buffer_from_stream() {
    read_char_buffer_body();
}

fn read_line_of_chars_body() {
    let mut glk = Glk::new();
    let test_string = "testing line 1\ntesting line 2\ntesting line 3\n";
    let mem_stream = glk.stream_open_memory(uni_bytes_of(test_string), GlkFileMode::Read, 45);
    // the newline ends the line and comes back with it
    let line1 = glk.get_line_stream_uni(mem_stream, None).unwrap();
    assert_eq!(line1.iter().collect::<String>(), "testing line 1\n");
    let line2 = glk.get_line_stream_uni(mem_stream, None).unwrap();
    assert_eq!(line2.iter().collect::<String>(), "testing line 2\n");
}

#[test]
fn entry_can_read_a_line_of_chars_from_a_stream() {
    read_line_of_chars_body();
}

#[test]
fn glk_stream_can_read_a_line_of_chars_from_a_stream() {
    read_line_of_chars_body();
}

#[test]
fn can_open_memory_stream() {
    let mut glk = Glk::new();
    let buf = vec![0u8, 1, 2, 3, 4, 5, 6, 7, 8, 9];
    let mem_stream = glk.stream_open_memory(buf, GlkFileMode::Read, 45);
    for i in 0..10 {
        let ch = glk.get_char_stream(mem_stream).unwrap().unwrap();
        assert_eq!(ch, i);
    }
    assert!(glk.get_char_stream(mem_stream).unwrap().is_none());
}

#[test]
fn can_get_stream_position() {
    let mut glk = Glk::new();
    let mem_stream = glk.stream_open_memory(
        vec![b't', b'e', b's', b't', b'i', b'n', b'g'],
        GlkFileMode::Read,
        45,
    );
    assert_eq!(glk.stream_get_position(mem_stream).unwrap(), 0);
    let _ = glk.get_char_stream(mem_stream);
    assert_eq!(glk.stream_get_position(mem_stream).unwrap(), 1);
}

#[test]
fn can_seek_within_memory_stream() {
    let mut glk = Glk::new();
    let mem_stream = glk.stream_open_memory(
        vec![b't', b'e', b's', b't', b'i', b'n', b'g'],
        GlkFileMode::Read,
        45,
    );

    glk.stream_set_position(mem_stream, 4, GlkSeekMode::Start);
    assert_eq!(glk.get_char_stream(mem_stream).unwrap(), Some(b'i'));

    glk.stream_set_position(mem_stream, -4, GlkSeekMode::End);
    assert_eq!(glk.get_char_stream(mem_stream).unwrap(), Some(b't'));

    glk.stream_set_position(mem_stream, -2, GlkSeekMode::Current);
    assert_eq!(glk.get_char_stream(mem_stream).unwrap(), Some(b's'));

    assert!(glk.stream_set_position(mem_stream, -2, GlkSeekMode::Start).is_none());
    assert!(glk.stream_set_position(mem_stream, 2, GlkSeekMode::End).is_none());

    let close = glk.stream_close(mem_stream);
    assert!(close.is_some());
    if let Some((result, bytes)) = close {
        assert_eq!(result.read_count, 3);
        assert_eq!(result.write_count, 0);
        assert_eq!(bytes, Some(vec![b't', b'e', b's', b't', b'i', b'n', b'g']));
    }
}

#[test]
fn can_open_a_file_and_write_to_it() {
    let mut glk = Glk::new();
    let fileref = glk.fileref_create_temp(GlkFileUsage::Data, 23).unwrap();
    let stream = glk.stream_open_file(fileref, GlkFileMode::ReadWrite, 24).unwrap();
    glk.put_string_stream(stream, "This is a test of a temp file").unwrap();
    glk.stream_set_position(stream, 0, GlkSeekMode::Start);
    let result = glk
        .get_line_stream(stream, None)
        .unwrap()
        .iter()
        .map(|x| *x as char)
        .collect::<String>();
    assert_eq!(result, "This is a test of a temp file".to_string());
}

#[test]
fn can_write_to_a_non_temp_file() {
    let mut glk = Glk::new();
    let fileref = glk
        .fileref_create_by_name(GlkFileUsage::Data, "io_file.txt", 23)
        .unwrap();
    let stream = glk.stream_open_file(fileref, GlkFileMode::Write, 24).unwrap();
    glk.put_string_stream(stream, "This is a test of a named file").unwrap();
    let response = glk.stream_close(stream);
    assert!(response.is_some());

    if let Some((result, bytes)) = response {
        assert!(bytes.is_none());
        assert_eq!(result.read_count, 0);
        assert_eq!(result.write_count, 30);
    }

    let stream = glk.stream_open_file(fileref, GlkFileMode::Read, 24).unwrap();
    let result = glk
        .get_line_stream(stream, None)
        .unwrap()
        .iter()
        .map(|x| *x as char)
        .collect::<String>();
    assert_eq!(result, "This is a test of a named file".to_string());

    glk.fileref_delete_file(fileref);
}

#[test]
fn can_append_to_a_file() {
    let mut glk = Glk::new();
    let fileref = glk
        .fileref_create_by_name(GlkFileUsage::Data, "append_file.txt", 23)
        .unwrap();
    let stream = glk.stream_open_file(fileref, GlkFileMode::Write, 24).unwrap();
    glk.put_string_stream(stream, "This is a test of an appended file\n").unwrap();
    glk.stream_close(stream);

    let stream = glk.stream_open_file(fileref, GlkFileMode::WriteAppend, 24).unwrap();
    glk.put_string_stream(stream, "This is the second line of an appended file\n").unwrap();
    glk.stream_close(stream);

    let stream = glk.stream_open_file(fileref, GlkFileMode::Read, 24).unwrap();
    let result = glk
        .get_buffer_stream(stream, None)
        .unwrap()
        .iter()
        .map(|x| *x as char)
        .collect::<String>();
    assert_eq!(
        result,
        "This is a test of an appended file\nThis is the second line of an appended file\n"
            .to_string()
    );

    glk.stream_set_position(stream, 0, GlkSeekMode::Start);
    let result = glk
        .get_buffer_stream(stream, Some(5))
        .unwrap()
        .iter()
        .map(|x| *x as char)
        .collect::<String>();
    assert_eq!(result, "This ");

    glk.fileref_delete_file(fileref);
}

#[test]
fn can_read_multiple_lines_from_a_file() {
    let mut glk = Glk::new();
    let fileref = glk
        .fileref_create_by_name(GlkFileUsage::Data, "multi_line_file.txt", 23)
        .unwrap();
    let stream = glk.stream_open_file(fileref, GlkFileMode::Write, 24).unwrap();

    glk.put_string_stream(stream, "Line 1\n").unwrap();
    glk.put_string_stream(stream, "Line 2\n").unwrap();
    glk.put_string_stream(stream, "Line 3\n").unwrap();
    glk.stream_close(stream);

    let stream = glk.stream_open_file(fileref, GlkFileMode::Read, 24).unwrap();

    let result = glk
        .get_line_stream(stream, None)
        .unwrap()
        .iter()
        .map(|x| *x as char)
        .collect::<String>();
    assert_eq!(result, "Line 1\n");

    // should be able to read a partial line
    let result = glk
        .get_line_stream(stream, Some(3))
        .unwrap()
        .iter()
        .map(|x| *x as char)
        .collect::<String>();
    assert_eq!(result, "Lin");

    // should be able to stop at a newline even if requesting more characters
    let result = glk
        .get_line_stream(stream, Some(10))
        .unwrap()
        .iter()
        .map(|x| *x as char)
        .collect::<String>();
    assert_eq!(result, "e 2\n");

    let result = glk
        .get_line_stream(stream, None)
        .unwrap()
        .iter()
        .map(|x| *x as char)
        .collect::<String>();
    assert_eq!(result, "Line 3\n");

    glk.stream_close(stream);
}

#[test]
fn can_read_and_write_utf8_characters() {
    let mut glk = Glk::new();
    let fileref = glk
        .fileref_create_by_name(GlkFileUsage::Data, "utf8_file.txt", 23)
        .unwrap();
    let stream = glk.stream_open_file(fileref, GlkFileMode::Write, 24).unwrap();

    glk.put_string_stream(stream, "some ascii text...").unwrap();

    // two-byte unicode
    let sset = 'ß';
    glk.put_char_stream_uni(stream, sset).unwrap();

    // three-byte unicode
    let horns = 'ࢠ';
    glk.put_char_stream_uni(stream, horns).unwrap();

    let flower = '🌸';
    glk.put_char_stream_uni(stream, flower).unwrap();

    glk.put_string_stream(stream, "some trailing text?").unwrap();
    glk.stream_close(stream);

    let stream = glk.stream_open_file(fileref, GlkFileMode::Read, 25).unwrap();

    for _ in 0..18 {
        let _ = glk.get_char_stream_uni(stream);
    }

    let input = glk.get_char_stream_uni(stream).unwrap().unwrap();
    assert_eq!(input, sset);

    let input = glk.get_char_stream_uni(stream).unwrap().unwrap();
    assert_eq!(input, horns);

    let input = glk.get_char_stream_uni(stream).unwrap().unwrap();
    assert_eq!(input, flower);
}
