use glk_rs::entry::Glk;
use glk_rs::events::GlkEvent;
use glk_rs::stream::GlkError;
use glk_rs::GlkFileMode;
use glk_rs::windows::{GlkWindowType, WindowSplitAmount, WindowSplitMethod, WindowSplitPosition};

#[test]
fn split_above_write_close_restores_sibling() {
    let mut glk = Glk::new();
    let root = glk.window_open(None, GlkWindowType::TextBuffer, None, 73).unwrap();
    let grid = glk
        .window_open(
            Some(root),
            GlkWindowType::TextGrid,
            Some(WindowSplitMethod {
                position: WindowSplitPosition::Above,
                amount: WindowSplitAmount::Proportional(40),
                border: false,
            }),
            84,
        )
        .unwrap();

    let root_stream = glk.window_get_stream(root).unwrap();
    let grid_stream = glk.window_get_stream(grid).unwrap();
    glk.put_string_stream(root_stream, "A").unwrap();
    glk.put_string_stream(grid_stream, "B").unwrap();

    assert_eq!(glk.window_get_sibling(root), Some(grid));
    glk.window_close(grid).unwrap();
    assert_eq!(glk.window_get_sibling(root), None);
    assert_eq!(glk.window_get_parent(root), None);

    let stats = glk.window_close(root).unwrap();
    assert_eq!(stats.write_count, 1);
    assert_eq!(stats.read_count, 0);
}

#[test]
fn echo_target_counts_every_written_byte() {
    let mut glk = Glk::new();
    let win = glk.window_open(None, GlkWindowType::TextBuffer, None, 73).unwrap();
    assert!(glk.window_get_echo_stream(win).is_none());
    let win_stream = glk.window_get_stream(win).unwrap();
    let mem_stream = glk.stream_open_memory(vec![0u8; 20], GlkFileMode::Write, 74);

    glk.window_set_echo_stream(win, Some(mem_stream));
    assert_eq!(glk.window_get_echo_stream(win), Some(mem_stream));

    let bytes = "hello, world!".chars().map(|ch| ch as u8).collect::<Vec<_>>();
    glk.put_buffer_stream(win_stream, bytes.as_slice()).unwrap();

    let (result, data) = glk.stream_close(mem_stream).unwrap();
    assert_eq!(result.read_count, 0);
    assert_eq!(result.write_count, 13);
    let data = data.unwrap();
    assert_eq!(&data[0..13], bytes.as_slice());

    // closing the echo target detached it from the window
    assert!(glk.window_get_echo_stream(win).is_none());
    glk.put_char_stream(win_stream, b'!').unwrap();
    let stats = glk.window_close(win).unwrap();
    assert_eq!(stats.write_count, 14);
}

#[test]
fn reading_a_memory_stream_counts_every_byte_once() {
    let mut glk = Glk::new();
    let buf = vec![9u8, 8, 7, 6];
    let stream = glk.stream_open_memory(buf, GlkFileMode::Read, 1);
    for expected in [9u8, 8, 7, 6] {
        assert_eq!(glk.get_char_stream(stream).unwrap(), Some(expected));
    }
    assert_eq!(glk.get_char_stream(stream).unwrap(), None);
    assert_eq!(glk.get_char_stream(stream).unwrap(), None);
    let (result, _) = glk.stream_close(stream).unwrap();
    assert_eq!(result.read_count, 4);
}

#[test]
fn timer_fires_once_at_its_deadline() {
    let mut glk = Glk::new();
    glk.request_timer_events(1000, 5_000);
    assert_eq!(glk.select_poll(5_999), GlkEvent::NoEvent);
    assert_eq!(glk.event_wait_timeout(5_999), Some(1));
    assert_eq!(glk.select(6_000, None), GlkEvent::Timer);
    assert_eq!(glk.select_poll(6_001), GlkEvent::NoEvent);
    assert_eq!(glk.select_poll(7_000), GlkEvent::Timer);
}

#[test]
fn queued_events_outrank_the_timer() {
    let mut glk = Glk::new();
    glk.request_timer_events(10, 0);
    glk.deliver_event(GlkEvent::Redraw { win: 1 });
    glk.deliver_event(GlkEvent::Arrange { win: 2 });
    assert_eq!(glk.select(1_000, None), GlkEvent::Redraw { win: 1 });
    assert_eq!(glk.select_poll(1_000), GlkEvent::Arrange { win: 2 });
    assert_eq!(glk.select_poll(1_000), GlkEvent::Timer);
}

#[test]
fn writes_to_read_only_streams_are_mode_errors() {
    let mut glk = Glk::new();
    let stream = glk.stream_open_memory(vec![1u8, 2, 3], GlkFileMode::Read, 7);
    assert_eq!(glk.put_char_stream(stream, b'x'), Err(GlkError::NotWritable));
    assert_eq!(glk.put_string_stream(stream, "x"), Err(GlkError::NotWritable));
    assert_eq!(glk.put_buffer_stream(stream, &[1]), Err(GlkError::NotWritable));
    assert_eq!(glk.put_char_stream_uni(stream, 'x'), Err(GlkError::NotWritable));
    assert_eq!(glk.put_buffer_stream_uni(stream, &['x']), Err(GlkError::NotWritable));
    // the buffer is untouched
    let (result, data) = glk.stream_close(stream).unwrap();
    assert_eq!(result.write_count, 0);
    assert_eq!(data.unwrap(), vec![1u8, 2, 3]);
}

#[test]
fn reads_from_write_only_streams_are_mode_errors() {
    let mut glk = Glk::new();
    let stream = glk.stream_open_memory(vec![1u8, 2, 3], GlkFileMode::Write, 7);
    assert_eq!(glk.get_char_stream(stream), Err(GlkError::NotReadable));
    assert!(glk.get_buffer_stream(stream, None).is_err());
    assert!(glk.get_line_stream(stream, None).is_err());
    assert_eq!(glk.get_char_stream_uni(stream), Err(GlkError::NotReadable));
    assert!(glk.get_buffer_stream_uni(stream, None).is_err());
    assert!(glk.get_line_stream_uni(stream, None).is_err());
}

#[test]
fn unknown_stream_and_window_ids_are_reported() {
    let mut glk = Glk::new();
    assert_eq!(glk.get_char_stream(42), Err(GlkError::NoSuchStream));
    assert_eq!(glk.put_char_stream(42, b'x'), Err(GlkError::NoSuchStream));
    assert_eq!(glk.request_line_event(9, &[0u8; 4], 0), Err(GlkError::NoSuchWindow));
}

#[test]
fn line_requests_wait_for_the_embedding_program() {
    let mut glk = Glk::new();
    let win = glk.window_open(None, GlkWindowType::TextBuffer, None, 1).unwrap();
    glk.request_line_event(win, &[0u8; 8], 0).unwrap();
    let requests = glk.take_line_requests();
    assert_eq!(requests.len(), 1);
    assert_eq!(requests[0].win, win);
    glk.deliver_event(GlkEvent::LineInput {
        win,
        buf: glk_rs::events::LineInput::Latin1(vec![b'h', b'i']),
    });
    assert_eq!(
        glk.select(0, None),
        GlkEvent::LineInput {
            win,
            buf: glk_rs::events::LineInput::Latin1(vec![b'h', b'i']),
        }
    );
}

#[test]
fn epoch_reads_as_the_first_day_of_1970() {
    let glk = Glk::new();
    let date = glk.time_to_date_utc(&glk_rs::entry::GlkTimeval { sec: 0, microsec: 5 });
    assert_eq!(date.year, 1970);
    assert_eq!(date.month, 1);
    assert_eq!(date.day, 1);
    assert_eq!(date.weekday, 4);
    assert_eq!(date.hour, 0);
    assert_eq!(date.minute, 0);
    assert_eq!(date.second, 0);
    assert_eq!(date.microsec, 5);
}

#[test]
fn temp_filerefs_are_handed_out() {
    let mut glk = Glk::new();
    let fileref = glk.fileref_create_temp(glk_rs::GlkFileUsage::Data, 23);
    assert!(fileref.is_some());
}

#[test]
fn reserved_unicode_file_open_is_refused() {
    let mut glk = Glk::new();
    let fileref = glk
        .fileref_create_by_name(glk_rs::GlkFileUsage::Data, "reserved.txt", 0)
        .unwrap();
    assert!(glk.stream_open_file_uni(fileref, GlkFileMode::Read, 0).is_none());
}

#[test]
fn memory_streams_store_code_points_big_endian() {
    let mut glk = Glk::new();
    let stream = glk.stream_open_memory(vec![0u8; 8], GlkFileMode::ReadWrite, 0);
    glk.put_char_stream_uni(stream, 'A').unwrap();
    glk.put_char_stream_uni(stream, '🌸').unwrap();
    let (result, data) = glk.stream_close(stream).unwrap();
    assert_eq!(result.write_count, 8);
    assert_eq!(data.unwrap(), vec![0, 0, 0, 65, 0, 1, 0xf3, 0x38]);
}

#[test]
fn code_points_survive_their_memory_encoding() {
    let mut glk = Glk::new();
    let stream = glk.stream_open_memory(vec![0u8; 8], GlkFileMode::ReadWrite, 0);
    glk.put_char_stream_uni(stream, 'ß').unwrap();
    glk.put_char_stream_uni(stream, '🌸').unwrap();
    glk.stream_set_position(stream, 0, glk_rs::GlkSeekMode::Start);
    assert_eq!(glk.get_char_stream_uni(stream).unwrap(), Some('ß'));
    assert_eq!(glk.get_char_stream_uni(stream).unwrap(), Some('🌸'));
    assert_eq!(glk.get_char_stream_uni(stream).unwrap(), None);
}

#[test]
fn local_dates_stay_inside_the_calendar() {
    let glk = Glk::new();
    let date = glk.time_to_date_local(&glk_rs::entry::GlkTimeval {
        sec: 86_400 * 400,
        microsec: 0,
    });
    assert!((0..=12).contains(&date.month));
    assert!((0..=31).contains(&date.day));
    assert!((0..=6).contains(&date.weekday));
    assert!((0..=23).contains(&date.hour));
}

#[test]
fn garbage_archives_are_refused() {
    let r = glk_rs::blorb::reader::BlorbReader::new(vec![1, 2, 3, 4, 5, 6, 7, 8, 9, 10]);
    assert!(matches!(r, Err(glk_rs::blorb::error::BlorbError::InvalidFileType)));
}

#[test]
fn short_placeholder_chunks_cannot_convert() {
    let rbc = glk_rs::blorb::stream::RawBlorbChunk {
        usage: None,
        blorb_type: glk_rs::blorb::types::BlorbType::Rect,
        bytes: vec![0, 0, 1],
    };
    assert_eq!(
        Err(glk_rs::blorb::error::BlorbError::ConversionFailed),
        glk_rs::blorb::chunk::BlorbChunk::from_raw(&rbc)
    );
}

#[test]
fn reading_past_the_archive_end_is_reported() {
    let mut stream = glk_rs::blorb::stream::BlorbStream::new(vec![1, 2]);
    assert_eq!(
        Err(glk_rs::blorb::error::BlorbError::EndOfFile),
        stream.read_chunk_size()
    );
}

#[test]
fn writes_to_full_memory_buffers_are_dropped() {
    let mut glk = Glk::new();
    let stream = glk.stream_open_memory(vec![7u8, 7], GlkFileMode::Write, 0);
    glk.put_buffer_stream(stream, &[1, 2, 3, 4, 5]).unwrap();
    let (result, data) = glk.stream_close(stream).unwrap();
    assert_eq!(result.write_count, 2);
    assert_eq!(data.unwrap(), vec![1u8, 2]);
}

#[test]
fn window_streams_only_close_with_their_window() {
    let mut glk = Glk::new();
    let win = glk.window_open(None, GlkWindowType::TextBuffer, None, 1).unwrap();
    let stream = glk.window_get_stream(win).unwrap();
    assert!(glk.stream_close(stream).is_none());
    assert!(glk.window_close(win).is_some());
}

#[test]
fn arrangements_live_on_pair_windows_only() {
    let mut glk = Glk::new();
    let root = glk.window_open(None, GlkWindowType::TextBuffer, None, 1).unwrap();
    assert_eq!(glk.window_get_arrangement(root), (None, None));

    let method = WindowSplitMethod {
        position: WindowSplitPosition::Left,
        amount: WindowSplitAmount::Fixed(10),
        border: true,
    };
    let grid = glk
        .window_open(Some(root), GlkWindowType::TextGrid, Some(method), 2)
        .unwrap();
    let pair = glk.window_get_parent(grid).unwrap();

    // the new window is the key window by default
    let (got, key) = glk.window_get_arrangement(pair);
    assert_eq!(got, Some(method));
    assert_eq!(key, Some(grid));

    // the key window can be moved to the split window
    let method2 = WindowSplitMethod {
        position: WindowSplitPosition::Right,
        amount: WindowSplitAmount::Proportional(25),
        border: false,
    };
    glk.window_set_arrangement(pair, method2, Some(root));
    let (got2, key2) = glk.window_get_arrangement(pair);
    assert_eq!(got2, Some(method2));
    assert_eq!(key2, Some(root));
}

#[test]
fn grid_cursors_move_and_clear() {
    let mut glk = Glk::new();
    let root = glk.window_open(None, GlkWindowType::TextGrid, None, 1).unwrap();
    glk.window_move_cursor(root, 4, 5);
    glk.window_clear(root);
    let size = glk.window_get_size(root).unwrap();
    assert_eq!(size.width, 0);
    assert_eq!(size.height, 0);
}

#[test]
fn overlong_lead_bytes_decode_to_nothing() {
    let mut glk = Glk::new();
    let fileref = glk
        .fileref_create_by_name(glk_rs::GlkFileUsage::Data, "bad_lead.bin", 0)
        .unwrap();
    let stream = glk.stream_open_file(fileref, GlkFileMode::Write, 0).unwrap();
    glk.put_buffer_stream(stream, &[0xf8, 0x80, 0x80, 0x80, b'a']).unwrap();
    glk.stream_close(stream).unwrap();

    let stream = glk.stream_open_file(fileref, GlkFileMode::Read, 0).unwrap();
    // the 11111xxx byte is no UTF-8 lead: it consumes one byte and decodes
    // to nothing; the continuation bytes then fail one by one
    assert_eq!(glk.get_char_stream_uni(stream).unwrap(), None);
    assert_eq!(glk.get_char_stream_uni(stream).unwrap(), None);
    assert_eq!(glk.get_char_stream_uni(stream).unwrap(), None);
    assert_eq!(glk.get_char_stream_uni(stream).unwrap(), None);
    assert_eq!(glk.get_char_stream_uni(stream).unwrap(), Some('a'));
}

#[test]
fn limited_line_reads_return_the_short_tail() {
    let mut glk = Glk::new();
    let fileref = glk
        .fileref_create_by_name(glk_rs::GlkFileUsage::Data, "tail.txt", 0)
        .unwrap();
    let stream = glk.stream_open_file(fileref, GlkFileMode::Write, 0).unwrap();
    glk.put_string_stream(stream, "abc").unwrap();
    glk.stream_close(stream).unwrap();

    let stream = glk.stream_open_file(fileref, GlkFileMode::Read, 0).unwrap();
    // fewer bytes remain than the limit asks for: the tail comes back
    assert_eq!(glk.get_line_stream(stream, Some(10)).unwrap(), vec![b'a', b'b', b'c']);
    assert_eq!(glk.get_line_stream(stream, Some(10)).unwrap(), Vec::<u8>::new());
}

#[test]
fn reading_a_file_that_was_never_stored_is_refused() {
    let mut glk = Glk::new();
    let fileref = glk
        .fileref_create_by_name(glk_rs::GlkFileUsage::Data, "never_written.txt", 0)
        .unwrap();
    assert!(glk.stream_open_file(fileref, GlkFileMode::Read, 0).is_none());
    // the modes that create a file still open it
    assert!(glk.stream_open_file(fileref, GlkFileMode::ReadWrite, 0).is_some());
}

#[test]
fn a_line_can_be_just_its_newline() {
    let mut glk = Glk::new();
    let stream = glk.stream_open_memory(vec![b'\n', b'x'], GlkFileMode::Read, 0);
    assert_eq!(glk.get_line_stream(stream, None).unwrap(), vec![b'\n']);
    assert_eq!(glk.get_line_stream(stream, None).unwrap(), vec![b'x']);
    let (result, _) = glk.stream_close(stream).unwrap();
    assert_eq!(result.read_count, 2);
}
