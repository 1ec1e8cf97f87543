use glk_rs::entry::Glk;
use glk_rs::windows::{GlkWindowType, WindowSplitAmount, WindowSplitMethod, WindowSplitPosition};

fn above_proportional_40() -> WindowSplitMethod {
    WindowSplitMethod {
        position: WindowSplitPosition::Above,
        amount: WindowSplitAmount::Proportional(40),
        border: false,
    }
}

fn text(glk: &Glk, win: u32) -> String {
    glk.window_get_text(win).unwrap().iter().collect::<String>()
}

#[test]
fn entry_can_create_a_window() {
    let mut glk = Glk::new();
    let win = glk.window_open(None, GlkWindowType::TextBuffer, None, 73);
    assert!(win.is_some());
}

#[test]
fn glk_win_can_create_a_window() {
    let mut glk = Glk::new();
    let win = glk.window_open(None, GlkWindowType::TextBuffer, None, 73);
    assert!(win.is_some());
}

#[test]
fn opening_a_second_top_window_is_refused() {
    let mut glk = Glk::new();
    glk.window_open(None, GlkWindowType::TextBuffer, None, 73);
    assert!(glk.window_open(None, GlkWindowType::TextBuffer, None, 73).is_none());
}

#[test]
fn entry_can_create_a_split_window() {
    let mut glk = Glk::new();
    let win = glk.window_open(None, GlkWindowType::TextBuffer, None, 73).unwrap();
    let win2 = glk.window_open(Some(win), GlkWindowType::TextGrid, Some(above_proportional_40()), 84);
    assert!(win2.is_some());
}

#[test]
fn glk_win_can_create_a_split_window() {
    let mut glk = Glk::new();
    let win = glk.window_open(None, GlkWindowType::TextBuffer, None, 73).unwrap();
    let win2 = glk.window_open(Some(win), GlkWindowType::TextGrid, Some(above_proportional_40()), 84);
    assert!(win2.is_some());
}

#[test]
fn entry_can_retrieve_window_information() {
    let mut glk = Glk::new();
    let win = glk.window_open(None, GlkWindowType::TextBuffer, None, 73).unwrap();
    assert_eq!(glk.window_get_rock(win).unwrap(), 73);
    assert_eq!(glk.window_get_type(win).unwrap(), GlkWindowType::TextBuffer);
}

#[test]
fn glk_win_can_retrieve_window_information() {
    let mut glk = Glk::new();
    let win = glk.window_open(None, GlkWindowType::TextBuffer, None, 73).unwrap();
    assert_eq!(glk.window_get_rock(win).unwrap(), 73);
    assert_eq!(glk.window_get_type(win).unwrap(), GlkWindowType::TextBuffer);
}

fn iterate_windows_body() {
    let mut glk = Glk::new();
    let win1 = glk.window_open(None, GlkWindowType::TextBuffer, None, 73).unwrap();
    let win2 = glk
        .window_open(Some(win1), GlkWindowType::TextGrid, Some(above_proportional_40()), 84)
        .unwrap();
    let win3 = glk
        .window_open(
            Some(win2),
            GlkWindowType::TextGrid,
            Some(WindowSplitMethod {
                position: WindowSplitPosition::Below,
                amount: WindowSplitAmount::Fixed(3),
                border: false,
            }),
            95,
        )
        .unwrap();

    let mut found = [false, false, false, false, false];
    let i = glk.window_iterate();
    let mut count = 0;
    let mut found_pair = None;
    for win in i {
        count += 1;
        if win == win1 {
            found[2] = true;
        } else if win == win2 {
            found[3] = true;
        } else if win == win3 {
            found[4] = true;
        } else if found_pair.is_none() {
            found_pair = Some(win);
            found[0] = true;
        } else if let Some(f) = found_pair {
            if f != win {
                found[1] = true;
            }
        }
    }
    assert_eq!(count, 5);
    assert_eq!([true, true, true, true, true], found);
}

#[test]
fn entry_can_iterate_windows() {
    iterate_windows_body();
}

#[test]
fn glk_win_can_iterate_windows() {
    iterate_windows_body();
}

fn parent_of_window_body() {
    let mut glk = Glk::new();
    let win1 = glk.window_open(None, GlkWindowType::TextBuffer, None, 73).unwrap();
    assert!(glk.window_get_parent(win1).is_none());
    let win2 = glk
        .window_open(Some(win1), GlkWindowType::TextGrid, Some(above_proportional_40()), 84)
        .unwrap();
    let parent1 = glk.window_get_parent(win2).unwrap();
    assert_eq!(glk.window_get_type(parent1).unwrap(), GlkWindowType::Pair);
}

#[test]
fn entry_can_get_parent_of_window() {
    parent_of_window_body();
}

#[test]
fn glk_win_can_get_parent_of_window() {
    parent_of_window_body();
}

fn sibling_of_window_body() {
    let mut glk = Glk::new();
    let win1 = glk.window_open(None, GlkWindowType::TextBuffer, None, 73).unwrap();
    assert!(glk.window_get_sibling(win1).is_none());
    let win2 = glk
        .window_open(Some(win1), GlkWindowType::TextGrid, Some(above_proportional_40()), 84)
        .unwrap();
    let sibling = glk.window_get_sibling(win2).unwrap();
    assert_eq!(sibling, win1);
}

#[test]
fn entry_can_get_sibling_of_window() {
    sibling_of_window_body();
}

#[test]
fn glk_win_can_get_sibling_of_window() {
    sibling_of_window_body();
}

fn root_window_body() {
    let mut glk = Glk::new();
    assert!(glk.window_get_root().is_none());
    let win1 = glk.window_open(None, GlkWindowType::TextBuffer, None, 73).unwrap();
    assert_eq!(glk.window_get_root().unwrap(), win1);
}

#[test]
fn entry_can_get_root_window() {
    root_window_body();
}

#[test]
fn glk_win_can_get_root_window() {
    root_window_body();
}

fn put_byte_body() {
    let mut glk = Glk::new();
    let win = glk.window_open(None, GlkWindowType::TextBuffer, None, 73).unwrap();
    let stream = glk.window_get_stream(win).unwrap();
    glk.put_char_stream(stream, b'x').unwrap();
    assert_eq!(text(&glk, win), "x");
}

#[test]
fn entry_can_put_byte_style_char_into_window() {
    put_byte_body();
}

#[test]
fn glk_win_can_put_byte_style_char_into_window() {
    put_byte_body();
}

fn two_windows_body() {
    let mut glk = Glk::new();
    let win1 = glk.window_open(None, GlkWindowType::TextBuffer, None, 73).unwrap();
    assert!(glk.window_get_parent(win1).is_none());
    let win2 = glk
        .window_open(Some(win1), GlkWindowType::TextGrid, Some(above_proportional_40()), 84)
        .unwrap();

    let stream1 = glk.window_get_stream(win1).unwrap();
    let stream2 = glk.window_get_stream(win2).unwrap();

    glk.put_char_stream(stream1, b'A').unwrap();
    glk.put_char_stream(stream2, b'B').unwrap();

    assert_eq!(text(&glk, win1), "A");
    assert_eq!(text(&glk, win2), "B");
}

#[test]
fn entry_can_write_to_two_different_windows() {
    two_windows_body();
}

#[test]
fn glk_win_can_write_to_two_different_windows() {
    two_windows_body();
}

fn put_string_body() {
    let mut glk = Glk::new();
    let win = glk.window_open(None, GlkWindowType::TextBuffer, None, 73).unwrap();
    let stream = glk.window_get_stream(win).unwrap();
    glk.put_string_stream(stream, "hello, world!").unwrap();
    assert_eq!(text(&glk, win), "hello, world!");
}

#[test]
fn entry_can_put_string_into_window() {
    put_string_body();
}

#[test]
fn glk_win_can_put_string_into_window() {
    put_string_body();
}

fn put_buffer_body() {
    let mut glk = Glk::new();
    let win = glk.window_open(None, GlkWindowType::TextBuffer, None, 73).unwrap();
    let stream = glk.window_get_stream(win).unwrap();
    glk.put_buffer_stream(stream, &[b'0', b'1', b'2', b'3']).unwrap();
    assert_eq!(text(&glk, win), "0123");
}

#[test]
fn entry_can_put_buffer_into_window() {
    put_buffer_body();
}

#[test]
fn glk_win_can_put_buffer_into_window() {
    put_buffer_body();
}

fn put_unicode_char_body() {
    let mut glk = Glk::new();
    let win = glk.window_open(None, GlkWindowType::TextBuffer, None, 73).unwrap();
    let stream = glk.window_get_stream(win).unwrap();
    glk.put_char_stream_uni(stream, 'q').unwrap();
    assert_eq!(text(&glk, win), "q");
}

#[test]
fn entry_can_put_unicode_char_into_window() {
    put_unicode_char_body();
}

#[test]
fn glk_win_can_put_unicode_char_into_window() {
    put_unicode_char_body();
}

fn put_unicode_buf_body() {
    let mut glk = Glk::new();
    let win = glk.window_open(None, GlkWindowType::TextBuffer, None, 73).unwrap();
    let stream = glk.window_get_stream(win).unwrap();
    glk.put_buffer_stream_uni(stream, &['q', 'r', 's', 't', 'u', 'v']).unwrap();
    assert_eq!(text(&glk, win), "qrstuv");
}

#[test]
fn entry_can_put_unicode_buf_into_window() {
    put_unicode_buf_body();
}

#[test]
fn glk_win_can_put_unicode_buf_into_window() {
    put_unicode_buf_body();
}

fn default_stream_body() {
    let mut glk = Glk::new();
    let win1 = glk.window_open(None, GlkWindowType::TextBuffer, None, 73).unwrap();
    let win2 = glk
        .window_open(Some(win1), GlkWindowType::TextGrid, Some(above_proportional_40()), 84)
        .unwrap();

    let stream1 = glk.window_get_stream(win1).unwrap();
    let stream2 = glk.window_get_stream(win2).unwrap();

    glk.stream_set_current(stream1);
    glk.put_char(b'A').unwrap();
    glk.put_string("bove").unwrap();
    glk.put_buffer(&[b' ', b't', b'h', b'e']).unwrap();
    glk.put_char_uni(' ').unwrap();
    glk.put_buffer_uni(&['s', 'k', 'y']).unwrap();

    glk.stream_set_current(stream2);
    glk.put_char(b'B').unwrap();
    glk.put_string("elow").unwrap();
    glk.put_buffer(&[b' ', b'g', b'r', b'o', b'u', b'n', b'd']).unwrap();
    glk.put_char_uni('.').unwrap();
    glk.put_buffer_uni(&[' ', 'L', 'o', 'o', 'k', '!']).unwrap();

    assert_eq!(text(&glk, win1), "Above the sky");
    assert_eq!(text(&glk, win2), "Below ground. Look!");
}

#[test]
fn entry_can_write_to_default_stream() {
    default_stream_body();
}

#[test]
fn glk_win_can_write_to_default_stream() {
    default_stream_body();
}

fn change_default_stream_body() {
    let mut glk = Glk::new();
    let win = glk.window_open(None, GlkWindowType::TextBuffer, None, 73).unwrap();
    let stream = glk.window_get_stream(win).unwrap();
    glk.stream_set_current(stream);
    assert!(glk.stream_get_current().is_some());
    assert_eq!(glk.stream_get_current(), Some(stream));
}

#[test]
fn entry_can_change_default_stream() {
    change_default_stream_body();
}

#[test]
fn glk_win_can_change_default_stream() {
    change_default_stream_body();
}

fn count_chars_body() {
    let mut glk = Glk::new();
    let win1 = glk.window_open(None, GlkWindowType::TextBuffer, None, 73).unwrap();
    let win2 = glk
        .window_open(Some(win1), GlkWindowType::TextGrid, Some(above_proportional_40()), 84)
        .unwrap();
    let stream2 = glk.window_get_stream(win2).unwrap();

    glk.put_char_stream(stream2, b'0').unwrap();
    let stream_results = glk.window_close(win2).unwrap();
    assert_eq!(stream_results.read_count, 0);
    assert_eq!(stream_results.write_count, 1);
}

#[test]
fn entry_can_count_chars_in_output() {
    count_chars_body();
}

#[test]
fn glk_win_can_count_chars_in_output() {
    count_chars_body();
}

#[test]
fn at_startup_there_is_no_default_stream() {
    let glk = Glk::new();
    assert!(glk.stream_get_current().is_none());
}
