use glk_rs::entry::{Glk, TitleCaseStyle};
use glk_rs::gestalt::{Gestalt, GestaltResult, OutputType};
use glk_rs::keycode::Keycode;

#[test]
fn can_get_glk_version() {
    let glk = Glk::new();
    assert_eq!(
        GestaltResult::Version(0x00000705),
        glk.gestalt(Gestalt::Version)
    );
}

#[test]
fn mod_can_get_glk_version() {
    let glk = Glk::new();
    assert_eq!(
        GestaltResult::Version(0x00000705),
        glk.gestalt(Gestalt::Version)
    );
}

#[test]
fn can_convert_char_to_keycode() {
    assert_eq!(Keycode::Basic('c'), 'c'.into());
}

#[test]
fn can_convert_return_and_enter_keys() {
    assert_eq!(Keycode::Return, '\r'.into());
    assert_eq!(Keycode::Return, '\n'.into());
}

#[test]
fn can_handle_characters() {
    let glk = Glk::new();
    assert_eq!(
        GestaltResult::CanAccept(true),
        glk.gestalt(Gestalt::CharInput(Keycode::Basic('a')))
    );
}

#[test]
fn can_handle_return_key() {
    let glk = Glk::new();
    assert_eq!(
        GestaltResult::CanAccept(true),
        glk.gestalt(Gestalt::CharInput(Keycode::Return))
    );
}

#[test]
fn can_output_normal_characters() {
    let glk = Glk::new();
    assert_eq!(
        GestaltResult::CharOutput(OutputType::ExactPrint),
        glk.gestalt(Gestalt::CharOutput(Keycode::Basic('f')))
    );
}

#[test]
fn cannot_print_invalid_characters() {
    let glk = Glk::new();
    assert_eq!(
        GestaltResult::CharOutput(OutputType::CannotPrint(1)),
        glk.gestalt(Gestalt::CharOutput(Keycode::Basic('\t')))
    );
}

#[test]
fn can_convert_to_uppercase() {
    let glk = Glk::new();
    assert_eq!('A', glk.char_to_upper('a'));
}

#[test]
fn can_convert_to_lowercase() {
    let glk = Glk::new();
    assert_eq!('a', glk.char_to_lower('A'));
}

#[test]
fn can_do_non_english_chars() {
    let glk = Glk::new();
    assert_eq!('ü', glk.char_to_lower('Ü'));
}

#[test]
fn convert_string_to_uppercase() {
    let glk = Glk::new();
    assert_eq!("ABCDEF".to_string(), glk.buffer_to_upper_case_uni("AbcDef"));
}

#[test]
fn convert_string_to_lowercase() {
    let glk = Glk::new();
    assert_eq!("abcdef".to_string(), glk.buffer_to_lower_case_uni("AbcDef"));
}

#[test]
fn convert_string_to_title_case() {
    let glk = Glk::new();
    assert_eq!(
        "AbcDef",
        glk.buffer_to_title_case_uni("abcDef", TitleCaseStyle::UppercaseFirst)
    );
}

#[test]
fn convert_string_to_title_case_with_lowercase() {
    let glk = Glk::new();
    assert_eq!(
        "Abcdef",
        glk.buffer_to_title_case_uni("abcDef", TitleCaseStyle::LowercaseRest)
    );
}

#[test]
fn conversion_of_title_case_handles_empty_string() {
    let glk = Glk::new();
    assert_eq!(
        "",
        glk.buffer_to_title_case_uni("", TitleCaseStyle::LowercaseRest)
    );
}

#[test]
fn decomposition_splits_accents_apart() {
    assert_eq!("e\u{0301}", Glk::buffer_canon_decompose_uni("\u{00e9}"));
}

#[test]
fn normalization_reunites_accents() {
    assert_eq!("\u{00e9}", Glk::buffer_canon_normalize_uni("e\u{0301}"));
}

#[test]
fn char_conversions_accept_latin1_bytes() {
    let glk = Glk::new();
    assert_eq!('A', glk.char_to_upper(b'a'));
}
