use wordbomb_external::faker_input::keyboard_report::KeyboardKey;
use wordbomb_external::play::{
    click_reports, key_for_char, keystrokes, matching_words, parse_ocr_output, pick_word,
    split_text, word_command, OcrCommand,
};

#[test]
fn split_keeps_empty_pieces() {
    assert_eq!(split_text("a  b", ' '), vec!["a", "", "b"]);
    assert_eq!(split_text("", ' '), vec![""]);
    assert_eq!(split_text(" x ", ' '), vec!["", "x", ""]);
    assert_eq!(split_text("cat\ndog\n", '\n'), vec!["cat", "dog", ""]);
    assert_eq!(split_text("été ok", ' '), vec!["été", "ok"]);
}

#[test]
fn parse_click() {
    match parse_ocr_output("  2 10 20 30 40\n") {
        Some(OcrCommand::Click { x, y, w, h }) => assert_eq!((x, y, w, h), (10, 20, 30, 40)),
        _ => panic!("expected a click"),
    }
    match parse_ocr_output("2 -5 +7 3 1 extra") {
        Some(OcrCommand::Click { x, y, w, h }) => assert_eq!((x, y, w, h), (-5, 7, 3, 1)),
        _ => panic!("expected a click"),
    }
}

#[test]
fn parse_click_needs_four_numbers() {
    assert!(parse_ocr_output("2 10 20 30").is_none());
    assert!(parse_ocr_output("2 10 20 x 40").is_none());
    assert!(parse_ocr_output("2 10  20 30 40").is_none());
    assert!(parse_ocr_output("2 10 20 30 99999999999").is_none());
}

#[test]
fn parse_word() {
    match parse_ocr_output("1 ABC\n") {
        Some(OcrCommand::Word(w)) => assert_eq!(w, "abc"),
        _ => panic!("expected a word"),
    }
    match parse_ocr_output("1 Qu rest") {
        Some(OcrCommand::Word(w)) => assert_eq!(w, "qu"),
        _ => panic!("expected a word"),
    }
}

#[test]
fn parse_word_needs_a_part() {
    assert!(parse_ocr_output("1").is_none());
    assert!(parse_ocr_output("1  ab").is_none());
}

#[test]
fn parse_other_and_bad() {
    assert!(matches!(parse_ocr_output("0"), Some(OcrCommand::Other)));
    assert!(matches!(parse_ocr_output("7 1 2"), Some(OcrCommand::Other)));
    assert!(parse_ocr_output("").is_none());
    assert!(parse_ocr_output("hello").is_none());
    assert!(parse_ocr_output("-").is_none());
}

#[test]
fn word_command_empty_is_none() {
    assert!(word_command(String::new()).is_none());
    match word_command("ing".to_string()) {
        Some(OcrCommand::Word(w)) => assert_eq!(w, "ing"),
        _ => panic!("expected a word"),
    }
}

#[test]
fn matching_words_filters_and_keeps_order() {
    let words = vec!["bring", "sing", "song", "ring", "zing"];
    let seen = vec!["ring"];
    assert_eq!(matching_words(&words, "ing", &seen), vec![0, 1, 4]);
    assert_eq!(matching_words(&words, " in\n", &seen), vec![0, 1, 4]);
    assert_eq!(matching_words(&words, "xyz", &seen), Vec::<usize>::new());
    assert_eq!(matching_words(&words, "", &vec![]), vec![0, 1, 2, 3, 4]);
}

#[test]
fn matching_words_drops_every_copy_of_a_played_word() {
    let words = vec!["sing", "sing", "sting"];
    let seen = vec!["sing"];
    assert_eq!(matching_words(&words, "s", &seen), vec![2]);
}

#[test]
fn pick_word_never_takes_the_first() {
    let candidates = vec![7usize, 8, 9];
    for _ in 0..200 {
        let w = pick_word(&candidates);
        assert!(w == 8 || w == 9);
    }
    assert_eq!(pick_word(&vec![1, 2]), 2);
}

#[test]
fn key_table() {
    assert_eq!(key_for_char('a'), Some(KeyboardKey::A));
    assert_eq!(key_for_char('q'), Some(KeyboardKey::Q));
    assert_eq!(key_for_char('z'), Some(KeyboardKey::Z));
    assert_eq!(key_for_char(' '), Some(KeyboardKey::Space));
    assert_eq!(key_for_char('-'), Some(KeyboardKey::Minus));
    assert_eq!(key_for_char('='), Some(KeyboardKey::Equals));
    assert_eq!(key_for_char('\u{2b50}'), Some(KeyboardKey::Enter));
    assert_eq!(key_for_char('A'), None);
    assert_eq!(key_for_char('1'), None);
}

#[test]
fn keystrokes_of_a_word() {
    assert_eq!(
        keystrokes(" ab-c\r"),
        Ok(vec![KeyboardKey::A, KeyboardKey::B, KeyboardKey::Minus, KeyboardKey::C, KeyboardKey::Enter])
    );
    assert_eq!(keystrokes(""), Ok(vec![KeyboardKey::Enter]));
}

#[test]
fn keystrokes_stop_at_unmapped_char() {
    assert_eq!(keystrokes("ab1c"), Err(vec![KeyboardKey::A, KeyboardKey::B]));
    assert_eq!(keystrokes("X"), Err(vec![]));
}

#[test]
fn click_reports_press_then_release() {
    let (press, release) = click_reports(100, 200, 50, 30);
    assert_eq!((press.x, press.y), (125, 265));
    assert_eq!(press.buttons, 1);
    assert_eq!(press.held_buttons.len(), 1);
    assert!(press.held_buttons.contains(&1));
    assert_eq!((release.x, release.y, release.wheel, release.h_wheel), (0, 0, 0, 0));
    assert_eq!(release.buttons, 0);
    assert!(release.held_buttons.is_empty());
}

#[test]
fn click_center_rounds_toward_zero_and_wraps() {
    let (press, _) = click_reports(0, 0, -3, 7);
    assert_eq!((press.x, press.y), (-1, 53));
    let (press, _) = click_reports(40000, -40000, 1, 1);
    assert_eq!(press.x, 40000i32 as i16);
    assert_eq!(press.y, (-40000i32 + 50) as i16);
}
