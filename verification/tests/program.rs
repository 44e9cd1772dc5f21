use rstop::program::{
    decode_window_title, title_buffer_len, ProgramTitles, Selection, CUSTOM_PROGRAM_LABEL,
};

fn utf16(s: &str) -> Vec<u16> {
    s.encode_utf16().collect()
}

#[test]
fn new_list_holds_only_the_custom_entry() {
    let list = ProgramTitles::new();
    assert_eq!(list.to_vec(), vec![CUSTOM_PROGRAM_LABEL.to_string()]);
    assert_eq!(list.window_count(), 0);
    assert_eq!(CUSTOM_PROGRAM_LABEL, "Open Custom Program");
}

#[test]
fn hidden_or_untitled_windows_are_skipped() {
    assert_eq!(title_buffer_len(false, 10), None);
    assert_eq!(title_buffer_len(true, 0), None);
    assert_eq!(title_buffer_len(false, 0), None);
}

#[test]
fn title_buffer_has_room_for_the_terminator() {
    assert_eq!(title_buffer_len(true, 10), Some(11));
    assert_eq!(title_buffer_len(true, i32::MAX - 1), Some(i32::MAX));
}

#[test]
fn decodes_copied_part_of_buffer() {
    let mut buffer = utf16("Notepad");
    buffer.push(0);
    assert_eq!(decode_window_title(&buffer, 7), Some("Notepad".to_string()));
    assert_eq!(decode_window_title(&buffer, 4), Some("Note".to_string()));
    assert_eq!(decode_window_title(&buffer, 0), None);
}

#[test]
fn decodes_surrogate_pairs() {
    let buffer = utf16("a😀b");
    assert_eq!(buffer.len(), 4);
    assert_eq!(decode_window_title(&buffer, 4), Some("a😀b".to_string()));
}

#[test]
fn unpaired_surrogate_is_rejected() {
    let buffer: Vec<u16> = vec![0x61, 0xD83D, 0x62];
    assert_eq!(decode_window_title(&buffer, 3), None);
    let lone_low: Vec<u16> = vec![0xDE00];
    assert_eq!(decode_window_title(&lone_low, 1), None);
    // cutting a pair in half leaves an unpaired surrogate
    let pair = utf16("😀");
    assert_eq!(decode_window_title(&pair, 1), None);
}

#[test]
fn windows_are_listed_after_the_custom_entry() {
    let mut list = ProgramTitles::new();
    assert!(list.add_window_title(&utf16("Calculator"), 10));
    assert!(!list.add_window_title(&utf16("Ignored"), 0));
    assert!(!list.add_window_title(&[0xD800u16], 1));
    assert!(list.add_window_title(&utf16("Mail\0\0"), 4));
    assert_eq!(
        list.to_vec(),
        vec!["Open Custom Program".to_string(), "Calculator".to_string(), "Mail".to_string()]
    );
    assert_eq!(list.window_count(), 2);
}

#[test]
fn selecting_the_first_entry_asks_for_a_name() {
    let mut list = ProgramTitles::new();
    list.add_window_title(&utf16("Calculator"), 10);
    assert!(matches!(list.select(0), Selection::Custom));
    match list.select(1) {
        Selection::Window(t) => assert_eq!(t, "Calculator"),
        Selection::Custom => panic!("expected a window"),
    }
}

#[test]
fn decoding_agrees_with_std() {
    let samples: Vec<Vec<u16>> = vec![
        vec![],
        vec![0x41, 0x42],
        vec![0xD83D, 0xDE00],
        vec![0xDE00, 0xD83D],
        vec![0xD800, 0xD800, 0xDC00],
        vec![0xFFFF, 0xE000, 0x00E9],
    ];
    for units in samples {
        let expected = String::from_utf16(&units).ok();
        let got = decode_window_title(&units, units.len() as i32);
        if units.is_empty() {
            assert_eq!(got, None);
        } else {
            assert_eq!(got, expected, "{:?}", units);
        }
    }
}
