use typyr::key::{display_width, is_clear_chord, prettify, Key, KeyEvent, Modifiers};

fn plain(key: Key) -> KeyEvent {
    KeyEvent { key, modifiers: Modifiers::none() }
}

fn with(key: Key, ctrl: bool, alt: bool) -> KeyEvent {
    KeyEvent { key, modifiers: Modifiers { ctrl, alt, shift: false, other: false } }
}

#[test]
fn printable_char_renders_bare() {
    assert_eq!(prettify(&plain(Key::Char('a'))), "a");
    assert_eq!(prettify(&plain(Key::Char('Z'))), "Z");
    assert_eq!(prettify(&plain(Key::Char('\u{e9}'))), "\u{e9}");
}

#[test]
fn space_renders_as_glyph() {
    assert_eq!(prettify(&plain(Key::Char(' '))), "\u{2423}");
}

#[test]
fn nul_renders_as_control_space() {
    assert_eq!(prettify(&plain(Key::Char('\0'))), "<C-\u{2423}>");
    assert_eq!(prettify(&with(Key::Char('\0'), true, false)), "<C-C-\u{2423}>");
}

#[test]
fn named_keys_render_bracketed() {
    assert_eq!(prettify(&plain(Key::Backspace)), "<BS>");
    assert_eq!(prettify(&plain(Key::Enter)), "<CR>");
    assert_eq!(prettify(&plain(Key::Escape)), "<Esc>");
    assert_eq!(prettify(&plain(Key::LeftArrow)), "<Left>");
    assert_eq!(prettify(&plain(Key::RightArrow)), "<Right>");
    assert_eq!(prettify(&plain(Key::UpArrow)), "<Up>");
    assert_eq!(prettify(&plain(Key::DownArrow)), "<Down>");
    assert_eq!(prettify(&plain(Key::Named("PageUp".to_string()))), "<PageUp>");
    assert_eq!(prettify(&plain(Key::Named("Function(5)".to_string()))), "<Function(5)>");
}

#[test]
fn control_char_renders_with_marker() {
    assert_eq!(prettify(&with(Key::Char('x'), true, false)), "<C-x>");
}

#[test]
fn alt_and_control_markers_in_order() {
    assert_eq!(prettify(&with(Key::Char('x'), false, true)), "<M-x>");
    assert_eq!(prettify(&with(Key::Char('x'), true, true)), "<C-M-x>");
    assert_eq!(prettify(&with(Key::Enter, true, true)), "<C-M-CR>");
}

#[test]
fn shift_is_not_rendered() {
    let e = KeyEvent {
        key: Key::Char('A'),
        modifiers: Modifiers { ctrl: false, alt: false, shift: true, other: false },
    };
    assert_eq!(prettify(&e), "A");
}

#[test]
fn rendering_is_repeatable() {
    let e = with(Key::Named("Home".to_string()), true, false);
    let first = prettify(&e);
    let second = prettify(&e.clone());
    assert_eq!(first, second);
    assert_eq!(first, "<C-Home>");
}

#[test]
fn widths_count_characters() {
    assert_eq!(display_width(&plain(Key::Char('a'))), 1);
    assert_eq!(display_width(&plain(Key::Char(' '))), 1);
    assert_eq!(display_width(&plain(Key::Enter)), 4);
    assert_eq!(display_width(&with(Key::Char('x'), true, true)), 7);
}

#[test]
fn clear_chord_is_recognised() {
    assert!(is_clear_chord(&plain(Key::Char('\u{1c}'))));
    assert!(!is_clear_chord(&with(Key::Char('\u{1c}'), true, false)));
    assert!(!is_clear_chord(&plain(Key::Char('c'))));
    assert!(!is_clear_chord(&plain(Key::Escape)));
}
