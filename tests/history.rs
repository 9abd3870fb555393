use typyr::history::History;
use typyr::key::{Key, KeyEvent, Modifiers};

fn ch(c: char) -> KeyEvent {
    KeyEvent { key: Key::Char(c), modifiers: Modifiers::none() }
}

fn enter() -> KeyEvent {
    KeyEvent { key: Key::Enter, modifiers: Modifiers::none() }
}

#[test]
fn new_history_is_empty() {
    let h = History::new(10);
    assert_eq!(h.render(), "");
    assert_eq!(h.width(), 0);
    assert_eq!(h.budget(), 10);
    assert_eq!(h.len(), 0);
}

#[test]
fn eleven_chars_into_ten_evicts_oldest() {
    let mut h = History::new(10);
    for c in "abcdefghijk".chars() {
        h.push(ch(c));
    }
    assert_eq!(h.render(), "bcdefghijk");
    assert_eq!(h.width(), 10);
    assert_eq!(h.len(), 10);
}

#[test]
fn enter_into_full_history_evicts_to_make_room() {
    let mut h = History::new(10);
    for c in "abcdefgh".chars() {
        h.push(ch(c));
    }
    assert_eq!(h.width(), 8);
    h.push(enter());
    assert_eq!(h.render(), "cdefgh<CR>");
    assert_eq!(h.width(), 10);
}

#[test]
fn width_never_exceeds_budget() {
    let mut h = History::new(7);
    let events = vec![
        ch('a'),
        enter(),
        ch('b'),
        KeyEvent { key: Key::Named("PageDown".to_string()), modifiers: Modifiers::none() },
        ch('c'),
        enter(),
        enter(),
        ch('d'),
    ];
    for e in events {
        h.push(e);
        assert!(h.width() <= h.budget());
        assert_eq!(h.width(), h.render().chars().count());
    }
    assert_eq!(h.render(), "<CR>d");
}

#[test]
fn event_wider_than_budget_empties_history() {
    let mut h = History::new(3);
    h.push(ch('a'));
    h.push(enter());
    assert_eq!(h.render(), "");
    assert_eq!(h.width(), 0);
    h.push(ch('b'));
    assert_eq!(h.render(), "b");
}

#[test]
fn zero_budget_holds_nothing() {
    let mut h = History::new(0);
    h.push(ch('a'));
    assert_eq!(h.render(), "");
    assert_eq!(h.len(), 0);
}

#[test]
fn clear_then_render_is_empty() {
    let mut h = History::new(20);
    for c in "hello".chars() {
        h.push(ch(c));
    }
    h.push(enter());
    h.clear();
    assert_eq!(h.render(), "");
    assert_eq!(h.width(), 0);
    assert_eq!(h.budget(), 20);
}

#[test]
fn shrinking_budget_evicts_from_front() {
    let mut h = History::new(20);
    for c in "abc".chars() {
        h.push(ch(c));
    }
    h.push(enter());
    h.push(ch('d'));
    let before = h.render();
    assert_eq!(before, "abc<CR>d");
    h.set_budget(5);
    let after = h.render();
    assert_eq!(after, "<CR>d");
    assert!(before.ends_with(&after));
    assert_eq!(h.width(), 5);
    assert_eq!(h.budget(), 5);
}

#[test]
fn shrinking_budget_drops_whole_entries() {
    let mut h = History::new(20);
    h.push(ch('a'));
    h.push(enter());
    h.push(ch('b'));
    h.set_budget(4);
    assert_eq!(h.render(), "b");
}

#[test]
fn growing_budget_readmits_nothing() {
    let mut h = History::new(3);
    for c in "abcde".chars() {
        h.push(ch(c));
    }
    assert_eq!(h.render(), "cde");
    h.set_budget(10);
    assert_eq!(h.render(), "cde");
    assert_eq!(h.budget(), 10);
    h.set_budget(3);
    assert_eq!(h.render(), "cde");
}

#[test]
fn prettify_keycode_matches_rendering() {
    assert_eq!(History::prettify_keycode(&enter()), "<CR>");
    assert_eq!(History::prettify_keycode(&ch('q')), "q");
}
