//! Key events and their short human-readable rendering.

use vstd::prelude::*;
use vstd::string::*;

verus! {

/// The glyph that stands for the space bar.
pub const SPACE_GLYPH: char = '\u{2423}';

/// The logical key of a key event.
#[derive(Clone, Debug)]
pub enum Key {
    /// A character key.
    Char(char),
    Backspace,
    Enter,
    Escape,
    LeftArrow,
    RightArrow,
    UpArrow,
    DownArrow,
    /// Any other named key, carried by the name it is displayed under
    /// (`Home`, `PageUp`, `Function(5)`, ...).
    Named(String),
}

/// The active modifiers of a key event.
#[derive(Clone, Copy, Debug, PartialEq, Eq, Structural)]
pub struct Modifiers {
    pub ctrl: bool,
    pub alt: bool,
    pub shift: bool,
    /// Any modifier other than the three above (super, hyper, ...).
    pub other: bool,
}

/// A key press together with its modifiers.
#[derive(Clone, Debug)]
pub struct KeyEvent {
    pub key: Key,
    pub modifiers: Modifiers,
}

impl Modifiers {
    /// No modifier is active.
    pub fn none() -> (r: Modifiers)
        ensures
            r.is_none(),
    {
        Modifiers { ctrl: false, alt: false, shift: false, other: false }
    }

    pub open spec fn is_none(self) -> bool {
        !self.ctrl && !self.alt && !self.shift && !self.other
    }
}

/// A key event is valid when a named key has a non-empty name.
pub open spec fn valid_event(e: KeyEvent) -> bool {
    match e.key {
        Key::Named(name) => name@.len() > 0,
        _ => true,
    }
}

/// The bare form of a key, before modifiers and brackets are added.
pub open spec fn key_form(k: Key) -> Seq<char> {
    match k {
        Key::Char(c) => if c == ' ' || c == '\0' {
            seq![SPACE_GLYPH]
        } else {
            seq![c]
        },
        Key::Backspace => seq!['B', 'S'],
        Key::Enter => seq!['C', 'R'],
        Key::Escape => seq!['E', 's', 'c'],
        Key::LeftArrow => seq!['L', 'e', 'f', 't'],
        Key::RightArrow => seq!['R', 'i', 'g', 'h', 't'],
        Key::UpArrow => seq!['U', 'p'],
        Key::DownArrow => seq!['D', 'o', 'w', 'n'],
        Key::Named(name) => name@,
    }
}

/// Whether the key is the NUL character, which a terminal sends for
/// control-space and which therefore counts as a control marker.
pub open spec fn is_nul_key(k: Key) -> bool {
    k matches Key::Char(c) && c == '\0'
}

/// The modifier markers, each followed by a hyphen: control (`C-`), then
/// alt (`M-`).
pub open spec fn marker_prefix(e: KeyEvent) -> Seq<char> {
    (if is_nul_key(e.key) {
        seq!['C', '-']
    } else {
        Seq::empty()
    }) + (if e.modifiers.ctrl {
        seq!['C', '-']
    } else {
        Seq::empty()
    }) + (if e.modifiers.alt {
        seq!['M', '-']
    } else {
        Seq::empty()
    })
}

/// The rendering of a key event: a one-character form without markers
/// stands bare; everything else is `<markers form>`.
pub open spec fn pretty(e: KeyEvent) -> Seq<char> {
    let form = key_form(e.key);
    let prefix = marker_prefix(e);
    if prefix.len() == 0 && form.len() == 1 {
        form
    } else {
        seq!['<'] + prefix + form + seq!['>']
    }
}

/// The display width of a key event: the number of characters it renders to.
pub open spec fn width(e: KeyEvent) -> nat {
    pretty(e).len()
}

/// Relies on `String::push`: appends one character.
#[verifier::external_body]
fn push_char(s: &mut String, c: char)
    ensures
        final(s)@ == old(s)@.push(c),
{
    s.push(c)
}

fn str_to_string(s: &str) -> (r: String)
    ensures
        r@ == s@,
{
    String::from_str(s)
}

fn key_form_string(k: &Key) -> (r: String)
    ensures
        r@ == key_form(*k),
{
    match k {
        Key::Char(c) => {
            let mut s = String::new();
            if *c == ' ' || *c == '\0' {
                push_char(&mut s, SPACE_GLYPH);
            } else {
                push_char(&mut s, *c);
            }
            assert(s@ =~= key_form(*k));
            s
        },
        Key::Backspace => {
            proof {
                reveal_strlit("BS");
            }
            let s = str_to_string("BS");
            assert(s@ =~= key_form(*k));
            s
        },
        Key::Enter => {
            proof {
                reveal_strlit("CR");
            }
            let s = str_to_string("CR");
            assert(s@ =~= key_form(*k));
            s
        },
        Key::Escape => {
            proof {
                reveal_strlit("Esc");
            }
            let s = str_to_string("Esc");
            assert(s@ =~= key_form(*k));
            s
        },
        Key::LeftArrow => {
            proof {
                reveal_strlit("Left");
            }
            let s = str_to_string("Left");
            assert(s@ =~= key_form(*k));
            s
        },
        Key::RightArrow => {
            proof {
                reveal_strlit("Right");
            }
            let s = str_to_string("Right");
            assert(s@ =~= key_form(*k));
            s
        },
        Key::UpArrow => {
            proof {
                reveal_strlit("Up");
            }
            let s = str_to_string("Up");
            assert(s@ =~= key_form(*k));
            s
        },
        Key::DownArrow => {
            proof {
                reveal_strlit("Down");
            }
            let s = str_to_string("Down");
            assert(s@ =~= key_form(*k));
            s
        },
        Key::Named(name) => name.clone(),
    }
}

/// Renders a key event as [`pretty`] describes.
pub fn prettify(e: &KeyEvent) -> (r: String)
    requires
        valid_event(*e),
    ensures
        r@ == pretty(*e),
{
    let form = key_form_string(&e.key);
    let mut prefix = String::new();
    proof {
        reveal_strlit("C-");
        reveal_strlit("M-");
    }
    let nul = match &e.key {
        Key::Char(c) => *c == '\0',
        _ => false,
    };
    if nul {
        prefix.append("C-");
    }
    if e.modifiers.ctrl {
        prefix.append("C-");
    }
    if e.modifiers.alt {
        prefix.append("M-");
    }
    assert(prefix@ =~= marker_prefix(*e));
    let bare = !nul && !e.modifiers.ctrl && !e.modifiers.alt;
    assert(bare == (marker_prefix(*e).len() == 0));
    if bare && form.as_str().unicode_len() == 1 {
        form
    } else {
        proof {
            reveal_strlit("<");
            reveal_strlit(">");
        }
        let mut r = str_to_string("<");
        r.append(prefix.as_str());
        r.append(form.as_str());
        r.append(">");
        assert(r@ =~= pretty(*e));
        r
    }
}

/// The display width of a key event.
pub fn display_width(e: &KeyEvent) -> (w: usize)
    requires
        valid_event(*e),
    ensures
        w == width(*e),
{
    prettify(e).as_str().unicode_len()
}

/// Whether the event is the chord that clears the key history: the
/// character `0x1c` (control-backslash) with no modifier.
pub open spec fn is_clear_chord_spec(e: KeyEvent) -> bool {
    e.key matches Key::Char(c) && c == '\u{1c}' && e.modifiers.is_none()
}

/// Tests for the chord that clears the key history.
pub fn is_clear_chord(e: &KeyEvent) -> (r: bool)
    ensures
        r == is_clear_chord_spec(*e),
{
    match &e.key {
        Key::Char(c) => *c == '\u{1c}' && !e.modifiers.ctrl && !e.modifiers.alt
            && !e.modifiers.shift && !e.modifiers.other,
        _ => false,
    }
}

/// Rendering depends on the event alone: equal events render alike.
pub proof fn rendering_is_deterministic(a: KeyEvent, b: KeyEvent)
    requires
        a == b,
    ensures
        pretty(a) == pretty(b),
{
}

/// A valid event renders to at least one character, and to more than one
/// only within angle brackets; with control or alt it is always bracketed
/// and at least five characters long.
pub proof fn rendering_shape(e: KeyEvent)
    requires
        valid_event(e),
    ensures
        pretty(e).len() >= 1,
        pretty(e).len() == 1 || (pretty(e)[0] == '<' && pretty(e).last() == '>'),
        (e.modifiers.ctrl || e.modifiers.alt) ==> pretty(e)[0] == '<' && pretty(e).last() == '>'
            && pretty(e).len() >= 5,
{
    let form = key_form(e.key);
    let prefix = marker_prefix(e);
    assert(form.len() >= 1);
    if e.modifiers.ctrl || e.modifiers.alt {
        assert(prefix.len() >= 2);
    }
    if !(prefix.len() == 0 && form.len() == 1) {
        let r = seq!['<'] + prefix + form + seq!['>'];
        assert(r[0] == '<');
        assert(r.last() == '>');
    }
}

/// A character key other than space and NUL, without modifiers, renders as
/// that character.
pub proof fn plain_char_renders_as_itself(c: char, m: Modifiers)
    requires
        c != ' ',
        c != '\0',
        !m.ctrl,
        !m.alt,
    ensures
        pretty(KeyEvent { key: Key::Char(c), modifiers: m }) == seq![c],
{
    let e = KeyEvent { key: Key::Char(c), modifiers: m };
    assert(marker_prefix(e) =~= Seq::<char>::empty());
}

/// A character key other than space and NUL, with control alone among the
/// rendered modifiers, renders as `<C-c>`.
pub proof fn control_char_renders_bracketed(c: char, m: Modifiers)
    requires
        c != ' ',
        c != '\0',
        m.ctrl,
        !m.alt,
    ensures
        pretty(KeyEvent { key: Key::Char(c), modifiers: m }) == seq!['<', 'C', '-', c, '>'],
{
    let e = KeyEvent { key: Key::Char(c), modifiers: m };
    assert(marker_prefix(e) =~= seq!['C', '-']);
    assert(pretty(e) =~= seq!['<', 'C', '-', c, '>']);
}

} // verus!
