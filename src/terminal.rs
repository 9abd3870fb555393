//! The terminal state adapter: the child's emulated screen and its size.

use vstd::prelude::*;

use crate::geometry::{MIN_COLS, MIN_ROWS};

verus! {

/// `vt100::Parser`, the terminal emulator, held opaque.
#[verifier::external_type_specification]
#[verifier::external_body]
pub struct ExParser(vt100::Parser);

/// `vt100::Screen`, the emulated screen handed to the renderer, held opaque.
#[verifier::external_type_specification]
#[verifier::external_body]
pub struct ExScreen(vt100::Screen);

/// The bytes an emulator has been handed, in order, since it was made.
pub uninterp spec fn emulator_input(p: vt100::Parser) -> Seq<u8>;

/// The size of an emulator's screen, as (rows, columns).
pub uninterp spec fn emulator_size(p: vt100::Parser) -> (u16, u16);

/// Relies on `vt100::Parser::new`: a blank screen of the given size that has
/// been handed nothing. It panics on zero rows; later processing panics on a
/// line wrap with one row, and on a double-width character with fewer than
/// two columns.
pub assume_specification[ vt100::Parser::new ](
    rows: u16,
    cols: u16,
    scrollback_len: usize,
) -> (p: vt100::Parser)
    requires
        rows >= MIN_ROWS,
        cols >= MIN_COLS,
    ensures
        emulator_size(p) == (rows, cols),
        emulator_input(p) == Seq::<u8>::empty(),
;

/// Relies on `vt100::Parser::process`: interprets the bytes after those
/// already handed; the size is changed only by `set_size`.
pub assume_specification[ vt100::Parser::process ](p: &mut vt100::Parser, bytes: &[u8])
    requires
        emulator_size(*old(p)).0 >= MIN_ROWS,
        emulator_size(*old(p)).1 >= MIN_COLS,
    ensures
        emulator_input(*final(p)) == emulator_input(*old(p)) + bytes@,
        emulator_size(*final(p)) == emulator_size(*old(p)),
;

/// Relies on `vt100::Parser::set_size`: both screens take the new size. It
/// panics on zero rows or zero columns; for smaller sizes see `new`.
pub assume_specification[ vt100::Parser::set_size ](p: &mut vt100::Parser, rows: u16, cols: u16)
    requires
        rows >= MIN_ROWS,
        cols >= MIN_COLS,
    ensures
        emulator_size(*final(p)) == (rows, cols),
        emulator_input(*final(p)) == emulator_input(*old(p)),
;

/// Relies on `vt100::Parser::screen`: a view of the emulated screen.
pub assume_specification[ vt100::Parser::screen ](p: &vt100::Parser) -> &vt100::Screen;

/// Relies on `vt100::Parser::screen` and `vt100::Screen::size`: the size of
/// the screen in view, which both screens share.
#[verifier::external_body]
fn screen_size(p: &vt100::Parser) -> (r: (u16, u16))
    ensures
        r == emulator_size(*p),
{
    p.screen().size()
}

/// The emulated screen of the child.
pub struct TerminalState {
    parser: vt100::Parser,
}

impl TerminalState {
    /// The size of the emulated screen, as (rows, columns).
    pub closed spec fn dims(&self) -> (u16, u16) {
        emulator_size(self.parser)
    }

    /// The bytes handed to the emulator, in order.
    pub closed spec fn input(&self) -> Seq<u8> {
        emulator_input(self.parser)
    }

    /// The adapter's invariant: the screen has at least two rows and two
    /// columns.
    pub open spec fn wf(&self) -> bool {
        self.dims().0 >= MIN_ROWS && self.dims().1 >= MIN_COLS
    }

    /// An empty screen of the given size, without scrollback.
    pub fn new(rows: u16, cols: u16) -> (t: TerminalState)
        requires
            rows >= MIN_ROWS,
            cols >= MIN_COLS,
        ensures
            t.wf(),
            t.dims() == (rows, cols),
            t.input() == Seq::<u8>::empty(),
    {
        TerminalState { parser: vt100::Parser::new(rows, cols, 0) }
    }

    /// Hands output bytes of the child to the emulator.
    pub fn feed(&mut self, bytes: &[u8])
        requires
            old(self).wf(),
        ensures
            final(self).wf(),
            final(self).dims() == old(self).dims(),
            final(self).input() == old(self).input() + bytes@,
    {
        self.parser.process(bytes);
    }

    /// Gives the emulator a new size.
    pub fn resize(&mut self, rows: u16, cols: u16)
        requires
            rows >= MIN_ROWS,
            cols >= MIN_COLS,
        ensures
            final(self).wf(),
            final(self).dims() == (rows, cols),
            final(self).input() == old(self).input(),
    {
        self.parser.set_size(rows, cols);
    }

    /// The size of the emulated screen, as (rows, columns).
    pub fn size(&self) -> (r: (u16, u16))
        ensures
            r == self.dims(),
    {
        screen_size(&self.parser)
    }

    /// The emulated screen, to be drawn.
    pub fn screen(&self) -> &vt100::Screen {
        self.parser.screen()
    }

    /// One step of the output pump on a chunk read from the child: an empty
    /// chunk means that nothing is available yet and changes nothing; any
    /// other is fed to the emulator. Returns whether a redraw is due.
    pub fn pump_chunk(&mut self, chunk: &[u8]) -> (redraw: bool)
        requires
            old(self).wf(),
        ensures
            final(self).wf(),
            redraw == (chunk@.len() > 0),
            final(self).dims() == old(self).dims(),
            final(self).input() == old(self).input() + chunk@,
            chunk@.len() == 0 ==> *final(self) == *old(self),
    {
        if chunk.len() == 0 {
            assert(old(self).input() + chunk@ =~= old(self).input());
            return false;
        }
        self.feed(chunk);
        true
    }
}

} // verus!
