//! Plain data types for the terminal capability: styled cells, decoded key
//! events, and the `Textbox` trait through which a render backend is driven.
//! The backend itself (raw terminal I/O) lives outside this crate; here it is
//! only an interface.
use vstd::prelude::*;
use crate::coord::Coord;
use crate::coord::ToCol;

verus! {

/// A display style: one bit per attribute or color, combined with `union`.
#[derive(Clone, Copy, Debug, PartialEq, Eq, Hash, Structural)]
pub struct Style(pub u16);

impl Style {
    /// The terminal's default color.
    pub fn default_style() -> (s: Style)
        ensures
            s.0 == 0x8000u16,
    {
        Style(0x8000)
    }

    pub fn black() -> (s: Style)
        ensures
            s.0 == 0x0001u16,
    {
        Style(0x0001)
    }

    pub fn red() -> (s: Style)
        ensures
            s.0 == 0x0002u16,
    {
        Style(0x0002)
    }

    pub fn green() -> (s: Style)
        ensures
            s.0 == 0x0004u16,
    {
        Style(0x0004)
    }

    pub fn yellow() -> (s: Style)
        ensures
            s.0 == 0x0008u16,
    {
        Style(0x0008)
    }

    pub fn blue() -> (s: Style)
        ensures
            s.0 == 0x0010u16,
    {
        Style(0x0010)
    }

    pub fn magenta() -> (s: Style)
        ensures
            s.0 == 0x0020u16,
    {
        Style(0x0020)
    }

    pub fn cyan() -> (s: Style)
        ensures
            s.0 == 0x0040u16,
    {
        Style(0x0040)
    }

    pub fn white() -> (s: Style)
        ensures
            s.0 == 0x0080u16,
    {
        Style(0x0080)
    }

    pub fn bright() -> (s: Style)
        ensures
            s.0 == 0x0100u16,
    {
        Style(0x0100)
    }

    pub fn bold() -> (s: Style)
        ensures
            s.0 == 0x0200u16,
    {
        Style(0x0200)
    }

    pub fn underline() -> (s: Style)
        ensures
            s.0 == 0x0400u16,
    {
        Style(0x0400)
    }

    pub fn reverse() -> (s: Style)
        ensures
            s.0 == 0x0800u16,
    {
        Style(0x0800)
    }

    /// Both styles combined.
    pub fn union(self, other: Style) -> (s: Style)
        ensures
            s.0 == self.0 | other.0,
    {
        Style(self.0 | other.0)
    }

    /// Whether every bit of `other` is set in `self`.
    pub fn contains(self, other: Style) -> (r: bool)
        ensures
            r == (self.0 & other.0 == other.0),
    {
        self.0 & other.0 == other.0
    }
}

/// A set of key modifiers, combined with `union`.
#[derive(Clone, Copy, Debug, PartialEq, Eq, Hash, Structural)]
pub struct Mod(pub u32);

impl Mod {
    pub fn no_mods() -> (m: Mod)
        ensures
            m.0 == 0u32,
    {
        Mod(0)
    }

    pub fn alt() -> (m: Mod)
        ensures
            m.0 == 0x0003u32,
    {
        Mod(0x0003)
    }

    pub fn ctrl() -> (m: Mod)
        ensures
            m.0 == 0x000cu32,
    {
        Mod(0x000c)
    }

    pub fn shift() -> (m: Mod)
        ensures
            m.0 == 0x0010u32,
    {
        Mod(0x0010)
    }

    pub fn alt_ctrl() -> (m: Mod)
        ensures
            m.0 == 0x000fu32,
    {
        Mod(0x000f)
    }

    pub fn alt_shift() -> (m: Mod)
        ensures
            m.0 == 0x0013u32,
    {
        Mod(0x0013)
    }

    pub fn ctrl_shift() -> (m: Mod)
        ensures
            m.0 == 0x001cu32,
    {
        Mod(0x001c)
    }

    pub fn alt_ctrl_shift() -> (m: Mod)
        ensures
            m.0 == 0x001fu32,
    {
        Mod(0x001f)
    }

    /// Both modifier sets combined.
    pub fn union(self, other: Mod) -> (m: Mod)
        ensures
            m.0 == self.0 | other.0,
    {
        Mod(self.0 | other.0)
    }

    /// Whether every modifier of `other` is set in `self`.
    pub fn contains(self, other: Mod) -> (r: bool)
        ensures
            r == (self.0 & other.0 == other.0),
    {
        self.0 & other.0 == other.0
    }
}

/// A decoded key.
#[derive(Clone, Copy, Debug, PartialEq, Eq, Hash, Structural)]
pub enum Key {
    F(u8),
    Char(char),
    Left,
    Up,
    Right,
    Down,
    Escape,
    Insert,
    Delete,
    Home,
    End,
    PageUp,
    PageDown,
    Backspace,
    Tab,
    Enter,
}

/// An input event: the typed character (if any), the modifiers, and the key.
#[derive(Clone, Copy, Debug, PartialEq, Eq, Hash, Structural)]
pub enum Event {
    Key(char, Mod, Key),
}

/// How the backend decodes input.
#[derive(Clone, Copy, Debug, PartialEq, Eq, Hash, Structural)]
pub enum InputMode {
    Current,
    Esc,
    Alt,
    Mouse,
}

/// How the backend encodes output colors.
#[derive(Clone, Copy, Debug, PartialEq, Eq, Hash, Structural)]
pub enum OutputMode {
    Current,
    Normal,
    Colors256,
    Colors216,
    Grayscale,
}

/// One character cell with its colors.
#[derive(Clone, Copy, Debug, PartialEq, Eq, Hash, Structural)]
pub struct Cell {
    pub ch: char,
    pub fg: Style,
    pub bg: Style,
}

/// The capability a render backend provides: a grid of character cells,
/// a hardware cursor, and a stream of decoded key events. Implementations
/// live outside this crate; nothing is assumed of their behavior.
pub trait Textbox: Sized {
    /// Opens the backend, or reports why it cannot.
    fn init() -> Result<Self, String>;

    /// The grid size in character cells: columns, then rows.
    fn size(&self) -> Coord;

    /// The number of columns of the grid.
    fn cols(&self) -> usize {
        self.size().col()
    }

    /// The number of rows of the grid.
    fn rows(&self) -> usize {
        self.size().row()
    }

    /// Sets the style used by `clear`.
    fn set_clear_style(&mut self, fg: Style, bg: Style);

    /// Blanks the whole grid.
    fn clear(&mut self);

    /// Makes everything drawn so far visible.
    fn present(&mut self);

    /// Places the hardware cursor.
    fn set_cursor(&mut self, coord: Coord);

    /// Hides the hardware cursor.
    fn hide_cursor(&mut self);

    /// Draws one cell.
    fn put_cell(&mut self, coord: Coord, cell: Cell);

    /// Draws one character with the given colors.
    fn set_cell(&mut self, coord: Coord, ch: char, fg: Style, bg: Style) {
        self.put_cell(coord, Cell { ch, fg, bg })
    }

    /// Draws a run of characters left to right, starting at `coord`.
    fn set_cells(&mut self, coord: Coord, chs: &str, fg: Style, bg: Style)
        requires
            coord.0 + chs@.len() <= usize::MAX,
    {
        let n = chs.unicode_len();
        for i in 0..n
            invariant
                n == chs@.len(),
                coord.0 + n <= usize::MAX,
        {
            self.set_cell(coord.add(i.to_col()), chs.get_char(i), fg, bg);
        }
    }

    /// Chooses how input is decoded; returns the previous mode.
    fn set_input_mode(&mut self, mode: InputMode) -> InputMode;

    /// Chooses how output colors are encoded; returns the previous mode.
    fn set_output_mode(&mut self, mode: OutputMode) -> OutputMode;

    /// The next pending input event, if one is ready.
    fn pop_event(&mut self) -> Option<Event>;
}

} // verus!
