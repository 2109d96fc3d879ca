//! Value types of a generation request: positions, boxes, colours, and the
//! symbols that choose an alignment or a wrapping strategy.

use vstd::prelude::*;
use vstd::string::StringExecFns;

verus! {

/// A position in pixels, counted from the canvas's top-left corner. Either
/// coordinate may be negative: what falls outside the canvas is clipped when
/// it is drawn.
#[derive(Clone, Copy, Debug, PartialEq, Eq, Structural)]
pub struct Offset {
    pub x: i32,
    pub y: i32,
}

impl Offset {
    pub fn new(x: i32, y: i32) -> (offset: Self)
        ensures
            offset == (Offset { x, y }),
    {
        Offset { x, y }
    }

    pub fn x(&self) -> (x: i32)
        ensures
            x == self.x,
    {
        self.x
    }

    pub fn y(&self) -> (y: i32)
        ensures
            y == self.y,
    {
        self.y
    }
}

/// The box that an overlay is fitted into, in pixels.
#[derive(Clone, Copy, Debug, PartialEq, Eq, Structural)]
pub struct Size {
    pub width: i32,
    pub height: i32,
}

impl Size {
    pub fn new(width: i32, height: i32) -> (size: Self)
        ensures
            size == (Size { width, height }),
    {
        Size { width, height }
    }

    pub fn width(&self) -> (width: i32)
        ensures
            width == self.width,
    {
        self.width
    }

    pub fn height(&self) -> (height: i32)
        ensures
            height == self.height,
    {
        self.height
    }

    /// A box that an image can be fitted into: at least one pixel each way,
    /// and small enough for its pixels to be addressed on this machine.
    pub open spec fn paintable(self) -> bool {
        self.width >= 1 && self.height >= 1 && 4 * (self.width * self.height) <= usize::MAX
    }

    /// Tests [`Size::paintable`].
    pub fn is_paintable(&self) -> (paintable: bool)
        ensures
            paintable == self.paintable(),
    {
        if self.width < 1 || self.height < 1 {
            return false;
        }
        assert(self.width * self.height <= 0x7fff_ffff * 0x7fff_ffff) by (nonlinear_arith)
            requires
                0 <= self.width <= 0x7fff_ffff,
                0 <= self.height <= 0x7fff_ffff,
        ;
        assert(self.width * self.height >= 0) by (nonlinear_arith)
            requires
                0 <= self.width,
                0 <= self.height,
        ;
        let bytes: u64 = 4 * (self.width as u64 * self.height as u64);
        bytes as u128 <= usize::MAX as u128
    }
}

/// An opaque colour, eight bits per channel.
#[derive(Clone, Copy, Debug, PartialEq, Eq, Structural)]
pub struct Color {
    pub r: u8,
    pub g: u8,
    pub b: u8,
}

impl Color {
    pub fn new(r: u8, g: u8, b: u8) -> (color: Self)
        ensures
            color == (Color { r, g, b }),
    {
        Color { r, g, b }
    }

    pub fn r(&self) -> (r: u8)
        ensures
            r == self.r,
    {
        self.r
    }

    pub fn g(&self) -> (g: u8)
        ensures
            g == self.g,
    {
        self.g
    }

    pub fn b(&self) -> (b: u8)
        ensures
            b == self.b,
    {
        self.b
    }
}

/// Where a measured block sits along one axis of its box.
#[derive(Clone, Copy, Debug, PartialEq, Eq, Structural)]
pub enum AxisAlignment {
    Start,
    Center,
    End,
}

/// A validated alignment: one choice per axis.
#[derive(Clone, Copy, Debug, PartialEq, Eq, Structural)]
pub struct Alignment {
    pub x: AxisAlignment,
    pub y: AxisAlignment,
}

/// How text is broken into lines.
#[derive(Clone, Copy, Debug, PartialEq, Eq, Structural)]
pub enum WrapMode {
    /// Reflow the words so that every line fits the box's width.
    Word,
    /// Treat the line breaks in the text as the only line boundaries.
    Lines,
}

/// A symbol of a request that is not one of the enumerated ones.
#[derive(Clone, Copy, Debug, PartialEq, Eq, Structural)]
pub enum ConfigurationError {
    /// The horizontal alignment is none of `l`, `m`, `r`.
    UnknownHorizontalAlignment,
    /// The vertical alignment is none of `t`, `m`, `b`.
    UnknownVerticalAlignment,
    /// The wrapping strategy is none of `word`, `lines`.
    UnknownWrapMode,
}

/// The horizontal alignment that a symbol stands for: `l`, `m` or `r`.
pub open spec fn horizontal_alignment_of(symbol: Seq<char>) -> Option<AxisAlignment> {
    if symbol == "l"@ {
        Some(AxisAlignment::Start)
    } else if symbol == "m"@ {
        Some(AxisAlignment::Center)
    } else if symbol == "r"@ {
        Some(AxisAlignment::End)
    } else {
        None
    }
}

/// The vertical alignment that a symbol stands for: `t`, `m` or `b`.
pub open spec fn vertical_alignment_of(symbol: Seq<char>) -> Option<AxisAlignment> {
    if symbol == "t"@ {
        Some(AxisAlignment::Start)
    } else if symbol == "m"@ {
        Some(AxisAlignment::Center)
    } else if symbol == "b"@ {
        Some(AxisAlignment::End)
    } else {
        None
    }
}

/// The wrapping strategy that a symbol stands for: `word` or `lines`.
pub open spec fn wrap_mode_of(symbol: Seq<char>) -> Option<WrapMode> {
    if symbol == "word"@ {
        Some(WrapMode::Word)
    } else if symbol == "lines"@ {
        Some(WrapMode::Lines)
    } else {
        None
    }
}

/// What a pair of alignment symbols resolves to: the alignment, or the first
/// axis whose symbol is unknown, the horizontal one first.
pub open spec fn alignment_of(x: Seq<char>, y: Seq<char>) -> Result<Alignment, ConfigurationError> {
    match (horizontal_alignment_of(x), vertical_alignment_of(y)) {
        (None, _) => Err(ConfigurationError::UnknownHorizontalAlignment),
        (Some(_), None) => Err(ConfigurationError::UnknownVerticalAlignment),
        (Some(ax), Some(ay)) => Ok(Alignment { x: ax, y: ay }),
    }
}

/// Whether `symbol` spells exactly `literal`.
fn spells(symbol: &String, literal: &str) -> (same: bool)
    ensures
        same == (symbol@ == literal@),
{
    let expected = String::from_str(literal);
    symbol.eq(&expected)
}

/// The alignment symbols of a text block as the request carries them: `l`,
/// `m`, `r` across and `t`, `m`, `b` down. They are checked by
/// [`TextAlignment::resolve`], not on construction.
#[derive(Clone, Debug, PartialEq, Eq)]
pub struct TextAlignment {
    pub x: String,
    pub y: String,
}

impl TextAlignment {
    pub fn new(x: String, y: String) -> (alignment: Self)
        ensures
            alignment.x == x,
            alignment.y == y,
    {
        TextAlignment { x, y }
    }

    pub fn x(&self) -> (x: String)
        ensures
            x == self.x,
    {
        self.x.clone()
    }

    pub fn y(&self) -> (y: String)
        ensures
            y == self.y,
    {
        self.y.clone()
    }

    /// Validates both symbols. An unknown symbol is an error, never a silent
    /// default.
    pub fn resolve(&self) -> (resolved: Result<Alignment, ConfigurationError>)
        ensures
            resolved == alignment_of(self.x@, self.y@),
    {
        let x = if spells(&self.x, "l") {
            AxisAlignment::Start
        } else if spells(&self.x, "m") {
            AxisAlignment::Center
        } else if spells(&self.x, "r") {
            AxisAlignment::End
        } else {
            return Err(ConfigurationError::UnknownHorizontalAlignment);
        };
        let y = if spells(&self.y, "t") {
            AxisAlignment::Start
        } else if spells(&self.y, "m") {
            AxisAlignment::Center
        } else if spells(&self.y, "b") {
            AxisAlignment::End
        } else {
            return Err(ConfigurationError::UnknownVerticalAlignment);
        };
        Ok(Alignment { x, y })
    }
}

/// Validates a wrapping symbol.
pub fn parse_wrap_mode(symbol: &String) -> (mode: Result<WrapMode, ConfigurationError>)
    ensures
        mode == match wrap_mode_of(symbol@) {
            Some(m) => Ok::<WrapMode, ConfigurationError>(m),
            None => Err(ConfigurationError::UnknownWrapMode),
        },
{
    if spells(symbol, "word") {
        Ok(WrapMode::Word)
    } else if spells(symbol, "lines") {
        Ok(WrapMode::Lines)
    } else {
        Err(ConfigurationError::UnknownWrapMode)
    }
}

/// The symbols `l`, `m` and `r` are pairwise different, and so are `t`, `m`
/// and `b`, and `word` and `lines`: each symbol names one choice.
pub proof fn lemma_symbols_distinct()
    ensures
        horizontal_alignment_of("l"@) == Some(AxisAlignment::Start),
        horizontal_alignment_of("m"@) == Some(AxisAlignment::Center),
        horizontal_alignment_of("r"@) == Some(AxisAlignment::End),
        vertical_alignment_of("t"@) == Some(AxisAlignment::Start),
        vertical_alignment_of("m"@) == Some(AxisAlignment::Center),
        vertical_alignment_of("b"@) == Some(AxisAlignment::End),
        wrap_mode_of("word"@) == Some(WrapMode::Word),
        wrap_mode_of("lines"@) == Some(WrapMode::Lines),
{
    reveal_strlit("l");
    reveal_strlit("m");
    reveal_strlit("r");
    reveal_strlit("t");
    reveal_strlit("b");
    reveal_strlit("word");
    reveal_strlit("lines");
    assert("m"@[0] != "l"@[0]);
    assert("r"@[0] != "l"@[0] && "r"@[0] != "m"@[0]);
    assert("m"@[0] != "t"@[0]);
    assert("b"@[0] != "t"@[0] && "b"@[0] != "m"@[0]);
    assert("lines"@[0] != "word"@[0]);
}

} // verus!
