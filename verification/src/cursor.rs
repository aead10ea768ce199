use vstd::prelude::*;

use crate::digits::append_decimal;
use crate::digits::is_decimal_digit;
use crate::digits::lemma_decimal_digits;
use crate::digits::spec_decimal;
use crate::digits::spec_decimal_value;

verus! {

/// Set the absolute position of the cursor. x=0 y=0 is the top left of the
/// screen. Coordinates are zero-based and are rendered one-based, with the
/// row parameter before the column parameter.
pub enum CursorTo {
    TopLeft,
    AbsoluteX(u16),
    AbsoluteXY(u16, u16),
}

impl CursorTo {
    /// The escape sequence this code renders to.
    pub open spec fn spec_render(self) -> Seq<char> {
        match self {
            CursorTo::TopLeft => "\x1B[1;1H"@,
            CursorTo::AbsoluteX(x) => "\x1B["@ + spec_decimal(x as nat + 1) + "G"@,
            CursorTo::AbsoluteXY(x, y) => "\x1B["@ + spec_decimal(y as nat + 1) + ";"@
                + spec_decimal(x as nat + 1) + "H"@,
        }
    }

    pub fn render(&self) -> (r: String)
        ensures
            r@ == self.spec_render(),
    {
        match *self {
            CursorTo::TopLeft => String::from_str("\x1B[1;1H"),
            CursorTo::AbsoluteX(x) => {
                let mut out = String::from_str("\x1B[");
                append_decimal(&mut out, x as u32 + 1);
                out.append("G");
                proof {
                    assert(out@ =~= self.spec_render());
                }
                out
            },
            CursorTo::AbsoluteXY(x, y) => {
                let mut out = String::from_str("\x1B[");
                append_decimal(&mut out, y as u32 + 1);
                out.append(";");
                append_decimal(&mut out, x as u32 + 1);
                out.append("H");
                proof {
                    assert(out@ =~= self.spec_render());
                }
                out
            },
        }
    }
}

/// The escape sequence for a horizontal move by `dx` columns: forward for a
/// positive delta, backward for a negative one, nothing for zero.
pub open spec fn spec_move_x(dx: i16) -> Seq<char> {
    if dx > 0 {
        "\x1B["@ + spec_decimal(dx as nat) + "C"@
    } else if dx < 0 {
        "\x1B["@ + spec_decimal((-(dx as int)) as nat) + "D"@
    } else {
        Seq::empty()
    }
}

/// The escape sequence for a vertical move by `dy` rows: down for a
/// positive delta, up for a negative one, nothing for zero.
pub open spec fn spec_move_y(dy: i16) -> Seq<char> {
    if dy > 0 {
        "\x1B["@ + spec_decimal(dy as nat) + "B"@
    } else if dy < 0 {
        "\x1B["@ + spec_decimal((-(dy as int)) as nat) + "A"@
    } else {
        Seq::empty()
    }
}

fn append_move_x(out: &mut String, dx: i16)
    ensures
        final(out)@ == old(out)@ + spec_move_x(dx),
{
    if dx > 0 {
        out.append("\x1B[");
        append_decimal(out, dx as u32);
        out.append("C");
        proof {
            assert(out@ =~= old(out)@ + spec_move_x(dx));
        }
    } else if dx < 0 {
        out.append("\x1B[");
        let mag: u32 = (-(dx as i32)) as u32;
        append_decimal(out, mag);
        out.append("D");
        proof {
            assert(out@ =~= old(out)@ + spec_move_x(dx));
        }
    }
}

fn append_move_y(out: &mut String, dy: i16)
    ensures
        final(out)@ == old(out)@ + spec_move_y(dy),
{
    if dy > 0 {
        out.append("\x1B[");
        append_decimal(out, dy as u32);
        out.append("B");
        proof {
            assert(out@ =~= old(out)@ + spec_move_y(dy));
        }
    } else if dy < 0 {
        out.append("\x1B[");
        let mag: u32 = (-(dy as i32)) as u32;
        append_decimal(out, mag);
        out.append("A");
        proof {
            assert(out@ =~= old(out)@ + spec_move_y(dy));
        }
    }
}

/// Set the position of the cursor relative to its current position.
/// Deltas are signed; the sign picks the direction, and a zero delta on an
/// axis renders nothing for that axis.
pub enum CursorMove {
    X(i16),
    XY(i16, i16),
    Y(i16),
}

impl CursorMove {
    /// The escape sequence this code renders to. A combined move renders
    /// the horizontal part first, then the vertical part, with no
    /// separator.
    pub open spec fn spec_render(self) -> Seq<char> {
        match self {
            CursorMove::X(x) => spec_move_x(x),
            CursorMove::XY(x, y) => spec_move_x(x) + spec_move_y(y),
            CursorMove::Y(y) => spec_move_y(y),
        }
    }

    pub fn render(&self) -> (r: String)
        ensures
            r@ == self.spec_render(),
    {
        let mut out = String::new();
        match *self {
            CursorMove::X(x) => {
                append_move_x(&mut out, x);
            },
            CursorMove::XY(x, y) => {
                append_move_x(&mut out, x);
                append_move_y(&mut out, y);
            },
            CursorMove::Y(y) => {
                append_move_y(&mut out, y);
            },
        }
        proof {
            assert(out@ =~= self.spec_render());
        }
        out
    }
}

/// Law: a combined relative move renders exactly the horizontal move
/// followed by the vertical move, with nothing between them.
pub proof fn lemma_move_xy_concat(x: i16, y: i16)
    ensures
        CursorMove::XY(x, y).spec_render() == CursorMove::X(x).spec_render()
            + CursorMove::Y(y).spec_render(),
{
}

/// Move cursor up a specific amount of rows.
pub struct CursorUp(pub u16);

impl CursorUp {
    /// The escape sequence this code renders to.
    pub open spec fn spec_render(self) -> Seq<char> {
        "\x1B["@ + spec_decimal(self.0 as nat) + "A"@
    }

    pub fn render(&self) -> (r: String)
        ensures
            r@ == self.spec_render(),
    {
        let mut out = String::from_str("\x1B[");
        append_decimal(&mut out, self.0 as u32);
        out.append("A");
        proof {
            assert(out@ =~= self.spec_render());
        }
        out
    }
}

/// Move cursor down a specific amount of rows.
pub struct CursorDown(pub u16);

impl CursorDown {
    /// The escape sequence this code renders to.
    pub open spec fn spec_render(self) -> Seq<char> {
        "\x1B["@ + spec_decimal(self.0 as nat) + "B"@
    }

    pub fn render(&self) -> (r: String)
        ensures
            r@ == self.spec_render(),
    {
        let mut out = String::from_str("\x1B[");
        append_decimal(&mut out, self.0 as u32);
        out.append("B");
        proof {
            assert(out@ =~= self.spec_render());
        }
        out
    }
}

/// Move cursor forward a specific amount of columns.
pub struct CursorForward(pub u16);

impl CursorForward {
    /// The escape sequence this code renders to.
    pub open spec fn spec_render(self) -> Seq<char> {
        "\x1B["@ + spec_decimal(self.0 as nat) + "C"@
    }

    pub fn render(&self) -> (r: String)
        ensures
            r@ == self.spec_render(),
    {
        let mut out = String::from_str("\x1B[");
        append_decimal(&mut out, self.0 as u32);
        out.append("C");
        proof {
            assert(out@ =~= self.spec_render());
        }
        out
    }
}

/// Move cursor backward a specific amount of columns.
pub struct CursorBackward(pub u16);

impl CursorBackward {
    /// The escape sequence this code renders to.
    pub open spec fn spec_render(self) -> Seq<char> {
        "\x1B["@ + spec_decimal(self.0 as nat) + "D"@
    }

    pub fn render(&self) -> (r: String)
        ensures
            r@ == self.spec_render(),
    {
        let mut out = String::from_str("\x1B[");
        append_decimal(&mut out, self.0 as u32);
        out.append("D");
        proof {
            assert(out@ =~= self.spec_render());
        }
        out
    }
}

/// Law: for every count, each directional mover renders the two-character
/// control sequence introducer, then the count as plain decimal digits —
/// at least one digit, none but digit characters, no leading zero when the
/// count is positive, and decoding back to the count — then its direction
/// letter.
pub proof fn lemma_directional_render(n: u16)
    ensures
        CursorUp(n).spec_render() == "\x1B["@ + spec_decimal(n as nat) + "A"@,
        CursorDown(n).spec_render() == "\x1B["@ + spec_decimal(n as nat) + "B"@,
        CursorForward(n).spec_render() == "\x1B["@ + spec_decimal(n as nat) + "C"@,
        CursorBackward(n).spec_render() == "\x1B["@ + spec_decimal(n as nat) + "D"@,
        spec_decimal(n as nat).len() >= 1,
        forall|i: int|
            0 <= i < spec_decimal(n as nat).len() ==> is_decimal_digit(
                #[trigger] spec_decimal(n as nat)[i],
            ),
        n >= 1 ==> spec_decimal(n as nat)[0] != '0',
        spec_decimal_value(spec_decimal(n as nat)) == n,
{
    lemma_decimal_digits(n as nat);
}

/// Law: the top-left code renders the same sequence as absolute
/// positioning at column zero, row zero.
pub proof fn lemma_top_left_is_origin()
    ensures
        CursorTo::TopLeft.spec_render() == CursorTo::AbsoluteXY(0, 0).spec_render(),
{
    reveal_strlit("\x1B[1;1H");
    reveal_strlit("\x1B[");
    reveal_strlit(";");
    reveal_strlit("H");
    assert(spec_decimal(1) =~= seq!['1']);
    assert(CursorTo::TopLeft.spec_render() =~= CursorTo::AbsoluteXY(0, 0).spec_render());
}

/// Move cursor to the left side of the current row.
pub struct CursorLeft;

impl CursorLeft {
    /// The escape sequence this code renders to, the same every time.
    pub open spec fn spec_render(self) -> Seq<char> {
        "\x1B[1000D"@
    }

    pub fn render(&self) -> (r: String)
        ensures
            r@ == self.spec_render(),
    {
        String::from_str("\x1B[1000D")
    }
}

/// Save cursor position.
pub struct CursorSavePosition;

impl CursorSavePosition {
    /// The escape sequence this code renders to, the same every time.
    pub open spec fn spec_render(self) -> Seq<char> {
        "\x1B[s"@
    }

    pub fn render(&self) -> (r: String)
        ensures
            r@ == self.spec_render(),
    {
        String::from_str("\x1B[s")
    }
}

/// Restore saved cursor position.
pub struct CursorRestorePosition;

impl CursorRestorePosition {
    /// The escape sequence this code renders to, the same every time.
    pub open spec fn spec_render(self) -> Seq<char> {
        "\x1B[u"@
    }

    pub fn render(&self) -> (r: String)
        ensures
            r@ == self.spec_render(),
    {
        String::from_str("\x1B[u")
    }
}

/// Ask the terminal to report the cursor position. This library only emits
/// the request; reading the terminal's reply is the caller's concern.
pub struct CursorGetPosition;

impl CursorGetPosition {
    /// The escape sequence this code renders to, the same every time.
    pub open spec fn spec_render(self) -> Seq<char> {
        "\x1B[6n"@
    }

    pub fn render(&self) -> (r: String)
        ensures
            r@ == self.spec_render(),
    {
        String::from_str("\x1B[6n")
    }
}

/// Move cursor to the next line.
pub struct CursorNextLine;

impl CursorNextLine {
    /// The escape sequence this code renders to, the same every time.
    pub open spec fn spec_render(self) -> Seq<char> {
        "\x1B[E"@
    }

    pub fn render(&self) -> (r: String)
        ensures
            r@ == self.spec_render(),
    {
        String::from_str("\x1B[E")
    }
}

/// Move cursor to the previous line.
pub struct CursorPrevLine;

impl CursorPrevLine {
    /// The escape sequence this code renders to, the same every time.
    pub open spec fn spec_render(self) -> Seq<char> {
        "\x1B[F"@
    }

    pub fn render(&self) -> (r: String)
        ensures
            r@ == self.spec_render(),
    {
        String::from_str("\x1B[F")
    }
}

/// Hide cursor.
pub struct CursorHide;

impl CursorHide {
    /// The escape sequence this code renders to, the same every time.
    pub open spec fn spec_render(self) -> Seq<char> {
        "\x1B[?25l"@
    }

    pub fn render(&self) -> (r: String)
        ensures
            r@ == self.spec_render(),
    {
        String::from_str("\x1B[?25l")
    }
}

/// Show cursor.
pub struct CursorShow;

impl CursorShow {
    /// The escape sequence this code renders to, the same every time.
    pub open spec fn spec_render(self) -> Seq<char> {
        "\x1B[?25h"@
    }

    pub fn render(&self) -> (r: String)
        ensures
            r@ == self.spec_render(),
    {
        String::from_str("\x1B[?25h")
    }
}

} // verus!
