use vstd::prelude::*;

use crate::cursor::CursorLeft;
use crate::cursor::CursorUp;
use crate::digits::spec_decimal;

verus! {

/// Erase from the current cursor position to the end of the current line.
pub struct EraseEndLine;

impl EraseEndLine {
    /// The escape sequence this code renders to, the same every time.
    pub open spec fn spec_render(self) -> Seq<char> {
        "\x1B[K"@
    }

    pub fn render(&self) -> (r: String)
        ensures
            r@ == self.spec_render(),
    {
        String::from_str("\x1B[K")
    }
}

/// Erase from the current cursor position to the start of the current line.
pub struct EraseStartLine;

impl EraseStartLine {
    /// The escape sequence this code renders to, the same every time.
    pub open spec fn spec_render(self) -> Seq<char> {
        "\x1B[1K"@
    }

    pub fn render(&self) -> (r: String)
        ensures
            r@ == self.spec_render(),
    {
        String::from_str("\x1B[1K")
    }
}

/// Erase the entire current line.
pub struct EraseLine;

impl EraseLine {
    /// The escape sequence this code renders to, the same every time.
    pub open spec fn spec_render(self) -> Seq<char> {
        "\x1B[2K"@
    }

    pub fn render(&self) -> (r: String)
        ensures
            r@ == self.spec_render(),
    {
        String::from_str("\x1B[2K")
    }
}

/// Erase the screen from the current line down to the bottom of the screen.
pub struct EraseDown;

impl EraseDown {
    /// The escape sequence this code renders to, the same every time.
    pub open spec fn spec_render(self) -> Seq<char> {
        "\x1B[J"@
    }

    pub fn render(&self) -> (r: String)
        ensures
            r@ == self.spec_render(),
    {
        String::from_str("\x1B[J")
    }
}

/// Erase the screen from the current line up to the top of the screen.
pub struct EraseUp;

impl EraseUp {
    /// The escape sequence this code renders to, the same every time.
    pub open spec fn spec_render(self) -> Seq<char> {
        "\x1B[1J"@
    }

    pub fn render(&self) -> (r: String)
        ensures
            r@ == self.spec_render(),
    {
        String::from_str("\x1B[1J")
    }
}

/// Erase the screen and move the cursor to the top left position.
pub struct EraseScreen;

impl EraseScreen {
    /// The escape sequence this code renders to, the same every time.
    pub open spec fn spec_render(self) -> Seq<char> {
        "\x1B[2J"@
    }

    pub fn render(&self) -> (r: String)
        ensures
            r@ == self.spec_render(),
    {
        String::from_str("\x1B[2J")
    }
}

/// The escape sequence that erases `n` lines: one move-to-line-start plus
/// erase-to-end-of-line block per line, with a single one-row up-move
/// between consecutive blocks — not before the first nor after the last.
/// Zero lines render nothing.
pub open spec fn spec_erase_lines(n: nat) -> Seq<char>
    decreases n,
{
    if n == 0 {
        Seq::empty()
    } else {
        spec_erase_lines((n - 1) as nat) + (if n > 1 {
            CursorUp(1).spec_render()
        } else {
            Seq::<char>::empty()
        }) + CursorLeft.spec_render() + EraseEndLine.spec_render()
    }
}

/// Law: erasing `n` lines renders `n` erase blocks with exactly `n - 1`
/// up-moves between them. Each block is the seven-character
/// move-to-line-start plus the three-character erase-to-end-of-line, and
/// each up-move is four characters, so `n >= 1` lines render
/// `14 * n - 4` characters; zero lines render nothing.
pub proof fn lemma_erase_lines_len(n: nat)
    ensures
        n == 0 ==> spec_erase_lines(n).len() == 0,
        n >= 1 ==> spec_erase_lines(n).len() == 14 * n - 4,
    decreases n,
{
    reveal_strlit("\x1B[1000D");
    reveal_strlit("\x1B[K");
    reveal_strlit("\x1B[");
    reveal_strlit("A");
    if n > 0 {
        lemma_erase_lines_len((n - 1) as nat);
        assert(spec_decimal(1) =~= seq!['1']);
    }
}

/// Erase from the current cursor position up the specified amount of rows,
/// the current line included, leaving the cursor at the start of the
/// topmost erased line.
pub struct EraseLines(pub u16);

impl EraseLines {
    /// The escape sequence this code renders to.
    pub open spec fn spec_render(self) -> Seq<char> {
        spec_erase_lines(self.0 as nat)
    }

    pub fn render(&self) -> (r: String)
        ensures
            r@ == self.spec_render(),
    {
        let n = self.0;
        let mut out = String::new();
        let mut idx: u16 = 0;
        while idx < n
            invariant
                idx <= n,
                out@ == spec_erase_lines(idx as nat),
            decreases n - idx,
        {
            if idx > 0 {
                let up = CursorUp(1).render();
                out.append(up.as_str());
            }
            let left = CursorLeft.render();
            out.append(left.as_str());
            let end = EraseEndLine.render();
            out.append(end.as_str());
            proof {
                assert(out@ =~= spec_erase_lines((idx + 1) as nat));
            }
            idx = idx + 1;
        }
        out
    }
}

} // verus!
