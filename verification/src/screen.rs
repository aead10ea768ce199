use vstd::prelude::*;

verus! {

/// Scroll display up one line.
pub struct ScrollUp;

impl ScrollUp {
    /// The escape sequence this code renders to, the same every time.
    pub open spec fn spec_render(self) -> Seq<char> {
        "\x1B[S"@
    }

    pub fn render(&self) -> (r: String)
        ensures
            r@ == self.spec_render(),
    {
        String::from_str("\x1B[S")
    }
}

/// Scroll display down one line.
pub struct ScrollDown;

impl ScrollDown {
    /// The escape sequence this code renders to, the same every time.
    pub open spec fn spec_render(self) -> Seq<char> {
        "\x1B[T"@
    }

    pub fn render(&self) -> (r: String)
        ensures
            r@ == self.spec_render(),
    {
        String::from_str("\x1B[T")
    }
}

/// Clear the terminal screen.
pub struct ClearScreen;

impl ClearScreen {
    /// The escape sequence this code renders to, the same every time.
    pub open spec fn spec_render(self) -> Seq<char> {
        "\x1Bc"@
    }

    pub fn render(&self) -> (r: String)
        ensures
            r@ == self.spec_render(),
    {
        String::from_str("\x1Bc")
    }
}

/// Enter the alternative screen, a secondary display buffer that
/// full-screen applications can switch into and later restore from.
pub struct EnterAlternativeScreen;

impl EnterAlternativeScreen {
    /// The escape sequence this code renders to, the same every time.
    pub open spec fn spec_render(self) -> Seq<char> {
        "\x1B[?1049h"@
    }

    pub fn render(&self) -> (r: String)
        ensures
            r@ == self.spec_render(),
    {
        String::from_str("\x1B[?1049h")
    }
}

/// Exit the alternative screen, restoring the original screen content.
pub struct ExitAlternativeScreen;

impl ExitAlternativeScreen {
    /// The escape sequence this code renders to, the same every time.
    pub open spec fn spec_render(self) -> Seq<char> {
        "\x1B[?1049l"@
    }

    pub fn render(&self) -> (r: String)
        ensures
            r@ == self.spec_render(),
    {
        String::from_str("\x1B[?1049l")
    }
}

/// Output a beeping sound: the single control byte for the terminal bell.
pub struct Beep;

impl Beep {
    /// The character this code renders to, the same every time.
    pub open spec fn spec_render(self) -> Seq<char> {
        "\x07"@
    }

    pub fn render(&self) -> (r: String)
        ensures
            r@ == self.spec_render(),
    {
        String::from_str("\x07")
    }
}

} // verus!
