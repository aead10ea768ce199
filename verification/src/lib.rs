//! ANSI terminal escape sequences, rendered as strings whose exact
//! contents are stated in each code's contract.
//!
//! Every code is an immutable value with a `render` method; rendering is a
//! pure function of the value, so two renders of the same code always give
//! the same bytes. Writing the rendered text to a terminal is the caller's
//! concern.

mod cursor;
mod digits;
mod erase;
mod screen;

pub use cursor::lemma_directional_render;
pub use cursor::lemma_move_xy_concat;
pub use cursor::lemma_top_left_is_origin;
pub use cursor::spec_move_x;
pub use cursor::spec_move_y;
pub use cursor::CursorBackward;
pub use cursor::CursorDown;
pub use cursor::CursorForward;
pub use cursor::CursorGetPosition;
pub use cursor::CursorHide;
pub use cursor::CursorLeft;
pub use cursor::CursorMove;
pub use cursor::CursorNextLine;
pub use cursor::CursorPrevLine;
pub use cursor::CursorRestorePosition;
pub use cursor::CursorSavePosition;
pub use cursor::CursorShow;
pub use cursor::CursorTo;
pub use cursor::CursorUp;
pub use digits::is_decimal_digit;
pub use digits::lemma_decimal_digits;
pub use digits::spec_decimal;
pub use digits::spec_decimal_value;
pub use digits::spec_digit;
pub use digits::spec_digit_value;
pub use erase::lemma_erase_lines_len;
pub use erase::spec_erase_lines;
pub use erase::EraseDown;
pub use erase::EraseEndLine;
pub use erase::EraseLine;
pub use erase::EraseLines;
pub use erase::EraseScreen;
pub use erase::EraseStartLine;
pub use erase::EraseUp;
pub use screen::Beep;
pub use screen::ClearScreen;
pub use screen::EnterAlternativeScreen;
pub use screen::ExitAlternativeScreen;
pub use screen::ScrollDown;
pub use screen::ScrollUp;
