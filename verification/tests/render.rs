use ansi_escapes::Beep;
use ansi_escapes::ClearScreen;
use ansi_escapes::CursorBackward;
use ansi_escapes::CursorDown;
use ansi_escapes::CursorForward;
use ansi_escapes::CursorGetPosition;
use ansi_escapes::CursorHide;
use ansi_escapes::CursorLeft;
use ansi_escapes::CursorMove;
use ansi_escapes::CursorNextLine;
use ansi_escapes::CursorPrevLine;
use ansi_escapes::CursorRestorePosition;
use ansi_escapes::CursorSavePosition;
use ansi_escapes::CursorShow;
use ansi_escapes::CursorTo;
use ansi_escapes::CursorUp;
use ansi_escapes::EnterAlternativeScreen;
use ansi_escapes::EraseDown;
use ansi_escapes::EraseEndLine;
use ansi_escapes::EraseLine;
use ansi_escapes::EraseLines;
use ansi_escapes::EraseScreen;
use ansi_escapes::EraseStartLine;
use ansi_escapes::EraseUp;
use ansi_escapes::ExitAlternativeScreen;
use ansi_escapes::ScrollDown;
use ansi_escapes::ScrollUp;

#[test]
fn cursor_up_1() {
    assert_eq!(CursorUp(1).render(), "\x1B[1A");
}

#[test]
fn cursor_up_23() {
    assert_eq!(CursorUp(23).render(), "\x1B[23A");
}

#[test]
fn cursor_down_1() {
    assert_eq!(CursorDown(1).render(), "\x1B[1B");
}

#[test]
fn cursor_down_23() {
    assert_eq!(CursorDown(23).render(), "\x1B[23B");
}

#[test]
fn cursor_forward_1() {
    assert_eq!(CursorForward(1).render(), "\x1B[1C");
}

#[test]
fn cursor_forward_23() {
    assert_eq!(CursorForward(23).render(), "\x1B[23C");
}

#[test]
fn cursor_backward_1() {
    assert_eq!(CursorBackward(1).render(), "\x1B[1D");
}

#[test]
fn cursor_backward_23() {
    assert_eq!(CursorBackward(23).render(), "\x1B[23D");
}

#[test]
fn cursor_left() {
    assert_eq!(CursorLeft.render(), "\x1B[1000D");
}

#[test]
fn cursor_save_position() {
    assert_eq!(CursorSavePosition.render(), "\x1B[s");
}

#[test]
fn cursor_restore_position() {
    assert_eq!(CursorRestorePosition.render(), "\x1B[u");
}

#[test]
fn cursor_get_position() {
    assert_eq!(CursorGetPosition.render(), "\x1B[6n");
}

#[test]
fn cursor_next_line() {
    assert_eq!(CursorNextLine.render(), "\x1B[E");
}

#[test]
fn cursor_prev_line() {
    assert_eq!(CursorPrevLine.render(), "\x1B[F");
}

#[test]
fn cursor_hide() {
    assert_eq!(CursorHide.render(), "\x1B[?25l");
}

#[test]
fn cursor_show() {
    assert_eq!(CursorShow.render(), "\x1B[?25h");
}

#[test]
fn erase_lines_1() {
    assert_eq!(EraseLines(1).render(), "\x1B[1000D\x1B[K");
}

#[test]
fn erase_lines_2() {
    assert_eq!(EraseLines(2).render(), "\x1B[1000D\x1B[K\x1B[1A\x1B[1000D\x1B[K");
}

#[test]
fn erase_lines_3() {
    assert_eq!(
        EraseLines(3).render(),
        "\x1B[1000D\x1B[K\x1B[1A\x1B[1000D\x1B[K\x1B[1A\x1B[1000D\x1B[K"
    );
}

#[test]
fn erase_lines_0_is_empty() {
    assert_eq!(EraseLines(0).render(), "");
}

#[test]
fn cursor_up_0_renders_literal_zero() {
    assert_eq!(CursorUp(0).render(), "\x1B[0A");
}

#[test]
fn cursor_up_largest_count() {
    assert_eq!(CursorUp(65535).render(), "\x1B[65535A");
}

#[test]
fn cursor_to_top_left() {
    assert_eq!(CursorTo::TopLeft.render(), "\x1B[1;1H");
}

#[test]
fn cursor_to_absolute_x_0() {
    assert_eq!(CursorTo::AbsoluteX(0).render(), "\x1B[1G");
}

#[test]
fn cursor_to_absolute_x_9() {
    assert_eq!(CursorTo::AbsoluteX(9).render(), "\x1B[10G");
}

#[test]
fn cursor_to_absolute_x_largest() {
    assert_eq!(CursorTo::AbsoluteX(65535).render(), "\x1B[65536G");
}

#[test]
fn cursor_to_absolute_xy() {
    assert_eq!(CursorTo::AbsoluteXY(4, 2).render(), "\x1B[3;5H");
}

#[test]
fn cursor_to_absolute_xy_origin() {
    assert_eq!(CursorTo::AbsoluteXY(0, 0).render(), "\x1B[1;1H");
}

#[test]
fn cursor_move_x_zero_is_empty() {
    assert_eq!(CursorMove::X(0).render(), "");
}

#[test]
fn cursor_move_x_positive() {
    assert_eq!(CursorMove::X(5).render(), "\x1B[5C");
}

#[test]
fn cursor_move_x_negative() {
    assert_eq!(CursorMove::X(-5).render(), "\x1B[5D");
}

#[test]
fn cursor_move_x_extremes() {
    assert_eq!(CursorMove::X(32767).render(), "\x1B[32767C");
    assert_eq!(CursorMove::X(-32768).render(), "\x1B[32768D");
}

#[test]
fn cursor_move_y_zero_is_empty() {
    assert_eq!(CursorMove::Y(0).render(), "");
}

#[test]
fn cursor_move_y_positive() {
    assert_eq!(CursorMove::Y(4).render(), "\x1B[4B");
}

#[test]
fn cursor_move_y_negative() {
    assert_eq!(CursorMove::Y(-2).render(), "\x1B[2A");
}

#[test]
fn cursor_move_xy_is_x_then_y() {
    assert_eq!(CursorMove::XY(3, -2).render(), "\x1B[3C\x1B[2A");
    let expected = format!("{}{}", CursorMove::X(3).render(), CursorMove::Y(-2).render());
    assert_eq!(CursorMove::XY(3, -2).render(), expected);
}

#[test]
fn cursor_move_xy_zero_axes() {
    assert_eq!(CursorMove::XY(0, 0).render(), "");
    assert_eq!(CursorMove::XY(0, 7).render(), "\x1B[7B");
    assert_eq!(CursorMove::XY(-7, 0).render(), "\x1B[7D");
}

#[test]
fn erase_end_line() {
    assert_eq!(EraseEndLine.render(), "\x1B[K");
}

#[test]
fn erase_start_line() {
    assert_eq!(EraseStartLine.render(), "\x1B[1K");
}

#[test]
fn erase_line() {
    assert_eq!(EraseLine.render(), "\x1B[2K");
}

#[test]
fn erase_down() {
    assert_eq!(EraseDown.render(), "\x1B[J");
}

#[test]
fn erase_up() {
    assert_eq!(EraseUp.render(), "\x1B[1J");
}

#[test]
fn erase_screen() {
    assert_eq!(EraseScreen.render(), "\x1B[2J");
}

#[test]
fn scroll_up() {
    assert_eq!(ScrollUp.render(), "\x1B[S");
}

#[test]
fn scroll_down() {
    assert_eq!(ScrollDown.render(), "\x1B[T");
}

#[test]
fn clear_screen() {
    assert_eq!(ClearScreen.render(), "\x1Bc");
}

#[test]
fn enter_alternative_screen() {
    assert_eq!(EnterAlternativeScreen.render(), "\x1B[?1049h");
}

#[test]
fn exit_alternative_screen() {
    assert_eq!(ExitAlternativeScreen.render(), "\x1B[?1049l");
}

#[test]
fn beep() {
    assert_eq!(Beep.render(), "\x07");
}

#[test]
fn rendering_twice_gives_identical_bytes() {
    assert_eq!(CursorUp(12).render(), CursorUp(12).render());
    assert_eq!(CursorTo::AbsoluteXY(4, 2).render(), CursorTo::AbsoluteXY(4, 2).render());
    assert_eq!(CursorMove::XY(3, -2).render(), CursorMove::XY(3, -2).render());
    assert_eq!(EraseLines(3).render(), EraseLines(3).render());
    assert_eq!(ClearScreen.render(), ClearScreen.render());
}

#[test]
fn erase_lines_length_matches_block_count() {
    assert_eq!(EraseLines(0).render().chars().count(), 0);
    assert_eq!(EraseLines(1).render().chars().count(), 10);
    assert_eq!(EraseLines(5).render().chars().count(), 14 * 5 - 4);
}
