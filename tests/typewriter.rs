use rpg_window::game_settings_manager::GameSettingsManager;
use rpg_window::graphics::{Color, DrawOp, IntRect};
use rpg_window::iconset::Iconset;
use rpg_window::text_window::{TextWindow, TextWindowState};
use rpg_window::window::{Skin, WindowState};

fn settings() -> GameSettingsManager {
    let mut pixels = Vec::new();
    for y in 0..128u32 {
        for x in 0..128u32 {
            pixels.push(Color { r: x as u8, g: y as u8, b: 1, a: 255 });
        }
    }
    let skin = Skin { width: 128, height: 128, pixels };
    GameSettingsManager::new(18, Iconset::new(240, 240, 24), skin)
}

/// A text window whose frame has finished opening.
fn opened(settings: &GameSettingsManager, text: &str) -> TextWindow {
    let mut tw = TextWindow::new(settings, text, 0, 50, 500, 200);
    for _ in 0..5 {
        tw.update();
        assert_eq!(tw.revealed_count(), 0);
    }
    assert!(tw.window().is_open());
    tw
}

fn drawn(tw: &TextWindow) -> String {
    tw.current_text().iter().collect()
}

#[test]
fn nothing_is_typed_while_the_frame_opens() {
    let s = settings();
    let mut tw = TextWindow::new(&s, "abc", 0, 0, 100, 100);
    for _ in 0..5 {
        tw.update();
    }
    assert_eq!(tw.revealed_count(), 0);
    assert_eq!(tw.get_state(), TextWindowState::Typing);
    tw.update();
    assert_eq!(tw.revealed_count(), 1);
}

#[test]
fn plain_text_finishes_in_its_length() {
    let s = settings();
    let mut tw = opened(&s, "Hello");
    for k in 1..5usize {
        tw.update();
        assert_eq!(tw.revealed_count(), k);
        assert_eq!(tw.get_state(), TextWindowState::Typing);
    }
    tw.update();
    assert_eq!(tw.get_state(), TextWindowState::Done);
    assert_eq!(drawn(&tw), "Hello");
    tw.update();
    assert_eq!(tw.get_state(), TextWindowState::Done);
    assert_eq!(drawn(&tw), "Hello");
}

#[test]
fn glyphs_are_drawn_at_the_pen() {
    let s = settings();
    let mut tw = opened(&s, "ab");
    tw.update();
    tw.advance_pen(9);
    tw.update();
    let ops = tw.window().get_contents();
    let white = Color { r: 255, g: 255, b: 255, a: 255 };
    assert_eq!(ops[0], DrawOp::Glyph { ch: 'a', x: 0, y: 0, size: 18, color: white });
    assert_eq!(ops[1], DrawOp::Glyph { ch: 'b', x: 9, y: 0, size: 18, color: white });
}

#[test]
fn icon_code_draws_one_icon_and_no_text() {
    let s = settings();
    let mut tw = opened(&s, "a\\i[7]b");
    tw.update();
    tw.advance_pen(10);
    tw.update();
    assert_eq!(drawn(&tw), "a");
    assert_eq!(tw.revealed_count(), 6);
    let ops = tw.window().get_contents();
    assert_eq!(ops.len(), 2);
    assert_eq!(
        ops[1],
        DrawOp::Icon { source: IntRect { left: 168, top: 0, width: 24, height: 24 }, x: 10, y: 0 }
    );
    assert_eq!(tw.pen_position(), (34, 0));
    tw.update();
    assert_eq!(drawn(&tw), "ab");
    assert_eq!(tw.get_state(), TextWindowState::Done);
}

#[test]
fn pause_code_holds_for_its_ticks() {
    let s = settings();
    let mut tw = opened(&s, "\\p[3]ab");
    tw.update();
    assert_eq!(tw.get_state(), TextWindowState::Paused(3));
    let after_code = tw.revealed_count();
    for _ in 0..3 {
        tw.update();
        assert_eq!(tw.revealed_count(), after_code);
        assert_eq!(drawn(&tw), "");
    }
    assert_eq!(tw.get_state(), TextWindowState::Typing);
    tw.update();
    assert_eq!(drawn(&tw), "a");
}

#[test]
fn pause_scenario_hi_bang() {
    let s = settings();
    let mut tw = opened(&s, "Hi\\p[2]!");
    tw.update();
    assert_eq!(drawn(&tw), "H");
    tw.update();
    assert_eq!(drawn(&tw), "Hi");
    tw.update();
    assert_eq!(drawn(&tw), "Hi");
    assert_eq!(tw.get_state(), TextWindowState::Paused(2));
    tw.update();
    assert_eq!(tw.get_state(), TextWindowState::Paused(1));
    assert_eq!(drawn(&tw), "Hi");
    tw.update();
    assert_eq!(tw.get_state(), TextWindowState::Typing);
    assert_eq!(drawn(&tw), "Hi");
    tw.update();
    assert_eq!(drawn(&tw), "Hi!");
    assert_eq!(tw.get_state(), TextWindowState::Done);
}

#[test]
fn zero_pause_does_not_pause() {
    let s = settings();
    let mut tw = opened(&s, "\\p[0]a");
    tw.update();
    assert_eq!(tw.get_state(), TextWindowState::Typing);
    tw.update();
    assert_eq!(drawn(&tw), "a");
}

#[test]
fn color_and_size_codes_change_the_style() {
    let s = settings();
    let mut tw = opened(&s, "\\c[9]\\s[24]x");
    tw.update();
    assert_eq!(tw.text_color(), Color { r: 72, g: 104, b: 1, a: 255 });
    tw.update();
    assert_eq!(tw.font_size(), 24);
    tw.update();
    let ops = tw.window().get_contents();
    assert_eq!(
        ops[0],
        DrawOp::Glyph { ch: 'x', x: 0, y: 0, size: 24, color: Color { r: 72, g: 104, b: 1, a: 255 } }
    );
}

#[test]
fn color_code_past_palette_uses_color_zero() {
    let s = settings();
    let mut tw = opened(&s, "\\c[40]x");
    tw.update();
    assert_eq!(tw.text_color(), tw.window().get_color(0));
}

#[test]
fn malformed_size_falls_back_to_default() {
    let s = settings();
    let mut tw = opened(&s, "\\s[big]x");
    tw.update();
    assert_eq!(tw.font_size(), 18);
}

#[test]
fn unknown_code_is_skipped() {
    let s = settings();
    let mut tw = opened(&s, "\\q[1]z");
    tw.update();
    assert_eq!(drawn(&tw), "");
    assert_eq!(tw.get_state(), TextWindowState::Typing);
    tw.update();
    assert_eq!(drawn(&tw), "z");
}

#[test]
fn newline_moves_pen_down_by_font_size() {
    let s = settings();
    let mut tw = opened(&s, "a\nb");
    tw.update();
    tw.advance_pen(11);
    tw.update();
    assert_eq!(tw.pen_position(), (0, 18));
    tw.update();
    assert_eq!(drawn(&tw), "ab");
    assert_eq!(tw.get_state(), TextWindowState::Done);
}

#[test]
fn code_at_the_end_finishes_the_text() {
    let s = settings();
    let mut tw = opened(&s, "a\\p[5]");
    tw.update();
    tw.update();
    assert_eq!(tw.get_state(), TextWindowState::Done);
}

#[test]
fn unterminated_code_finishes_the_text() {
    let s = settings();
    let mut tw = opened(&s, "a\\i[3");
    tw.update();
    tw.update();
    assert_eq!(tw.revealed_count(), 5);
    assert_eq!(tw.get_state(), TextWindowState::Done);
}

#[test]
fn empty_text_is_done_after_one_tick() {
    let s = settings();
    let mut tw = opened(&s, "");
    tw.update();
    assert_eq!(tw.get_state(), TextWindowState::Done);
    assert_eq!(tw.revealed_count(), 0);
}

#[test]
fn reset_clears_everything() {
    let s = settings();
    let mut tw = opened(&s, "ab\\p[4]cd");
    for _ in 0..4 {
        tw.update();
        tw.advance_pen(8);
    }
    tw.reset();
    assert_eq!(tw.get_state(), TextWindowState::Typing);
    assert_eq!(tw.revealed_count(), 0);
    assert_eq!(tw.pen_position(), (0, 0));
    assert!(tw.window().get_contents().is_empty());
    assert_eq!(drawn(&tw), "");
}

#[test]
fn change_text_starts_over_with_new_text() {
    let s = settings();
    let mut tw = opened(&s, "abc");
    tw.update();
    tw.change_text("Test 2");
    assert_eq!(tw.revealed_count(), 0);
    for _ in 0..6 {
        tw.update();
    }
    assert_eq!(drawn(&tw), "Test 2");
    assert_eq!(tw.get_state(), TextWindowState::Done);
}

#[test]
fn set_state_closes_the_frame_and_stops_typing() {
    let s = settings();
    let mut tw = opened(&s, "abcdef");
    tw.update();
    tw.set_state(WindowState::Closing);
    assert_eq!(tw.window().get_state(), WindowState::Closing);
    tw.update();
    assert_eq!(tw.revealed_count(), 1);
    assert_eq!(tw.window().get_openness(), 4);
}
