use rpg_window::graphics::{saturating_add, Color, IntRect, Placement};
use rpg_window::iconset::Iconset;
use rpg_window::window::{Skin, Window, WindowState};

fn test_skin() -> Skin {
    let mut pixels = Vec::new();
    for y in 0..128u32 {
        for x in 0..128u32 {
            pixels.push(Color { r: x as u8, g: y as u8, b: 7, a: 255 });
        }
    }
    Skin { width: 128, height: 128, pixels }
}

#[test]
fn window_opens_in_exactly_five_updates() {
    let skin = test_skin();
    let mut w = Window::new(&skin, 0, 50, 500, 200);
    assert_eq!(w.get_state(), WindowState::Opening);
    assert_eq!(w.get_openness(), 0);
    for k in 1..5u32 {
        w.update();
        assert_eq!(w.get_openness(), k);
        assert_eq!(w.get_state(), WindowState::Opening);
        assert!(!w.is_open());
    }
    w.update();
    assert_eq!(w.get_openness(), 5);
    assert_eq!(w.get_state(), WindowState::Static);
    assert!(w.is_open());
    for _ in 0..3 {
        w.update();
        assert_eq!(w.get_openness(), 5);
    }
}

#[test]
fn window_closes_to_zero_and_settles() {
    let skin = test_skin();
    let mut w = Window::new(&skin, 0, 0, 100, 100);
    for _ in 0..5 {
        w.update();
    }
    w.set_state(WindowState::Closing);
    for k in (0..5u32).rev() {
        w.update();
        assert_eq!(w.get_openness(), k);
    }
    assert_eq!(w.get_state(), WindowState::Static);
    assert!(!w.is_open());
}

#[test]
fn palette_color_reads_its_swatch() {
    let skin = test_skin();
    let w = Window::new(&skin, 0, 0, 100, 100);
    assert_eq!(w.get_color(0), Color { r: 64, g: 96, b: 7, a: 255 });
    assert_eq!(w.get_color(9), Color { r: 72, g: 104, b: 7, a: 255 });
    assert_eq!(w.get_color(31), Color { r: 120, g: 120, b: 7, a: 255 });
    assert_eq!(w.get_color(9), w.get_color(9));
}

#[test]
fn palette_color_past_the_palette_is_color_zero() {
    let skin = test_skin();
    let w = Window::new(&skin, 0, 0, 100, 100);
    assert_eq!(w.get_color(32), w.get_color(0));
    assert_eq!(w.get_color(1000), w.get_color(0));
    assert_eq!(w.get_color(u32::MAX), w.get_color(0));
}

#[test]
fn skin_validity() {
    assert!(test_skin().is_well_formed());
    let small = Skin { width: 64, height: 64, pixels: vec![Color { r: 0, g: 0, b: 0, a: 0 }; 64 * 64] };
    assert!(!small.is_well_formed());
    let short = Skin { width: 128, height: 128, pixels: vec![Color { r: 0, g: 0, b: 0, a: 0 }; 10] };
    assert!(!short.is_well_formed());
}

#[test]
fn frame_is_nine_slices_background_first() {
    let skin = test_skin();
    let w = Window::new(&skin, 10, 20, 200, 100);
    let frame = w.get_frame();
    assert_eq!(frame.len(), 9);
    assert_eq!(frame[0].source, IntRect { left: 0, top: 0, width: 64, height: 64 });
    assert_eq!(frame[0].dest, Placement { x: 2, y: 2, width: 195, height: 95 });
    assert_eq!(frame[2].dest, Placement { x: 184, y: 0, width: 16, height: 16 });
    assert_eq!(frame[4].source, IntRect { left: 112, top: 48, width: 16, height: 16 });
    assert_eq!(frame[4].dest, Placement { x: 184, y: 84, width: 16, height: 16 });
    assert_eq!(frame[5].dest, Placement { x: 16, y: 0, width: 168, height: 16 });
    assert_eq!(frame[8].source, IntRect { left: 112, top: 16, width: 16, height: 32 });
    assert_eq!(frame[8].dest, Placement { x: 184, y: 16, width: 16, height: 68 });
}

#[test]
fn content_layer_is_offset_and_drawn_with_openness() {
    let skin = test_skin();
    let mut w = Window::new(&skin, 10, 20, 200, 100);
    w.update();
    w.update();
    let (frame, content) = w.layers();
    assert_eq!((frame.x, frame.y, frame.width, frame.height), (10, 20, 200, 100));
    assert_eq!((content.x, content.y), (14, 24));
    assert_eq!(frame.openness, 2);
    assert_eq!(content.openness, 2);
    assert_eq!((frame.alpha, content.alpha), (255, 255));
}

#[test]
fn icon_regions_are_row_major() {
    let icons = Iconset::new(96, 48, 24);
    assert_eq!(icons.get(0), IntRect { left: 0, top: 0, width: 24, height: 24 });
    assert_eq!(icons.get(3), IntRect { left: 72, top: 0, width: 24, height: 24 });
    assert_eq!(icons.get(5), IntRect { left: 24, top: 24, width: 24, height: 24 });
    assert_eq!(icons.get(7), IntRect { left: 72, top: 24, width: 24, height: 24 });
}

#[test]
fn icon_index_past_capacity_gives_first_icon() {
    let icons = Iconset::new(96, 48, 24);
    assert_eq!(icons.get(8), icons.get(0));
    assert_eq!(icons.get(100), icons.get(0));
    assert_eq!(icons.get(usize::MAX), icons.get(0));
}

#[test]
fn saturating_add_holds_at_max() {
    assert_eq!(saturating_add(3, 4), 7);
    assert_eq!(saturating_add(u32::MAX - 1, 5), u32::MAX);
}
