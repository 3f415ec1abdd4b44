use epd_waveshare::color::Color;
use senec_display::surface::DisplayBoxed;
use senec_display::surface::Font;
use senec_display::surface::PixelDecodeError;
use senec_display::icons::SUN_ICON;

fn black_count(d: &DisplayBoxed) -> usize {
    d.raw_buffer().iter().filter(|b| **b == 1).count()
}

#[test]
fn new_surface_is_white() {
    let d = DisplayBoxed::new();
    let raw = d.raw_buffer();
    assert_eq!(raw.len(), 296 * 128);
    assert!(raw.iter().all(|b| *b == 0));
    assert_eq!(d.buffer().len(), 4736);
    assert!(d.buffer().iter().all(|b| *b == 0xff));
}

#[test]
fn set_pixel_lands_at_row_major_index() {
    let mut d = DisplayBoxed::new();
    d.set_pixel(5, 2, Color::Black);
    d.set_pixel(400, 2, Color::Black);
    let raw = d.raw_buffer();
    assert_eq!(raw[2 * 296 + 5], 1);
    assert_eq!(black_count(&d), 1);
}

#[test]
fn fill_solid_covers_the_rectangle() {
    let mut d = DisplayBoxed::new();
    d.fill_solid(10, 20, 4, 3, Color::Black);
    assert_eq!(black_count(&d), 12);
    let raw = d.raw_buffer();
    assert_eq!(raw[20 * 296 + 10], 1);
    assert_eq!(raw[22 * 296 + 13], 1);
    assert_eq!(raw[23 * 296 + 13], 0);
    d.fill_solid(11, 21, 1, 1, Color::White);
    assert_eq!(black_count(&d), 11);
}

#[test]
fn clear_paints_everything() {
    let mut d = DisplayBoxed::new();
    d.clear(Color::Black);
    assert_eq!(black_count(&d), 296 * 128);
    assert!(d.buffer().iter().all(|b| *b == 0));
}

#[test]
fn raw_buffer_round_trips_through_set_buf() {
    let mut d = DisplayBoxed::new();
    d.line(0, 0, 295, 127, 1);
    d.text("12:34", 100, 60, Font::Regular6x10);
    let snapshot = d.raw_buffer();
    let packed = d.buffer();
    let mut e = DisplayBoxed::new();
    e.circle(10, 10, 40, 2);
    assert_eq!(e.set_buf(&snapshot), Ok(()));
    assert_eq!(e.raw_buffer(), snapshot);
    assert_eq!(e.buffer(), packed);
}

#[test]
fn set_buf_refuses_other_bytes_and_draws_nothing() {
    let mut d = DisplayBoxed::new();
    let before = d.raw_buffer();
    let buf = vec![1u8, 0, 1, 2, 1];
    assert_eq!(d.set_buf(&buf), Err(PixelDecodeError { index: 3, value: 2 }));
    assert_eq!(d.raw_buffer(), before);
}

#[test]
fn short_buffer_loads_a_prefix() {
    let mut d = DisplayBoxed::new();
    d.fill_solid(0, 0, 296, 1, Color::Black);
    assert_eq!(d.set_buf(&[0, 0, 1]), Ok(()));
    let raw = d.raw_buffer();
    assert_eq!(&raw[0..4], &[0, 0, 1, 1]);
}

#[test]
fn primitives_leave_marks() {
    let mut d = DisplayBoxed::new();
    d.text("8", 10, 20, Font::Large9x15);
    let after_text = black_count(&d);
    assert!(after_text > 0);
    d.line(0, 100, 50, 100, 2);
    let after_line = black_count(&d);
    assert!(after_line > after_text);
    d.circle(200, 10, 40, 2);
    let after_circle = black_count(&d);
    assert!(after_circle > after_line);
    d.outline(150, 80, 20, 10, 1);
    let after_outline = black_count(&d);
    assert!(after_outline > after_circle);
    d.polyline(&vec![(100, 30), (120, 40), (140, 30)]);
    assert!(black_count(&d) > after_outline);
}

#[test]
fn icon_is_stamped_with_its_bitmap() {
    let mut d = DisplayBoxed::new();
    d.icon(&SUN_ICON, 30, 40);
    let raw = d.raw_buffer();
    for r in 0..15usize {
        for c in 0..18usize {
            let want = if SUN_ICON[r * 18 + c] != 0 { 1 } else { 0 };
            assert_eq!(raw[(40 + r) * 296 + 30 + c], want);
        }
    }
    assert_eq!(black_count(&d), SUN_ICON.iter().filter(|v| **v != 0).count());
}

#[test]
fn overlong_text_is_not_drawn() {
    let mut d = DisplayBoxed::new();
    let long = "8".repeat(5000);
    d.text(&long, 0, 10, Font::Regular6x10);
    assert_eq!(black_count(&d), 0);
    d.text(&long[..4096], 0, 10, Font::Regular6x10);
    assert!(black_count(&d) > 0);
}
