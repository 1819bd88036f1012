use particlez::renderer::Renderer;
use particlez::vec2::Vec2Milli;

#[test]
fn new_scales_the_window_down() {
    let r = Renderer::new(640, 480);
    assert_eq!(r.width(), 80);
    assert_eq!(r.height(), 60);
    assert_eq!(r.pixels.len(), 80 * 60);
    assert!(r.pixels.iter().all(|&p| p == 0));
}

#[test]
fn odd_window_sizes_truncate() {
    let r = Renderer::new(641, 479);
    assert_eq!(r.width(), 80);
    assert_eq!(r.height(), 59);
}

#[test]
fn set_pixel_writes_the_right_cell() {
    let mut r = Renderer::new(640, 480);
    r.set_pixel(1500, 2500, 0xABCDEF);
    // (1500, 2500) thousandths is the cell at column 1, row 2
    assert_eq!(r.pixels[2 * 80 + 1], 0xABCDEF);
    assert_eq!(r.pixels.iter().filter(|&&p| p != 0).count(), 1);
}

#[test]
fn off_surface_writes_are_ignored() {
    let mut r = Renderer::new(640, 480);
    r.set_pixel(-1, 0, 0xFFFFFF);
    r.set_pixel(0, -500, 0xFFFFFF);
    r.set_pixel(80_000, 0, 0xFFFFFF); // exactly one cell past the right edge
    r.set_pixel(0, 60_000, 0xFFFFFF);
    assert!(r.pixels.iter().all(|&p| p == 0));
}

#[test]
fn negate_pixel_inverts_in_place() {
    let mut r = Renderer::new(640, 480);
    r.set_pixel(500, 500, 0x52A5A9);
    r.negate_pixel(500, 500);
    assert_eq!(r.pixels[0], 0xAD5A56);
    r.negate_pixel(-1, -1); // off the surface: nothing happens
    assert_eq!(r.pixels[0], 0xAD5A56);
}

#[test]
fn draw_square_fills_the_covered_cells() {
    let mut r = Renderer::new(640, 480);
    r.draw_square(Vec2Milli { x: 1000, y: 1000 }, 2, 0x00FF00);
    for dy in 1..=2usize {
        for dx in 1..=2usize {
            assert_eq!(r.pixels[dy * 80 + dx], 0x00FF00, "cell {dx},{dy}");
        }
    }
    assert_eq!(r.pixels.iter().filter(|&&p| p != 0).count(), 4);
}

#[test]
fn draw_square_clips_at_the_edge() {
    let mut r = Renderer::new(640, 480);
    r.draw_square(Vec2Milli { x: 79_000, y: 59_000 }, 3, 0xFF0000);
    // only the corner cell is on the surface
    assert_eq!(r.pixels[59 * 80 + 79], 0xFF0000);
    assert_eq!(r.pixels.iter().filter(|&&p| p != 0).count(), 1);
}

#[test]
fn clear_blackens_everything() {
    let mut r = Renderer::new(640, 480);
    r.draw_square(Vec2Milli { x: 5000, y: 5000 }, 4, 0xFFFFFF);
    r.clear();
    assert!(r.pixels.iter().all(|&p| p == 0));
}

#[test]
fn resize_replaces_the_surface() {
    let mut r = Renderer::new(640, 480);
    r.set_pixel(500, 500, 0xFFFFFF);
    r.resize(800, 600);
    assert_eq!(r.width(), 100);
    assert_eq!(r.height(), 75);
    assert!(r.pixels.iter().all(|&p| p == 0));
}
