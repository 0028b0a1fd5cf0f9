use simple_screenshot_tool::draw::{draw_line, draw_rect};
use simple_screenshot_tool::geometry::SelectionRectangle;

const RED: [u8; 4] = [255, 0, 0, 255];

fn paint(expected: &mut Vec<u8>, pixel: usize) {
    expected[4 * pixel..4 * pixel + 4].copy_from_slice(&RED);
}

#[test]
fn draw_line_writes_one_red_pixel_in_place() {
    let mut frame = vec![9u8; 16];
    draw_line(&mut frame, 2, 1, 0);
    let mut expected = vec![9u8; 16];
    expected[4..8].copy_from_slice(&RED);
    assert_eq!(frame, expected);
}

#[test]
fn draw_line_skips_pixels_past_the_buffer_end() {
    let mut frame = vec![7u8; 16];
    draw_line(&mut frame, 2, 0, 2);
    assert_eq!(frame, vec![7u8; 16]);
}

#[test]
fn draw_rect_paints_exactly_the_outline() {
    // A 4x4-pixel frame with a rectangle from (1,1) of size 1x1: its outline
    // is the four pixels (1,1), (2,1), (1,2), (2,2).
    let mut frame = vec![3u8; 64];
    let rect = SelectionRectangle { x: 1, y: 1, width: 1, height: 1 };
    draw_rect(&mut frame, 4, &rect);
    let mut expected = vec![0u8; 64];
    for pixel in [5, 6, 9, 10] {
        paint(&mut expected, pixel);
    }
    assert_eq!(frame, expected);
}

#[test]
fn draw_rect_with_zero_size_paints_one_pixel() {
    let mut frame = vec![1u8; 64];
    let rect = SelectionRectangle { x: 2, y: 1, width: 0, height: 0 };
    draw_rect(&mut frame, 4, &rect);
    let mut expected = vec![0u8; 64];
    paint(&mut expected, 6);
    assert_eq!(frame, expected);
}

#[test]
fn draw_rect_twice_leaves_the_same_buffer_as_once() {
    let mut once: Vec<u8> = (0..96).map(|i| i as u8).collect();
    let mut twice = once.clone();
    let rect = SelectionRectangle { x: 0, y: 1, width: 2, height: 1 };
    draw_rect(&mut once, 3, &rect);
    draw_rect(&mut twice, 3, &rect);
    draw_rect(&mut twice, 3, &rect);
    assert_eq!(once, twice);
}

#[test]
fn draw_rect_far_beyond_the_buffer_completes_and_keeps_its_length() {
    let mut frame = vec![5u8; 64];
    let rect = SelectionRectangle { x: 200, y: 200, width: 1000, height: 1000 };
    draw_rect(&mut frame, 4, &rect);
    assert_eq!(frame.len(), 64);
    // Every outline pixel lies past the buffer, so the clear is all that
    // remains visible.
    assert_eq!(frame, vec![0u8; 64]);
}

#[test]
fn draw_rect_reaching_past_the_edge_is_clipped_at_the_buffer_end() {
    // Rows are 4 pixels wide and the buffer holds 8 pixels; a rectangle
    // whose edges run from column 2 to column 6 is drawn only where the
    // flat pixel index y * width + x still falls inside the buffer.
    let mut frame = vec![8u8; 32];
    let rect = SelectionRectangle { x: 2, y: 1, width: 4, height: 3 };
    draw_rect(&mut frame, 4, &rect);
    let mut expected = vec![0u8; 32];
    // Top edge, y = 1: pixels 4 * 1 + x for x in 2..=6, clipped to 6 and 7.
    paint(&mut expected, 6);
    paint(&mut expected, 7);
    assert_eq!(frame, expected);
}
