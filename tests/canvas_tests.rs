use eruption::canvas::{decode_canvas_payload, Canvas, CANVAS_SIZE};
use eruption::color::RGBA;

fn rgba(r: u8, g: u8, b: u8, a: u8) -> RGBA {
    RGBA { r, g, b, a }
}

#[test]
fn canvas_write_then_read_without_cross_talk() {
    for size in [1usize, 2, 7, 180] {
        let mut canvas = Canvas::with_size(size);
        let i = size / 2;
        let color = rgba(10, 20, 30, 40);
        canvas.set(i, color);
        assert_eq!(canvas.get(i), color);
        for j in 0..size {
            if j != i {
                assert_eq!(canvas.get(j), rgba(0, 0, 0, 0));
            }
        }
        assert_eq!(canvas.len(), size);
    }
}

#[test]
fn canvas_new_has_canvas_size_blank_cells() {
    let canvas = Canvas::new();
    assert_eq!(canvas.len(), CANVAS_SIZE);
    assert_eq!(CANVAS_SIZE, 180);
    assert!(canvas.cells().iter().all(|c| *c == rgba(0, 0, 0, 0)));
}

#[test]
fn canvas_fill_paints_every_cell() {
    let mut canvas = Canvas::with_size(12);
    canvas.set(3, rgba(1, 2, 3, 4));
    canvas.fill(rgba(255, 0, 0, 255));
    assert!(canvas.cells().iter().all(|c| *c == rgba(255, 0, 0, 255)));
    assert_eq!(canvas.len(), 12);
}

#[test]
fn canvas_payload_is_read_in_groups_of_four() {
    let payload = vec![1u8, 2, 3, 4, 5, 6, 7, 8, 9, 10];
    let canvas = decode_canvas_payload(&payload);
    assert_eq!(canvas.len(), CANVAS_SIZE);
    assert_eq!(canvas.get(0), rgba(1, 2, 3, 4));
    assert_eq!(canvas.get(1), rgba(5, 6, 7, 8));
    assert_eq!(canvas.get(2), rgba(0, 0, 0, 0));
}

#[test]
fn canvas_payload_longer_than_canvas_is_cut() {
    let payload = vec![7u8; 4 * CANVAS_SIZE + 8];
    let canvas = decode_canvas_payload(&payload);
    assert_eq!(canvas.len(), CANVAS_SIZE);
    assert_eq!(canvas.get(CANVAS_SIZE - 1), rgba(7, 7, 7, 7));
}

#[test]
fn canvas_empty_payload_gives_blank_canvas() {
    let canvas = decode_canvas_payload(&[]);
    assert!(canvas.cells().iter().all(|c| *c == rgba(0, 0, 0, 0)));
}
