use smt_toggle::icon::{create_default_icon, ICON_SIZE};

fn pixel(rgba: &[u8], x: usize, y: usize) -> [u8; 4] {
    let at = (y * 32 + x) * 4;
    [rgba[at], rgba[at + 1], rgba[at + 2], rgba[at + 3]]
}

const BLUE: [u8; 4] = [100, 149, 237, 255];
const CLEAR: [u8; 4] = [0, 0, 0, 0];

#[test]
fn icon_is_32_by_32_with_four_bytes_a_pixel() {
    let icon = create_default_icon();
    assert_eq!(ICON_SIZE, 32);
    assert_eq!(icon.width, 32);
    assert_eq!(icon.height, 32);
    assert_eq!(icon.rgba.len(), 32 * 32 * 4);
}

#[test]
fn icon_body_is_the_middle_square() {
    let icon = create_default_icon();
    assert_eq!(pixel(&icon.rgba, 8, 8), BLUE);
    assert_eq!(pixel(&icon.rgba, 23, 23), BLUE);
    assert_eq!(pixel(&icon.rgba, 16, 16), BLUE);
    assert_eq!(pixel(&icon.rgba, 8, 23), BLUE);
    assert_eq!(pixel(&icon.rgba, 12, 9), BLUE);
    assert_eq!(pixel(&icon.rgba, 24, 24), CLEAR);
    assert_eq!(pixel(&icon.rgba, 7, 7), CLEAR);
    assert_eq!(pixel(&icon.rgba, 0, 0), CLEAR);
    assert_eq!(pixel(&icon.rgba, 31, 31), CLEAR);
}

#[test]
fn icon_pins_leave_out_every_third_line() {
    let icon = create_default_icon();
    // to the left and right of the body
    assert_eq!(pixel(&icon.rgba, 0, 10), BLUE);
    assert_eq!(pixel(&icon.rgba, 7, 11), BLUE);
    assert_eq!(pixel(&icon.rgba, 7, 12), CLEAR);
    assert_eq!(pixel(&icon.rgba, 24, 13), BLUE);
    assert_eq!(pixel(&icon.rgba, 31, 20), BLUE);
    assert_eq!(pixel(&icon.rgba, 31, 21), CLEAR);
    assert_eq!(pixel(&icon.rgba, 31, 22), CLEAR);
    assert_eq!(pixel(&icon.rgba, 0, 9), CLEAR);
    // above and below the body
    assert_eq!(pixel(&icon.rgba, 10, 0), BLUE);
    assert_eq!(pixel(&icon.rgba, 11, 7), BLUE);
    assert_eq!(pixel(&icon.rgba, 12, 7), CLEAR);
    assert_eq!(pixel(&icon.rgba, 13, 24), BLUE);
    assert_eq!(pixel(&icon.rgba, 20, 31), BLUE);
    assert_eq!(pixel(&icon.rgba, 21, 31), CLEAR);
    assert_eq!(pixel(&icon.rgba, 22, 0), CLEAR);
    assert_eq!(pixel(&icon.rgba, 9, 0), CLEAR);
}

#[test]
fn icon_has_512_drawn_pixels() {
    let icon = create_default_icon();
    let mut drawn = 0;
    for y in 0..32 {
        for x in 0..32 {
            let p = pixel(&icon.rgba, x, y);
            assert!(p == BLUE || p == CLEAR);
            if p == BLUE {
                drawn += 1;
            }
        }
    }
    assert_eq!(drawn, 256 + 128 + 128);
}

#[test]
fn icon_matches_the_drawing_rule_everywhere() {
    let icon = create_default_icon();
    for y in 0..32usize {
        for x in 0..32usize {
            let in_body = (8..24).contains(&x) && (8..24).contains(&y);
            let on_pin = ((10..22).contains(&y) && !(8..24).contains(&x) && (y % 3 != 0))
                || ((10..22).contains(&x) && !(8..24).contains(&y) && (x % 3 != 0));
            let expected = if in_body || on_pin { BLUE } else { CLEAR };
            assert_eq!(pixel(&icon.rgba, x, y), expected, "({}, {})", x, y);
        }
    }
}

#[test]
fn icon_is_symmetric() {
    let icon = create_default_icon();
    for y in 0..32usize {
        for x in 0..32usize {
            assert_eq!(pixel(&icon.rgba, x, y), pixel(&icon.rgba, y, x));
        }
    }
}
