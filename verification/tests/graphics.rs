use epd_waveshare::color::Color;
use epd_waveshare::epd4in2::graphics::{Display4in2, BUFFER_SIZE};
use epd_waveshare::epd4in2::EPD4in2;
use epd_waveshare::graphics::{
    find_position, find_rotation, outside_display, set_pixel, DisplayRotation,
};
use epd_waveshare::interface::BusOp;

const ROTATIONS: [DisplayRotation; 4] = [
    DisplayRotation::Rotate0,
    DisplayRotation::Rotate90,
    DisplayRotation::Rotate180,
    DisplayRotation::Rotate270,
];

/// The color of the pixel at the native coordinate (`u`, `v`) of a frame
/// that is `width` pixels wide.
fn pixel(frame: &[u8], width: u32, u: u32, v: u32) -> Color {
    let byte = frame[(u / 8 + v * (width / 8)) as usize];
    if (byte >> (7 - (u & 7))) & 1 == 1 {
        Color::White
    } else {
        Color::Black
    }
}

#[test]
fn rotation_defaults_to_none() {
    assert_eq!(DisplayRotation::default(), DisplayRotation::Rotate0);
}

#[test]
fn frame_size() {
    assert_eq!(BUFFER_SIZE, 15000);
    let display = Display4in2::new();
    assert_eq!(display.bytes().len(), 400 / 8 * 300);
    let epd = EPD4in2::new();
    assert_eq!(
        display.bytes().len() as u32,
        epd.width() / 8 * epd.height()
    );
}

#[test]
fn new_frame_is_white_and_not_rotated() {
    let display = Display4in2::new();
    assert_eq!(display.rotation(), DisplayRotation::Rotate0);
    assert!(display.bytes().iter().all(|byte| *byte == 0xFF));
    let display = Display4in2::default();
    assert_eq!(display.rotation(), DisplayRotation::Rotate0);
    assert!(display.bytes().iter().all(|byte| *byte == 0xFF));
}

#[test]
fn set_rotation_keeps_the_frame() {
    let mut display = Display4in2::new();
    display.set_pixel(9, 1, Color::Black);
    let before = display.bytes().to_vec();
    for rotation in ROTATIONS {
        display.set_rotation(rotation);
        assert_eq!(display.rotation(), rotation);
        assert_eq!(display.bytes(), &before[..]);
    }
}

#[test]
fn pixel_without_rotation() {
    let mut display = Display4in2::new();
    display.set_pixel(0, 0, Color::Black);
    assert_eq!(display.bytes()[0], 0x7F);
    display.set_pixel(7, 0, Color::Black);
    assert_eq!(display.bytes()[0], 0x7E);
    display.set_pixel(8, 0, Color::Black);
    assert_eq!(display.bytes()[1], 0x7F);
    display.set_pixel(3, 2, Color::Black);
    assert_eq!(display.bytes()[100], 0xEF);
    display.set_pixel(399, 299, Color::Black);
    assert_eq!(display.bytes()[14999], 0xFE);
    display.set_pixel(0, 0, Color::White);
    assert_eq!(display.bytes()[0], 0xFE);
    let changed = display
        .bytes()
        .iter()
        .filter(|byte| **byte != 0xFF)
        .count();
    assert_eq!(changed, 4);
}

#[test]
fn pixel_rotated_by_90() {
    let mut display = Display4in2::new();
    display.set_rotation(DisplayRotation::Rotate90);
    display.set_pixel(0, 0, Color::Black);
    // native column 399 of row 0: the lowest bit of byte 49
    for (index, byte) in display.bytes().iter().enumerate() {
        if index == 49 {
            assert_eq!(*byte, 0xFE);
        } else {
            assert_eq!(*byte, 0xFF);
        }
    }
    assert_eq!(pixel(display.bytes(), 400, 399, 0), Color::Black);
}

#[test]
fn pixel_rotated_by_180() {
    let mut display = Display4in2::new();
    display.set_rotation(DisplayRotation::Rotate180);
    display.set_pixel(0, 0, Color::Black);
    // native (399, 299)
    assert_eq!(display.bytes()[14999], 0xFE);
    display.set_pixel(1, 2, Color::Black);
    // native (398, 297)
    assert_eq!(display.bytes()[297 * 50 + 49], 0xFD);
}

#[test]
fn pixel_rotated_by_270() {
    let mut display = Display4in2::new();
    display.set_rotation(DisplayRotation::Rotate270);
    display.set_pixel(0, 0, Color::Black);
    // native (0, 299)
    assert_eq!(display.bytes()[299 * 50], 0x7F);
    display.set_pixel(10, 20, Color::Black);
    // native (20, 289)
    assert_eq!(display.bytes()[289 * 50 + 2], 0xF7);
}

#[test]
fn pixels_off_the_panel_are_ignored() {
    let mut display = Display4in2::new();
    display.set_pixel(400, 0, Color::Black);
    display.set_pixel(0, 300, Color::Black);
    display.set_pixel(u32::MAX, u32::MAX, Color::Black);
    display.set_rotation(DisplayRotation::Rotate90);
    display.set_pixel(300, 0, Color::Black);
    display.set_pixel(0, 400, Color::Black);
    display.set_rotation(DisplayRotation::Rotate180);
    display.set_pixel(400, 299, Color::Black);
    display.set_rotation(DisplayRotation::Rotate270);
    display.set_pixel(299, 400, Color::Black);
    assert!(display.bytes().iter().all(|byte| *byte == 0xFF));
    // the last column of the rotated panel is on it
    display.set_pixel(299, 399, Color::Black);
    assert_eq!(pixel(display.bytes(), 400, 399, 0), Color::Black);
}

#[test]
fn plotted_pixel_reads_back() {
    for rotation in ROTATIONS {
        for (x, y) in [(0u32, 0u32), (5, 9), (123, 45), (299, 299), (17, 250)] {
            for color in [Color::Black, Color::White] {
                let mut display = Display4in2::new();
                display.set_rotation(rotation);
                // a frame that is not of one color
                display.set_pixel(x + 1, y, color.inverse());
                display.set_pixel(x, y, color.inverse());
                let before = display.bytes().to_vec();
                display.set_pixel(x, y, color);
                let (u, v) = find_rotation(x, y, 400, 300, rotation);
                assert_eq!(pixel(display.bytes(), 400, u, v), color);
                // every other pixel is as it was
                for row in 0..300 {
                    for column in 0..400 {
                        if (column, row) != (u, v) {
                            assert_eq!(
                                pixel(display.bytes(), 400, column, row),
                                pixel(&before, 400, column, row)
                            );
                        }
                    }
                }
            }
        }
    }
}

#[test]
fn plotting_again_changes_nothing() {
    for rotation in ROTATIONS {
        for color in [Color::Black, Color::White] {
            let mut display = Display4in2::new();
            display.set_rotation(rotation);
            display.set_pixel(12, 34, Color::Black);
            display.set_pixel(13, 34, Color::Black);
            display.set_pixel(13, 34, color);
            let once = display.bytes().to_vec();
            display.set_pixel(13, 34, color);
            assert_eq!(display.bytes(), &once[..]);
            display.set_pixel(13, 34, color.inverse());
            assert_ne!(display.bytes(), &once[..]);
            display.set_pixel(13, 34, color);
            assert_eq!(display.bytes(), &once[..]);
        }
    }
}

#[test]
fn rotation_mapping() {
    assert_eq!(
        find_rotation(3, 5, 400, 300, DisplayRotation::Rotate0),
        (3, 5)
    );
    assert_eq!(
        find_rotation(3, 5, 400, 300, DisplayRotation::Rotate90),
        (394, 3)
    );
    assert_eq!(
        find_rotation(3, 5, 400, 300, DisplayRotation::Rotate180),
        (396, 294)
    );
    assert_eq!(
        find_rotation(3, 5, 400, 300, DisplayRotation::Rotate270),
        (5, 296)
    );
    // the corners of the rotated panel
    assert_eq!(
        find_rotation(299, 399, 400, 300, DisplayRotation::Rotate90),
        (0, 299)
    );
    assert_eq!(
        find_rotation(299, 399, 400, 300, DisplayRotation::Rotate270),
        (399, 0)
    );
}

#[test]
fn rotation_inverse() {
    assert_eq!(DisplayRotation::Rotate0.inverse(), DisplayRotation::Rotate0);
    assert_eq!(
        DisplayRotation::Rotate90.inverse(),
        DisplayRotation::Rotate270
    );
    assert_eq!(
        DisplayRotation::Rotate180.inverse(),
        DisplayRotation::Rotate180
    );
    assert_eq!(
        DisplayRotation::Rotate270.inverse(),
        DisplayRotation::Rotate90
    );
}

#[test]
fn rotating_there_and_back() {
    let (width, height) = (400u32, 300u32);
    for rotation in ROTATIONS {
        let (logical_width, logical_height) = match rotation {
            DisplayRotation::Rotate0 | DisplayRotation::Rotate180 => (width, height),
            DisplayRotation::Rotate90 | DisplayRotation::Rotate270 => (height, width),
        };
        for x in (0..logical_width).step_by(7) {
            for y in (0..logical_height).step_by(11) {
                let (u, v) = find_rotation(x, y, width, height, rotation);
                assert!(u < width && v < height);
                assert_eq!(
                    find_rotation(u, v, logical_width, logical_height, rotation.inverse()),
                    (x, y)
                );
            }
        }
    }
}

#[test]
fn outside_of_the_display() {
    assert!(!outside_display(399, 299, 400, 300, DisplayRotation::Rotate0));
    assert!(outside_display(400, 299, 400, 300, DisplayRotation::Rotate0));
    assert!(outside_display(399, 300, 400, 300, DisplayRotation::Rotate0));
    assert!(!outside_display(399, 299, 400, 300, DisplayRotation::Rotate180));
    assert!(outside_display(400, 0, 400, 300, DisplayRotation::Rotate180));
    assert!(!outside_display(299, 399, 400, 300, DisplayRotation::Rotate90));
    assert!(outside_display(300, 399, 400, 300, DisplayRotation::Rotate90));
    assert!(outside_display(299, 400, 400, 300, DisplayRotation::Rotate90));
    assert!(!outside_display(299, 399, 400, 300, DisplayRotation::Rotate270));
    assert!(outside_display(399, 299, 400, 300, DisplayRotation::Rotate270));
    assert!(outside_display(0, 0, 0, 0, DisplayRotation::Rotate0));
}

#[test]
fn position_in_the_frame() {
    assert_eq!(
        find_position(0, 0, 400, 300, DisplayRotation::Rotate0),
        (0, 0x80)
    );
    assert_eq!(
        find_position(9, 0, 400, 300, DisplayRotation::Rotate0),
        (1, 0x40)
    );
    assert_eq!(
        find_position(15, 2, 400, 300, DisplayRotation::Rotate0),
        (101, 0x01)
    );
    assert_eq!(
        find_position(0, 0, 400, 300, DisplayRotation::Rotate90),
        (49, 0x01)
    );
    assert_eq!(
        find_position(399, 299, 400, 300, DisplayRotation::Rotate0),
        (14999, 0x01)
    );
    assert_eq!(
        find_position(0, 0, 400, 300, DisplayRotation::Rotate180),
        (14999, 0x01)
    );
    // another panel: 128 by 296 pixels
    assert_eq!(
        find_position(127, 295, 128, 296, DisplayRotation::Rotate0),
        (16 * 296 - 1, 0x01)
    );
}

#[test]
fn set_pixel_on_a_small_frame() {
    // 16 by 2 pixels
    let mut frame = [0x00u8; 4];
    set_pixel(&mut frame, 16, 2, DisplayRotation::Rotate0, 0, 0, Color::White);
    assert_eq!(frame, [0x80, 0x00, 0x00, 0x00]);
    set_pixel(&mut frame, 16, 2, DisplayRotation::Rotate0, 15, 1, Color::White);
    assert_eq!(frame, [0x80, 0x00, 0x00, 0x01]);
    set_pixel(&mut frame, 16, 2, DisplayRotation::Rotate90, 0, 0, Color::White);
    assert_eq!(frame, [0x80, 0x01, 0x00, 0x01]);
    set_pixel(&mut frame, 16, 2, DisplayRotation::Rotate90, 1, 15, Color::White);
    assert_eq!(frame, [0x80, 0x01, 0x80, 0x01]);
    set_pixel(&mut frame, 16, 2, DisplayRotation::Rotate0, 0, 0, Color::Black);
    assert_eq!(frame, [0x00, 0x01, 0x80, 0x01]);
    // off the panel
    set_pixel(&mut frame, 16, 2, DisplayRotation::Rotate0, 16, 0, Color::White);
    set_pixel(&mut frame, 16, 2, DisplayRotation::Rotate0, 0, 2, Color::White);
    set_pixel(&mut frame, 16, 2, DisplayRotation::Rotate90, 2, 0, Color::White);
    assert_eq!(frame, [0x00, 0x01, 0x80, 0x01]);
}

#[test]
fn frame_is_uploaded_as_it_stands() {
    let mut display = Display4in2::new();
    display.set_rotation(DisplayRotation::Rotate90);
    display.set_pixel(0, 0, Color::Black);
    let mut epd = EPD4in2::new();
    epd.take_pending();
    epd.update_frame(display.bytes()).unwrap();
    let ops = epd.take_pending();
    assert_eq!(ops[12], BusOp::Data(display.bytes().to_vec()));
}
