use firmware_core::frame::centred_square_frame;

/// Sets the square's pixels one by one, row by row, in a zeroed buffer.
fn drawn_by_pixels(width: u32, height: u32, side: u32) -> Vec<u8> {
    let mut buf = vec![0u8; (width * height / 8) as usize];
    let x0 = (width - side) / 2;
    let y0 = (height - side) / 2;
    for y in y0..(y0 + side) {
        for x in x0..(x0 + side) {
            let byte_index = ((y * width + x) / 8) as usize;
            buf[byte_index] |= 0x80 >> (x % 8);
        }
    }
    buf
}

#[test]
fn panel_square_matches_pixel_drawing() {
    let frame = centred_square_frame(200, 200, 50);
    assert_eq!(frame.len(), 5000);
    assert_eq!(frame, drawn_by_pixels(200, 200, 50));
}

#[test]
fn panel_square_edges() {
    let frame = centred_square_frame(200, 200, 50);
    // First row of the square: pixels 75..125 of row 75.
    let row = 75 * 200 / 8;
    assert_eq!(frame[row + 8], 0x00);
    assert_eq!(frame[row + 9], 0x1F);
    assert_eq!(frame[(75 * 200 + 72) / 8], 0x1F);
    assert_eq!(frame[(75 * 200 + 80) / 8], 0xFF);
    assert_eq!(frame[(75 * 200 + 120) / 8], 0xF8);
    assert_eq!(frame[(74 * 200 + 80) / 8], 0x00);
    assert_eq!(frame[(124 * 200 + 80) / 8], 0xFF);
    assert_eq!(frame[(125 * 200 + 80) / 8], 0x00);
    assert_eq!(frame.iter().map(|b| b.count_ones()).sum::<u32>(), 2500);
}

#[test]
fn full_and_empty_squares() {
    assert_eq!(centred_square_frame(16, 4, 0), vec![0u8; 8]);
    assert_eq!(centred_square_frame(16, 4, 4), vec![0x03, 0xC0, 0x03, 0xC0, 0x03, 0xC0, 0x03, 0xC0]);
    assert_eq!(centred_square_frame(8, 8, 8), vec![0xFF; 8]);
}
