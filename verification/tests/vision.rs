use king_of_fnaf::color::ColorRgb;
use king_of_fnaf::comp_vis::{
    generate_sample_points, read_number_sample_offsets, ReadNumberError, ScreenData, CLK_10SEC_X,
    CLK_DECISEC_X, CLK_MIN_X, CLK_SEC_X, CLK_Y, READ_NUMBER_SAMPLE_FLAGS,
    READ_NUMBER_SAMPLE_OFFSETS_X, READ_NUMBER_SAMPLE_OFFSETS_Y,
};
use king_of_fnaf::irect::IRect;
use king_of_fnaf::ivec2::IVec2;

const WIDTH: i32 = 1920;
const HEIGHT: i32 = 120;

fn blank() -> Vec<u8> {
    vec![0u8; (WIDTH * HEIGHT * 4) as usize]
}

fn set_pixel(data: &mut [u8], x: i32, y: i32, c: ColorRgb) {
    let i = 4 * (y * WIDTH + x) as usize;
    data[i] = c.b;
    data[i + 1] = c.g;
    data[i + 2] = c.r;
}

fn paint_flags(data: &mut [u8], x: i32, y: i32, flags: u8) {
    for s in 0..8 {
        let lit = (flags >> s) & 1 == 1;
        let v = if lit { 200 } else { 10 };
        set_pixel(
            data,
            x + READ_NUMBER_SAMPLE_OFFSETS_X[s],
            y + READ_NUMBER_SAMPLE_OFFSETS_Y[s],
            ColorRgb { r: v, g: v, b: v },
        );
    }
}

fn paint_digit(data: &mut [u8], x: i32, y: i32, d: usize) {
    paint_flags(data, x, y, READ_NUMBER_SAMPLE_FLAGS[d]);
}

fn capture(data: Vec<u8>) -> ScreenData {
    ScreenData::new(data.into_boxed_slice(), WIDTH)
}

#[test]
fn color_gray_is_the_mean() {
    assert_eq!(ColorRgb { r: 10, g: 20, b: 30 }.gray(), 20);
    assert_eq!(ColorRgb { r: 255, g: 255, b: 254 }.gray(), 254);
    assert_eq!(ColorRgb::default(), ColorRgb { r: 0, g: 0, b: 0 });
}

#[test]
fn color_deviations() {
    let c = ColorRgb { r: 10, g: 20, b: 30 };
    assert_eq!(c.red_dev(), 5);
    assert_eq!(c.green_dev(), 0);
    assert_eq!(c.blue_dev(), 5);
    let red = ColorRgb { r: 255, g: 0, b: 0 };
    assert_eq!(red.gray(), 85);
    assert_eq!(red.red_dev(), 98);
    assert_eq!(red.green_dev(), 49);
    assert_eq!(red.blue_dev(), 49);
}

#[test]
fn pixels_are_read_blue_green_red() {
    let mut data = blank();
    set_pixel(&mut data, 7, 3, ColorRgb { r: 1, g: 2, b: 3 });
    let sd = capture(data);
    assert_eq!(sd.pixel_color_at(IVec2::new(7, 3)), ColorRgb { r: 1, g: 2, b: 3 });
    assert_eq!(sd.pixel_color_at(IVec2::new(8, 3)), ColorRgb::default());
    assert_eq!(sd.len(), (WIDTH * HEIGHT * 4) as usize);
    assert_eq!(sd.size(), (WIDTH as u32, (WIDTH * HEIGHT * 4) as u32 / WIDTH as u32));
}

#[test]
fn capture_bytes_can_be_overwritten() {
    let mut sd = capture(blank());
    sd.data_mut()[0] = 9;
    sd.data_mut()[2] = 5;
    assert_eq!(sd.pixel_color_at(IVec2::new(0, 0)), ColorRgb { r: 5, g: 0, b: 9 });
    assert_eq!(sd.width, WIDTH);
}

#[test]
fn sample_offsets_follow_the_tables() {
    let o = read_number_sample_offsets();
    for s in 0..8 {
        assert_eq!(o[s], IVec2::new(READ_NUMBER_SAMPLE_OFFSETS_X[s], READ_NUMBER_SAMPLE_OFFSETS_Y[s]));
    }
    assert_eq!(o[0], IVec2::new(5, 0));
    assert_eq!(o[7], IVec2::new(5, 12));
}

#[test]
fn every_digit_reads_back() {
    for d in 0..10 {
        let mut data = blank();
        paint_digit(&mut data, 40, 30, d);
        let sd = capture(data);
        assert_eq!(sd.read_number(40, 30), Ok(d as u8));
    }
}

#[test]
fn digit_patterns_are_distinct() {
    for a in 0..10 {
        for b in 0..10 {
            if a != b {
                assert_ne!(READ_NUMBER_SAMPLE_FLAGS[a], READ_NUMBER_SAMPLE_FLAGS[b]);
            }
        }
    }
}

#[test]
fn unknown_pattern_is_an_error() {
    let sd = capture(blank());
    let e = sd.read_number(40, 30);
    assert_eq!(e, Err(ReadNumberError::UnknownSequence { flags: 0 }));
    assert_eq!(e.unwrap_err().message(), "unrecognized combination of pixels");
    let mut data = blank();
    paint_flags(&mut data, 40, 30, 0b0000_0011);
    let sd = capture(data);
    assert_eq!(sd.read_number(40, 30), Err(ReadNumberError::UnknownSequence { flags: 0b0000_0011 }));
}

#[test]
fn lit_bits_follow_sample_points() {
    // only sample point 7 (bottom middle) and 0 (top middle) lit
    let mut data = blank();
    paint_flags(&mut data, 100, 50, 0b1000_0001);
    let sd = capture(data);
    assert_eq!(sd.read_number(100, 50), Ok(3));
}

#[test]
fn game_clock_reads_minutes_seconds_tenths() {
    let mut data = blank();
    paint_digit(&mut data, CLK_MIN_X, CLK_Y, 3);
    paint_digit(&mut data, CLK_10SEC_X, CLK_Y, 4);
    paint_digit(&mut data, CLK_SEC_X, CLK_Y, 5);
    paint_digit(&mut data, CLK_DECISEC_X, CLK_Y, 6);
    let sd = capture(data);
    assert_eq!(sd.read_game_clock(), Ok(2256));
}

#[test]
fn game_clock_reports_each_unread_digit_minute_first() {
    let mut data = blank();
    paint_digit(&mut data, CLK_10SEC_X, CLK_Y, 1);
    paint_digit(&mut data, CLK_DECISEC_X, CLK_Y, 0);
    let sd = capture(data);
    assert_eq!(
        sd.read_game_clock(),
        Err([
            Some(ReadNumberError::UnknownSequence { flags: 0 }),
            None,
            Some(ReadNumberError::UnknownSequence { flags: 0 }),
            None,
        ])
    );
}

#[test]
fn sample_points_surround_the_center() {
    assert_eq!(
        generate_sample_points(IVec2::new(10, 10), 4),
        [
            IVec2::new(10, 10),
            IVec2::new(10, 14),
            IVec2::new(14, 10),
            IVec2::new(10, 6),
            IVec2::new(6, 10),
        ]
    );
}

#[test]
fn gray_samples_count_the_matching_points() {
    let mut data = blank();
    let center = IVec2::new(50, 50);
    for p in generate_sample_points(center, 4) {
        set_pixel(&mut data, p.x, p.y, ColorRgb { r: 250, g: 250, b: 250 });
    }
    set_pixel(&mut data, 54, 50, ColorRgb { r: 240, g: 240, b: 240 });
    let sd = capture(data);
    assert_eq!(sd.test_samples_gray(center, 255, 20), 5);
    assert_eq!(sd.test_samples_gray(center, 255, 10), 4);
    assert_eq!(sd.test_samples_gray(center, 255, 5), 4);
    assert_eq!(sd.test_samples_gray(center, 255, 4), 0);
    assert_eq!(sd.test_samples_gray(center, 0, 20), 0);
}

#[test]
fn region_is_copied_in_scanline_order() {
    let mut data = blank();
    let mut k = 0u8;
    for y in 20..22 {
        for x in 10..13 {
            k += 1;
            set_pixel(&mut data, x, y, ColorRgb { r: k, g: 2 * k, b: 3 * k });
        }
    }
    let sd = capture(data);
    let marker = ColorRgb { r: 9, g: 9, b: 9 };
    let mut buffer = vec![marker; 8];
    assert_eq!(sd.get_region(IRect::new(10, 20, 3, 2), &mut buffer), 6);
    for i in 0..6u8 {
        let k = i + 1;
        assert_eq!(buffer[i as usize], ColorRgb { r: k, g: 2 * k, b: 3 * k });
    }
    assert_eq!(buffer[6], marker);
    assert_eq!(buffer[7], marker);
}

#[test]
fn empty_region_copies_nothing() {
    let sd = capture(blank());
    let mut buffer = vec![ColorRgb { r: 1, g: 1, b: 1 }; 2];
    assert_eq!(sd.get_region(IRect::new(5, 5, 0, 3), &mut buffer), 0);
    assert_eq!(buffer, vec![ColorRgb { r: 1, g: 1, b: 1 }; 2]);
}
