//! Computer vision: reading colors, digits and the game clock off a screen capture.
use vstd::prelude::*;

use crate::color::ColorRgb;
use crate::irect::{area_spec, scanline_point, IRect};
use crate::ivec2::{fits_i32, IVec2};
use crate::{DECISECS_PER_SEC, SECS_PER_MIN};

verus! {

/// Bitmap channels per pixel (blue, green, red, reserved), not [`ColorRgb`] channels
pub const CHANNELS_PER_COLOR: usize = 4;

/// A screen capture: 4 bytes per pixel (blue, green, red, reserved), rows of `width` pixels.
///
/// The bytes are held in a `Vec` so that the capture can be cloned.
#[derive(Debug, Clone)]
pub struct ScreenData {
    pub data: Vec<u8>,
    pub width: i32,
}

/// Index of the first byte of the pixel at `pos` in a capture `width` pixels wide.
pub open spec fn pixel_index(width: i32, pos: IVec2) -> int {
    4 * (pos.y * width + pos.x)
}

/// The pixel at `pos` lies inside a capture of `len` bytes, `width` pixels wide, and its
/// index arithmetic does not overflow.
pub open spec fn pixel_ok(len: int, width: i32, pos: IVec2) -> bool {
    &&& fits_i32(pos.y * width)
    &&& fits_i32(pos.y * width + pos.x)
    &&& 0 <= pos.y * width + pos.x
    &&& pixel_index(width, pos) + 2 < len
}

/// The color of the pixel at `pos` in capture bytes `data`.
pub open spec fn pixel_spec(data: Seq<u8>, width: i32, pos: IVec2) -> ColorRgb {
    let i = pixel_index(width, pos);
    ColorRgb { r: data[i + 2], g: data[i + 1], b: data[i] }
}

impl ScreenData {
    pub fn new(data: Box<[u8]>, width: i32) -> (sd: Self)
        ensures
            sd.data@ == data@,
            sd.width == width,
    {
        Self { data: data.into_vec(), width }
    }

    /// Whether the pixel at `pos` can be read.
    pub open spec fn pixel_ok(&self, pos: IVec2) -> bool {
        pixel_ok(self.data@.len() as int, self.width, pos)
    }

    /// The color of the pixel at `pos`.
    pub open spec fn pixel(&self, pos: IVec2) -> ColorRgb {
        pixel_spec(self.data@, self.width, pos)
    }

    pub fn pixel_color_at(&self, pos: IVec2) -> (c: ColorRgb)
        requires
            self.pixel_ok(pos),
        ensures
            c == self.pixel(pos),
    {
        let row: i32 = pos.y * self.width;
        let lin: i32 = row + pos.x;
        let n = self.data.len();
        assert(pixel_index(self.width, pos) == 4 * lin);
        let index: usize = CHANNELS_PER_COLOR * (lin as usize);
        ColorRgb { r: self.data[index + 2], g: self.data[index + 1], b: self.data[index] }
    }

    /// The width in pixels, and the number of bytes over the width: four times the number of
    /// pixel rows, since each pixel takes [`CHANNELS_PER_COLOR`] bytes
    pub fn size(&self) -> (s: (u32, u32))
        requires
            self.width as u32 != 0,
        ensures
            s.0 == self.width as u32,
            s.1 == (self.data@.len() as u32) / (self.width as u32),
    {
        (self.width as u32, self.len() as u32 / self.width as u32)
    }

    /// Number of bytes in the capture
    pub fn len(&self) -> (l: usize)
        ensures
            l == self.data@.len(),
    {
        self.data.len()
    }

    /// The capture's bytes, to be overwritten in place
    pub fn data_mut(&mut self) -> (d: &mut Vec<u8>)
        ensures
            *d == old(self).data,
            *final(self) == (ScreenData { data: *final(d), width: old(self).width }),
    {
        &mut self.data
    }
}


/// The `k`th pixel of `rgn` in scanline order.
pub open spec fn region_point(rgn: IRect, k: int) -> IVec2 {
    IVec2 {
        x: scanline_point(rgn.x as int, rgn.y as int, rgn.w as int, k).0 as i32,
        y: scanline_point(rgn.x as int, rgn.y as int, rgn.w as int, k).1 as i32,
    }
}

impl ScreenData {
    /// Every pixel of `rgn` is representable and can be read off the capture.
    pub open spec fn region_readable(&self, rgn: IRect) -> bool {
        &&& rgn.points_fit()
        &&& forall|k: int| 0 <= k < area_spec(rgn.w, rgn.h) ==> #[trigger] self.pixel_ok(region_point(rgn, k))
    }

    /// Copies the pixels of `rgn`, in scanline order, to the front of `buffer`, and returns how
    /// many there are.
    pub fn get_region(&self, rgn: IRect, buffer: &mut Vec<ColorRgb>) -> (n: usize)
        requires
            self.region_readable(rgn),
            area_spec(rgn.w, rgn.h) <= usize::MAX,
            old(buffer)@.len() >= area_spec(rgn.w, rgn.h),
        ensures
            n == area_spec(rgn.w, rgn.h),
            final(buffer)@.len() == old(buffer)@.len(),
            forall|k: int| 0 <= k < n ==> #[trigger] final(buffer)@[k] == self.pixel(region_point(rgn, k)),
            forall|k: int| n <= k < old(buffer)@.len() ==> #[trigger] final(buffer)@[k] == old(buffer)@[k],
    {
        let mut it = rgn.into_iter();
        let (area, _) = it.size_hint();
        let mut k: usize = 0;
        while k < area
            invariant
                area == area_spec(rgn.w, rgn.h),
                0 <= k <= area,
                it.wf(),
                it.front == k,
                it.back == area,
                it.xmin == rgn.x && it.ymin == rgn.y && it.w == rgn.w,
                self.region_readable(rgn),
                buffer@.len() == old(buffer)@.len(),
                old(buffer)@.len() >= area,
                forall|j: int| 0 <= j < k ==> #[trigger] buffer@[j] == self.pixel(region_point(rgn, j)),
                forall|j: int| k <= j < old(buffer)@.len() ==> #[trigger] buffer@[j] == old(buffer)@[j],
            decreases area - k,
        {
            proof {
                if rgn.w == 0 {
                    assert(area_spec(rgn.w, rgn.h) == 0) by (nonlinear_arith)
                        requires
                            rgn.w == 0,
                            area_spec(rgn.w, rgn.h) == crate::ivec2::abs_int(rgn.w as int)
                                * crate::ivec2::abs_int(rgn.h as int),
                            crate::ivec2::abs_int(rgn.w as int) == 0,
                    ;
                }
                assert(it.remaining()[0] == region_point(rgn, k as int));
            }
            let p = it.next();
            match p {
                Some(pt) => {
                    assert(self.pixel_ok(region_point(rgn, k as int)));
                    let c = self.pixel_color_at(pt);
                    buffer.set(k, c);
                },
                None => {},
            }
            k = k + 1;
        }
        area
    }
}

/// The reason a digit could not be read.
#[derive(Debug, Clone, Copy, PartialEq, Eq, Hash, Structural)]
pub enum ReadNumberError {
    /// The lit sample points, one bit per sample point, match no digit.
    UnknownSequence { flags: u8 },
}

impl ReadNumberError {
    /// What went wrong, in words.
    pub fn message(&self) -> (m: &'static str)
        ensures
            m@ == "unrecognized combination of pixels"@,
    {
        match self {
            ReadNumberError::UnknownSequence { .. } => "unrecognized combination of pixels",
        }
    }
}

/// Where a digit is sampled, horizontally, relative to its top-left corner: top middle,
/// upper-middle left, upper-middle right, lower-middle middle, lower-middle left,
/// lower-middle right, bottom left, bottom middle.
pub const READ_NUMBER_SAMPLE_OFFSETS_X: [i32; 8] = [5, 0, 10, 5, 0, 10, 0, 5];

/// Where a digit is sampled, vertically, relative to its top-left corner (same order as
/// [`READ_NUMBER_SAMPLE_OFFSETS_X`]).
pub const READ_NUMBER_SAMPLE_OFFSETS_Y: [i32; 8] = [0, 7, 7, 8, 8, 8, 12, 12];

/// Where a digit is sampled, relative to its top-left corner.
pub fn read_number_sample_offsets() -> (o: [IVec2; 8])
    ensures
        forall|s: int|
            0 <= s < 8 ==> #[trigger] o@[s] == (IVec2 {
                x: READ_NUMBER_SAMPLE_OFFSETS_X@[s],
                y: READ_NUMBER_SAMPLE_OFFSETS_Y@[s],
            }),
{
    let mut o = [IVec2 { x: 0, y: 0 };8];
    let mut s: usize = 0;
    while s < 8
        invariant
            0 <= s <= 8,
            o@.len() == 8,
            forall|t: int|
                0 <= t < s ==> #[trigger] o@[t] == (IVec2 {
                    x: READ_NUMBER_SAMPLE_OFFSETS_X@[t],
                    y: READ_NUMBER_SAMPLE_OFFSETS_Y@[t],
                }),
        decreases 8 - s,
    {
        o[s] = IVec2 { x: READ_NUMBER_SAMPLE_OFFSETS_X[s], y: READ_NUMBER_SAMPLE_OFFSETS_Y[s] };
        s = s + 1;
    }
    o
}

/// Which sample points are lit for each digit, bit `i` standing for sample point `i`;
/// entry `d` is the pattern of digit `d`.
pub const READ_NUMBER_SAMPLE_FLAGS: [u8; 10] = [
    0b10110111,
    0b10001001,
    0b11001001,
    0b10000001,
    0b00111010,
    0b10100101,
    0b10110011,
    0b00001001,
    0b10110001,
    0b10000101,
];

/// Minimum gray level of a lit sample point, exclusive.
pub const READ_NUMBER_THRESHOLD: u8 = 100;

/// Position of sample point `s` of the digit whose top-left corner is `(x, y)`.
pub open spec fn sample_pos(x: i32, y: i32, s: int) -> IVec2 {
    IVec2 {
        x: (x + READ_NUMBER_SAMPLE_OFFSETS_X@[s]) as i32,
        y: (y + READ_NUMBER_SAMPLE_OFFSETS_Y@[s]) as i32,
    }
}

/// Every sample point of the digit at `(x, y)` is a pixel of the capture.
pub open spec fn digit_readable(sd: &ScreenData, x: i32, y: i32) -> bool {
    forall|s: int|
        0 <= s < 8 ==> {
            &&& fits_i32(x + #[trigger] READ_NUMBER_SAMPLE_OFFSETS_X@[s])
            &&& fits_i32(y + READ_NUMBER_SAMPLE_OFFSETS_Y@[s])
            &&& sd.pixel_ok(sample_pos(x, y, s))
        }
}

/// Sample point `s` of the digit at `(x, y)` is lit.
pub open spec fn sample_lit(sd: &ScreenData, x: i32, y: i32, s: int) -> bool {
    sd.pixel(sample_pos(x, y, s)).gray_spec() > READ_NUMBER_THRESHOLD
}

/// The lit pattern of the first `n` sample points of the digit at `(x, y)`.
pub open spec fn flags_upto(sd: &ScreenData, x: i32, y: i32, n: nat) -> u8
    decreases n,
{
    if n == 0 {
        0
    } else {
        let prev = flags_upto(sd, x, y, (n - 1) as nat);
        if sample_lit(sd, x, y, n - 1) {
            prev | (1u8 << ((n - 1) as u8))
        } else {
            prev
        }
    }
}

/// The lit pattern of all sample points of the digit at `(x, y)`.
pub open spec fn digit_flags(sd: &ScreenData, x: i32, y: i32) -> u8 {
    flags_upto(sd, x, y, 8)
}

/// The digit whose pattern is `flags`, if any.
pub open spec fn digit_of(flags: u8) -> Option<u8> {
    if exists|d: int| 0 <= d < 10 && READ_NUMBER_SAMPLE_FLAGS@[d] == flags {
        Some((choose|d: int| 0 <= d < 10 && READ_NUMBER_SAMPLE_FLAGS@[d] == flags) as u8)
    } else {
        None
    }
}

/// What [`ScreenData::read_number`] reads for the digit at `(x, y)`.
pub open spec fn read_number_spec(sd: &ScreenData, x: i32, y: i32) -> Result<u8, ReadNumberError> {
    match digit_of(digit_flags(sd, x, y)) {
        Some(d) => Ok(d),
        None => Err(ReadNumberError::UnknownSequence { flags: digit_flags(sd, x, y) }),
    }
}

/// Bit `s` of `flags` is set.
pub open spec fn flag_bit(flags: u8, s: u8) -> bool {
    (flags >> s) & 1u8 == 1u8
}

proof fn lemma_or_new_bit(prev: u8, k: u8, s: u8)
    by (bit_vector)
    requires
        k < 8,
        s < 8,
        (prev as u16) < (1u16 << (k as u16)),
    ensures
        s < k ==> (((prev | (1u8 << k)) >> s) & 1u8 == 1u8) == ((prev >> s) & 1u8 == 1u8),
        s == k ==> ((prev | (1u8 << k)) >> s) & 1u8 == 1u8,
        s == k ==> (prev >> s) & 1u8 != 1u8,
        ((prev | (1u8 << k)) as u16) < (1u16 << ((k + 1) as u16)),
        (prev as u16) < (1u16 << ((k + 1) as u16)),
{
}

/// Bit `s` of the lit pattern of a digit is set exactly when sample point `s` is lit.
pub proof fn lemma_flag_bits(sd: &ScreenData, x: i32, y: i32, n: nat)
    requires
        n <= 8,
    ensures
        (flags_upto(sd, x, y, n) as u16) < (1u16 << (n as u16)),
        forall|s: u8| s < n ==> flag_bit(flags_upto(sd, x, y, n), s) == sample_lit(sd, x, y, s as int),
    decreases n,
{
    if n == 0 {
        assert((0u8 as u16) < (1u16 << 0u16)) by (bit_vector);
    } else {
        let k = (n - 1) as u8;
        lemma_flag_bits(sd, x, y, (n - 1) as nat);
        let prev = flags_upto(sd, x, y, (n - 1) as nat);
        assert forall|s: u8| s < n implies flag_bit(flags_upto(sd, x, y, n), s) == sample_lit(
            sd,
            x,
            y,
            s as int,
        ) by {
            lemma_or_new_bit(prev, k, s);
        }
        lemma_or_new_bit(prev, k, 0);
    }
}

/// Bit `s` of [`digit_flags`] is set exactly when sample point `s` is lit.
pub proof fn lemma_digit_flag_bits(sd: &ScreenData, x: i32, y: i32)
    ensures
        forall|s: u8| s < 8 ==> flag_bit(digit_flags(sd, x, y), s) == sample_lit(sd, x, y, s as int),
{
    lemma_flag_bits(sd, x, y, 8);
}

/// No two digits share a pattern.
pub proof fn lemma_digit_patterns_distinct()
    ensures
        forall|i: int, j: int|
            0 <= i < 10 && 0 <= j < 10 && i != j ==> READ_NUMBER_SAMPLE_FLAGS@[i]
                != READ_NUMBER_SAMPLE_FLAGS@[j],
{
}

impl ScreenData {
    /// Reads the digit whose top-left corner is at `(x, y)`
    pub fn read_number(&self, x: i32, y: i32) -> (res: Result<u8, ReadNumberError>)
        requires
            digit_readable(self, x, y),
        ensures
            res == read_number_spec(self, x, y),
    {
        let mut guess_bitflags: u8 = 0;
        let mut sample: u8 = 0;
        while sample < 8
            invariant
                0 <= sample <= 8,
                digit_readable(self, x, y),
                guess_bitflags == flags_upto(self, x, y, sample as nat),
            decreases 8 - sample,
        {
            let ox = READ_NUMBER_SAMPLE_OFFSETS_X[sample as usize];
            let oy = READ_NUMBER_SAMPLE_OFFSETS_Y[sample as usize];
            assert(fits_i32(x + READ_NUMBER_SAMPLE_OFFSETS_X@[sample as int]));
            let sample_pos = IVec2 { x: x + ox, y: y + oy };
            if self.pixel_color_at(sample_pos).gray() > READ_NUMBER_THRESHOLD {
                guess_bitflags = guess_bitflags | (1u8 << sample);
            }
            sample = sample + 1;
        }
        let mut d: usize = 0;
        while d < 10
            invariant
                0 <= d <= 10,
                guess_bitflags == digit_flags(self, x, y),
                forall|j: int| 0 <= j < d ==> READ_NUMBER_SAMPLE_FLAGS@[j] != guess_bitflags,
            decreases 10 - d,
        {
            if READ_NUMBER_SAMPLE_FLAGS[d] == guess_bitflags {
                proof {
                    lemma_digit_patterns_distinct();
                    let c = choose|e: int| 0 <= e < 10 && READ_NUMBER_SAMPLE_FLAGS@[e] == guess_bitflags;
                    assert(c == d);
                }
                return Ok(d as u8);
            }
            d = d + 1;
        }
        Err(ReadNumberError::UnknownSequence { flags: guess_bitflags })
    }
}


/// Horizontal position of the clock's minute digit.
pub const CLK_MIN_X: i32 = 1807;

/// Vertical position of the clock's digits.
pub const CLK_Y: i32 = 85;

/// Horizontal position of the clock's tens-of-seconds digit.
pub const CLK_10SEC_X: i32 = 1832;

/// Horizontal position of the clock's seconds digit.
pub const CLK_SEC_X: i32 = 1849;

/// Horizontal position of the clock's tenth-of-a-second digit.
pub const CLK_DECISEC_X: i32 = 1873;

/// Every digit of the game clock can be read off the capture.
pub open spec fn clock_readable(sd: &ScreenData) -> bool {
    &&& digit_readable(sd, CLK_DECISEC_X, CLK_Y)
    &&& digit_readable(sd, CLK_SEC_X, CLK_Y)
    &&& digit_readable(sd, CLK_10SEC_X, CLK_Y)
    &&& digit_readable(sd, CLK_MIN_X, CLK_Y)
}

/// The time, in deciseconds, that a clock showing `minute:tens seconds.deciseconds` shows.
pub open spec fn clock_value(deciseconds: int, seconds: int, tens_of_seconds: int, minute: int) -> int {
    deciseconds + 10 * (seconds + 10 * tens_of_seconds + 60 * minute)
}

/// The error of a digit reading, if it failed.
pub open spec fn read_error(r: Result<u8, ReadNumberError>) -> Option<ReadNumberError> {
    match r {
        Ok(_) => None,
        Err(e) => Some(e),
    }
}

/// What [`ScreenData::read_game_clock`] reads off the capture.
pub open spec fn read_game_clock_spec(sd: &ScreenData) -> Result<u16, [Option<ReadNumberError>; 4]> {
    let d = read_number_spec(sd, CLK_DECISEC_X, CLK_Y);
    let s = read_number_spec(sd, CLK_SEC_X, CLK_Y);
    let t = read_number_spec(sd, CLK_10SEC_X, CLK_Y);
    let m = read_number_spec(sd, CLK_MIN_X, CLK_Y);
    if d is Ok && s is Ok && t is Ok && m is Ok {
        Ok(clock_value(d->Ok_0 as int, s->Ok_0 as int, t->Ok_0 as int, m->Ok_0 as int) as u16)
    } else {
        Err([read_error(m), read_error(t), read_error(s), read_error(d)])
    }
}

/// A digit that was read is one of `0..=9`.
proof fn lemma_read_digit_range(sd: &ScreenData, x: i32, y: i32)
    ensures
        read_number_spec(sd, x, y) matches Ok(d) ==> d < 10,
{
    let f = digit_flags(sd, x, y);
    if exists|d: int| 0 <= d < 10 && READ_NUMBER_SAMPLE_FLAGS@[d] == f {
        let d = choose|d: int| 0 <= d < 10 && READ_NUMBER_SAMPLE_FLAGS@[d] == f;
        assert((d as u8) < 10);
    }
}

impl ScreenData {
    /// Run this about once every frame
    ///
    /// Returns time in deciseconds on success, or each digit's error, minute first.
    pub fn read_game_clock(&self) -> (res: Result<u16, [Option<ReadNumberError>; 4]>)
        requires
            clock_readable(self),
        ensures
            res == read_game_clock_spec(self),
    {
        let deciseconds = self.read_number(CLK_DECISEC_X, CLK_Y);
        let seconds = self.read_number(CLK_SEC_X, CLK_Y);
        let tens_of_seconds = self.read_number(CLK_10SEC_X, CLK_Y);
        let minute = self.read_number(CLK_MIN_X, CLK_Y);
        proof {
            lemma_read_digit_range(self, CLK_DECISEC_X, CLK_Y);
            lemma_read_digit_range(self, CLK_SEC_X, CLK_Y);
            lemma_read_digit_range(self, CLK_10SEC_X, CLK_Y);
            lemma_read_digit_range(self, CLK_MIN_X, CLK_Y);
        }
        match (deciseconds, seconds, tens_of_seconds, minute) {
            (Ok(d), Ok(s), Ok(t), Ok(m)) => {
                Ok(d as u16 + DECISECS_PER_SEC * (s as u16 + 10 * t as u16 + SECS_PER_MIN * m as u16))
            },
            _ => {
                let e = [err_of(minute), err_of(tens_of_seconds), err_of(seconds), err_of(deciseconds)];
                proof {
                    assert(e@ =~= read_game_clock_spec(self)->Err_0@);
                }
                Err(e)
            },
        }
    }
}

/// The error of a digit reading, if it failed.
fn err_of(r: Result<u8, ReadNumberError>) -> (e: Option<ReadNumberError>)
    ensures
        e == read_error(r),
{
    match r {
        Ok(_) => None,
        Err(e) => Some(e),
    }
}

/// The sample points around `start`: itself, then `scale` below, right, above and left of it.
pub open spec fn sample_points_spec(start: IVec2, scale: i32) -> Seq<IVec2> {
    seq![
        start,
        IVec2 { x: start.x, y: (start.y + scale) as i32 },
        IVec2 { x: (start.x + scale) as i32, y: start.y },
        IVec2 { x: start.x, y: (start.y - scale) as i32 },
        IVec2 { x: (start.x - scale) as i32, y: start.y },
    ]
}

/// The points around `start` at distance `scale` are representable.
pub open spec fn sample_points_fit(start: IVec2, scale: i32) -> bool {
    &&& fits_i32(start.x + scale)
    &&& fits_i32(start.x - scale)
    &&& fits_i32(start.y + scale)
    &&& fits_i32(start.y - scale)
}

pub fn generate_sample_points(start: IVec2, scale: i32) -> (p: [IVec2; 5])
    requires
        sample_points_fit(start, scale),
    ensures
        p@ == sample_points_spec(start, scale),
{
    let p = [
        start,
        IVec2 { x: start.x, y: start.y + scale },
        IVec2 { x: start.x + scale, y: start.y },
        IVec2 { x: start.x, y: start.y - scale },
        IVec2 { x: start.x - scale, y: start.y },
    ];
    assert(p@ =~= sample_points_spec(start, scale));
    p
}

/// Distance of the sample points from the center in [`ScreenData::test_samples_gray`].
pub const SAMPLE_SCALE: i32 = 4;

/// `|a - b|` of two gray levels.
pub open spec fn abs_diff(a: int, b: int) -> int {
    if a < b {
        b - a
    } else {
        a - b
    }
}

/// The number of the first `n` of `points` whose gray level matches `compare`: it differs by
/// at most `max_difference`.
pub open spec fn count_gray_matching(
    sd: &ScreenData,
    points: Seq<IVec2>,
    compare: u8,
    max_difference: u8,
    n: nat,
) -> int
    decreases n,
{
    if n == 0 {
        0
    } else {
        count_gray_matching(sd, points, compare, max_difference, (n - 1) as nat) + if abs_diff(
            sd.pixel(points[n - 1]).gray_spec(),
            compare as int,
        ) <= max_difference {
            1int
        } else {
            0int
        }
    }
}

/// The sample points around `center` can all be read.
pub open spec fn samples_readable(sd: &ScreenData, center: IVec2) -> bool {
    &&& sample_points_fit(center, SAMPLE_SCALE)
    &&& forall|k: int|
        0 <= k < 5 ==> #[trigger] sd.pixel_ok(sample_points_spec(center, SAMPLE_SCALE)[k])
}

/// Number of sample points around `center` whose gray level matches `compare`: it differs
/// by at most `max_difference`.
pub open spec fn test_samples_gray_spec(sd: &ScreenData, center: IVec2, compare: u8, max_difference: u8) -> int {
    count_gray_matching(sd, sample_points_spec(center, SAMPLE_SCALE), compare, max_difference, 5)
}

impl ScreenData {
    /// Counts the sample points around `center` (itself and 4 pixels away in each direction)
    /// whose gray level matches `compare`: it differs by at most `max_difference`.
    pub fn test_samples_gray(&self, center: IVec2, compare: u8, max_difference: u8) -> (n: i32)
        requires
            samples_readable(self, center),
        ensures
            n == test_samples_gray_spec(self, center, compare, max_difference),
            0 <= n <= 5,
    {
        let points = generate_sample_points(center, SAMPLE_SCALE);
        let mut match_count: i32 = 0;
        let mut k: usize = 0;
        while k < 5
            invariant
                0 <= k <= 5,
                points@ == sample_points_spec(center, SAMPLE_SCALE),
                samples_readable(self, center),
                match_count == count_gray_matching(self, points@, compare, max_difference, k as nat),
                0 <= match_count <= k,
            decreases 5 - k,
        {
            let sample = self.pixel_color_at(points[k]).gray();
            let diff = if sample < compare {
                compare - sample
            } else {
                sample - compare
            };
            if diff <= max_difference {
                match_count = match_count + 1;
            }
            k = k + 1;
        }
        match_count
    }
}


/// A value that can be read off a screen capture.
pub trait FromPixels: Sized {
    type Err;

    fn from_pixels(sd: &ScreenData) -> Result<Self, Self::Err>;
}

/// A screen capture that values can be read off.
pub trait ParsePx<T: FromPixels> {
    fn parse_px(&self) -> Result<T, T::Err>;
}

impl<T: FromPixels> ParsePx<T> for ScreenData {
    fn parse_px(&self) -> (r: Result<T, T::Err>)
        ensures
            call_ensures(T::from_pixels, (self,), r),
    {
        T::from_pixels(self)
    }
}

} // verus!
