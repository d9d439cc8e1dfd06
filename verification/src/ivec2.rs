//! Screen position: an integer 2D vector.
use vstd::prelude::*;
use vstd::std_specs::convert::FromSpecImpl;
use vstd::std_specs::ops::{AddSpecImpl, DivSpecImpl, MulSpecImpl, SubSpecImpl};

use crate::isqrt::{is_isqrt, isqrt_u64};

verus! {

/// Integer 2D vector
#[derive(Debug, Clone, Copy, PartialEq, Eq, Hash, Structural)]
pub struct IVec2 {
    /// Horizontal coordinate
    pub x: i32,
    /// Vertical coordinate
    pub y: i32,
}

impl Default for IVec2 {
    fn default() -> (v: Self)
        ensures
            v.x == 0 && v.y == 0,
    {
        Self::new(0, 0)
    }
}

/// Whether an integer fits in an `i32`.
pub open spec fn fits_i32(v: int) -> bool {
    i32::MIN <= v <= i32::MAX
}

/// Truncating division (rounding towards zero), as Rust's `/` computes it on signed integers.
pub open spec fn trunc_div(a: int, b: int) -> int {
    if (a < 0) == (b < 0) {
        abs_int(a) / abs_int(b)
    } else {
        -(abs_int(a) / abs_int(b))
    }
}

/// Whether `a / b` on `i32` is defined (no division by zero, no overflow).
pub open spec fn div_ok_i32(a: i32, b: i32) -> bool {
    b != 0 && !(a == i32::MIN && b == -1)
}

/// `|v|` of an `i32`, which always fits in a `u32`.
fn abs_u32(v: i32) -> (a: u32)
    ensures
        a == abs_int(v as int),
{
    if v < 0 {
        (-(v as i64)) as u32
    } else {
        v as u32
    }
}

/// Rust's signed `i32` division, which truncates towards zero.
pub fn div_i32(a: i32, b: i32) -> (q: i32)
    requires
        div_ok_i32(a, b),
    ensures
        q == trunc_div(a as int, b as int),
{
    let ua = abs_u32(a);
    let ub = abs_u32(b);
    let uq = ua / ub;
    proof {
        assert(uq <= ua) by (nonlinear_arith)
            requires
                uq == ua / ub,
                ub >= 1,
        ;
        if uq == 0x8000_0000 {
            assert(ub == 1) by (nonlinear_arith)
                requires
                    uq == ua / ub,
                    ub >= 1,
                    ua <= 0x8000_0000,
                    uq == 0x8000_0000,
            ;
        }
    }
    if (a < 0) == (b < 0) {
        uq as i32
    } else {
        (-(uq as i64)) as i32
    }
}

impl IVec2 {
    /// Construct a new `IVec2` from `x` and `y`
    pub fn new(x: i32, y: i32) -> (v: Self)
        ensures
            v.x == x && v.y == y,
    {
        Self { x, y }
    }

    /// Dot product, as a mathematical integer.
    pub open spec fn dot_spec(self, rhs: Self) -> int {
        self.x * rhs.x + self.y * rhs.y
    }

    /// Dot product
    pub fn dot(self, rhs: Self) -> (d: i64)
        requires
            i64::MIN <= self.dot_spec(rhs) <= i64::MAX,
        ensures
            d == self.dot_spec(rhs),
    {
        proof {
            lemma_product_fits_i64(self.x as int, rhs.x as int);
            lemma_product_fits_i64(self.y as int, rhs.y as int);
        }
        let a = self.x as i64 * rhs.x as i64;
        let b = self.y as i64 * rhs.y as i64;
        a + b
    }

    /// Vector norm, the square of the magnitude.
    pub open spec fn mag_sqr_spec(self) -> int {
        self.x * self.x + self.y * self.y
    }

    /// Vector norm - square of [`mag`](Self::mag)
    pub fn mag_sqr(self) -> (m: u64)
        ensures
            m == self.mag_sqr_spec(),
    {
        let x: u64 = abs_i32(self.x);
        let y: u64 = abs_i32(self.y);
        proof {
            lemma_square_le_2_62(self.x as int, x as int);
            lemma_square_le_2_62(self.y as int, y as int);
        }
        x * x + y * y
    }

    /// Vector magnitude - length, rounded down
    pub fn mag(self) -> (m: u32)
        ensures
            is_isqrt(self.mag_sqr_spec(), m as int),
    {
        let s = self.mag_sqr();
        let r = isqrt_u64(s);
        proof {
            lemma_square_le_2_62(self.x as int, abs_int(self.x as int));
            lemma_square_le_2_62(self.y as int, abs_int(self.y as int));
            assert(s <= 0x8000_0000_0000_0000u64);
            assert(r * r <= s);
            if r > 0xffff_ffff {
                assert(r * r >= 0x1_0000_0000 * 0x1_0000_0000) by (nonlinear_arith)
                    requires
                        r > 0xffff_ffff,
                ;
            }
        }
        r as u32
    }

    /// Get the `n`th vector component
    pub fn get(&self, n: usize) -> (c: Option<&i32>)
        ensures
            n == 0 ==> c == Some(&self.x),
            n == 1 ==> c == Some(&self.y),
            n > 1 ==> c is None,
    {
        match n {
            0 => Some(&self.x),
            1 => Some(&self.y),
            _ => None,
        }
    }

    /// Get the `n`th vector component mutably
    pub fn get_mut(&mut self, n: usize) -> (c: Option<&mut i32>)
        ensures
            n == 0 ==> c is Some && *c->0 == old(self).x && *final(self) == (IVec2 {
                x: *final(c->0),
                y: old(self).y,
            }),
            n == 1 ==> c is Some && *c->0 == old(self).y && *final(self) == (IVec2 {
                x: old(self).x,
                y: *final(c->0),
            }),
            n > 1 ==> c is None && *final(self) == *old(self),
    {
        match n {
            0 => Some(&mut self.x),
            1 => Some(&mut self.y),
            _ => None,
        }
    }

    /// The vector components, in order (`into_iter` walks them)
    pub fn iter(&self) -> (c: [&i32; 2])
        ensures
            *c[0] == self.x,
            *c[1] == self.y,
    {
        [&self.x, &self.y]
    }

    /// The mutable vector components, in order (`into_iter` walks them)
    pub fn iter_mut(&mut self) -> (c: [&mut i32; 2])
        ensures
            *c[0] == old(self).x,
            *c[1] == old(self).y,
            *final(self) == (IVec2 { x: *final(c[0]), y: *final(c[1]) }),
    {
        [&mut self.x, &mut self.y]
    }

    /// In-place componentwise sum
    pub fn add_assign(&mut self, rhs: Self)
        requires
            fits_i32(old(self).x + rhs.x),
            fits_i32(old(self).y + rhs.y),
        ensures
            final(self).x == old(self).x + rhs.x,
            final(self).y == old(self).y + rhs.y,
    {
        self.x = self.x + rhs.x;
        self.y = self.y + rhs.y;
    }

    /// In-place componentwise difference
    pub fn sub_assign(&mut self, rhs: Self)
        requires
            fits_i32(old(self).x - rhs.x),
            fits_i32(old(self).y - rhs.y),
        ensures
            final(self).x == old(self).x - rhs.x,
            final(self).y == old(self).y - rhs.y,
    {
        self.x = self.x - rhs.x;
        self.y = self.y - rhs.y;
    }

    /// In-place Hadamard product
    pub fn mul_assign(&mut self, rhs: Self)
        requires
            fits_i32(old(self).x * rhs.x),
            fits_i32(old(self).y * rhs.y),
        ensures
            final(self).x == old(self).x * rhs.x,
            final(self).y == old(self).y * rhs.y,
    {
        self.x = self.x * rhs.x;
        self.y = self.y * rhs.y;
    }

    /// In-place Hadamard quotient
    pub fn div_assign(&mut self, rhs: Self)
        requires
            div_ok_i32(old(self).x, rhs.x),
            div_ok_i32(old(self).y, rhs.y),
        ensures
            final(self).x == trunc_div(old(self).x as int, rhs.x as int),
            final(self).y == trunc_div(old(self).y as int, rhs.y as int),
    {
        self.x = div_i32(self.x, rhs.x);
        self.y = div_i32(self.y, rhs.y);
    }

    /// Scalar product
    pub fn mul_scalar(self, rhs: i32) -> (v: Self)
        requires
            fits_i32(self.x * rhs),
            fits_i32(self.y * rhs),
        ensures
            v.x == self.x * rhs,
            v.y == self.y * rhs,
    {
        Self { x: self.x * rhs, y: self.y * rhs }
    }

    /// In-place scalar product
    pub fn mul_assign_scalar(&mut self, rhs: i32)
        requires
            fits_i32(old(self).x * rhs),
            fits_i32(old(self).y * rhs),
        ensures
            final(self).x == old(self).x * rhs,
            final(self).y == old(self).y * rhs,
    {
        self.x = self.x * rhs;
        self.y = self.y * rhs;
    }

    /// Scalar quotient
    pub fn div_scalar(self, rhs: i32) -> (v: Self)
        requires
            div_ok_i32(self.x, rhs),
            div_ok_i32(self.y, rhs),
        ensures
            v.x == trunc_div(self.x as int, rhs as int),
            v.y == trunc_div(self.y as int, rhs as int),
    {
        Self { x: div_i32(self.x, rhs), y: div_i32(self.y, rhs) }
    }

    /// In-place scalar quotient
    pub fn div_assign_scalar(&mut self, rhs: i32)
        requires
            div_ok_i32(old(self).x, rhs),
            div_ok_i32(old(self).y, rhs),
        ensures
            final(self).x == trunc_div(old(self).x as int, rhs as int),
            final(self).y == trunc_div(old(self).y as int, rhs as int),
    {
        self.x = div_i32(self.x, rhs);
        self.y = div_i32(self.y, rhs);
    }
}

/// Absolute value as a mathematical integer.
pub open spec fn abs_int(v: int) -> int {
    if v < 0 {
        -v
    } else {
        v
    }
}

/// `(v as i64).unsigned_abs()`
fn abs_i32(v: i32) -> (a: u64)
    ensures
        a == abs_int(v as int),
{
    if v < 0 {
        (-(v as i64)) as u64
    } else {
        v as u64
    }
}

proof fn lemma_product_fits_i64(a: int, b: int)
    requires
        i32::MIN <= a <= i32::MAX,
        i32::MIN <= b <= i32::MAX,
    ensures
        -0x4000_0000_0000_0000 <= a * b <= 0x4000_0000_0000_0000,
{
    assert(-0x4000_0000_0000_0000 <= a * b <= 0x4000_0000_0000_0000) by (nonlinear_arith)
        requires
            -0x8000_0000 <= a <= 0x8000_0000,
            -0x8000_0000 <= b <= 0x8000_0000,
    ;
}

proof fn lemma_square_le_2_62(v: int, a: int)
    requires
        i32::MIN <= v <= i32::MAX,
        a == abs_int(v),
    ensures
        a * a == v * v,
        0 <= v * v <= 0x4000_0000_0000_0000,
{
    assert(0 <= a <= 0x8000_0000);
    assert(a * a <= 0x8000_0000 * 0x8000_0000) by (nonlinear_arith)
        requires
            0 <= a <= 0x8000_0000,
    ;
    assert(a * a == v * v) by (nonlinear_arith)
        requires
            a == v || a == -v,
    ;
    assert(0 <= a * a) by (nonlinear_arith)
        requires
            0 <= a,
    ;
}

impl core::ops::Add for IVec2 {
    type Output = Self;

    fn add(self, rhs: Self) -> (v: Self) {
        Self { x: self.x + rhs.x, y: self.y + rhs.y }
    }
}

impl AddSpecImpl for IVec2 {
    open spec fn obeys_add_spec() -> bool {
        true
    }

    open spec fn add_req(self, rhs: Self) -> bool {
        fits_i32(self.x + rhs.x) && fits_i32(self.y + rhs.y)
    }

    open spec fn add_spec(self, rhs: Self) -> Self {
        IVec2 { x: (self.x + rhs.x) as i32, y: (self.y + rhs.y) as i32 }
    }
}

impl core::ops::Sub for IVec2 {
    type Output = Self;

    fn sub(self, rhs: Self) -> (v: Self) {
        Self { x: self.x - rhs.x, y: self.y - rhs.y }
    }
}

impl SubSpecImpl for IVec2 {
    open spec fn obeys_sub_spec() -> bool {
        true
    }

    open spec fn sub_req(self, rhs: Self) -> bool {
        fits_i32(self.x - rhs.x) && fits_i32(self.y - rhs.y)
    }

    open spec fn sub_spec(self, rhs: Self) -> Self {
        IVec2 { x: (self.x - rhs.x) as i32, y: (self.y - rhs.y) as i32 }
    }
}

impl core::ops::Mul for IVec2 {
    type Output = Self;

    /// Hadamard product
    fn mul(self, rhs: Self) -> (v: Self) {
        Self { x: self.x * rhs.x, y: self.y * rhs.y }
    }
}

impl MulSpecImpl for IVec2 {
    open spec fn obeys_mul_spec() -> bool {
        true
    }

    open spec fn mul_req(self, rhs: Self) -> bool {
        fits_i32(self.x * rhs.x) && fits_i32(self.y * rhs.y)
    }

    open spec fn mul_spec(self, rhs: Self) -> Self {
        IVec2 { x: (self.x * rhs.x) as i32, y: (self.y * rhs.y) as i32 }
    }
}

impl core::ops::Div for IVec2 {
    type Output = Self;

    /// Hadamard quotient
    fn div(self, rhs: Self) -> (v: Self) {
        Self { x: div_i32(self.x, rhs.x), y: div_i32(self.y, rhs.y) }
    }
}

impl DivSpecImpl for IVec2 {
    open spec fn obeys_div_spec() -> bool {
        true
    }

    open spec fn div_req(self, rhs: Self) -> bool {
        div_ok_i32(self.x, rhs.x) && div_ok_i32(self.y, rhs.y)
    }

    open spec fn div_spec(self, rhs: Self) -> Self {
        IVec2 {
            x: trunc_div(self.x as int, rhs.x as int) as i32,
            y: trunc_div(self.y as int, rhs.y as int) as i32,
        }
    }
}

impl From<(i32, i32)> for IVec2 {
    fn from(v: (i32, i32)) -> (r: Self) {
        Self { x: v.0, y: v.1 }
    }
}

impl FromSpecImpl<(i32, i32)> for IVec2 {
    open spec fn obeys_from_spec() -> bool {
        true
    }

    open spec fn from_spec(v: (i32, i32)) -> Self {
        IVec2 { x: v.0, y: v.1 }
    }
}

impl From<IVec2> for (i32, i32) {
    fn from(v: IVec2) -> (r: Self) {
        (v.x, v.y)
    }
}

impl FromSpecImpl<IVec2> for (i32, i32) {
    open spec fn obeys_from_spec() -> bool {
        true
    }

    open spec fn from_spec(v: IVec2) -> Self {
        (v.x, v.y)
    }
}

impl From<[i32; 2]> for IVec2 {
    fn from(v: [i32; 2]) -> (r: Self) {
        Self { x: v[0], y: v[1] }
    }
}

impl FromSpecImpl<[i32; 2]> for IVec2 {
    open spec fn obeys_from_spec() -> bool {
        true
    }

    open spec fn from_spec(v: [i32; 2]) -> Self {
        IVec2 { x: v@[0], y: v@[1] }
    }
}

impl From<IVec2> for [i32; 2] {
    fn from(v: IVec2) -> (r: Self) {
        [v.x, v.y]
    }
}

impl FromSpecImpl<IVec2> for [i32; 2] {
    open spec fn obeys_from_spec() -> bool {
        true
    }

    open spec fn from_spec(v: IVec2) -> Self {
        [v.x, v.y]
    }
}

/// Subtracting what was added gives the vector back, whenever the sum fits.
pub proof fn lemma_add_then_sub(a: IVec2, b: IVec2)
    requires
        fits_i32(a.x + b.x),
        fits_i32(a.y + b.y),
    ensures
        <IVec2 as vstd::std_specs::ops::AddSpec>::add_spec(a, b) == (IVec2 { x: (a.x + b.x) as i32, y: (a.y + b.y) as i32 }),
        <IVec2 as vstd::std_specs::ops::SubSpec>::sub_spec(<IVec2 as vstd::std_specs::ops::AddSpec>::add_spec(a, b), b) == a,
{
}

/// Addition is commutative.
pub proof fn lemma_add_commutes(a: IVec2, b: IVec2)
    requires
        fits_i32(a.x + b.x),
        fits_i32(a.y + b.y),
    ensures
        <IVec2 as vstd::std_specs::ops::AddSpec>::add_spec(a, b) == <IVec2 as vstd::std_specs::ops::AddSpec>::add_spec(b, a),
{
}

/// Converting to a pair or an array and back gives the same vector.
pub proof fn lemma_conversions_round_trip(v: IVec2)
    ensures
        <IVec2 as vstd::std_specs::convert::FromSpec<(i32, i32)>>::from_spec(<(i32, i32) as vstd::std_specs::convert::FromSpec<IVec2>>::from_spec(v))
            == v,
        <IVec2 as vstd::std_specs::convert::FromSpec<[i32; 2]>>::from_spec(<[i32; 2] as vstd::std_specs::convert::FromSpec<IVec2>>::from_spec(v)) == v,
{
}

} // verus!
