use super::number::{fits, Number};
use core::ops::{Add, Index, Mul, Neg, Sub};
use vstd::prelude::*;
use vstd::std_specs::convert::FromSpecImpl;
use vstd::std_specs::ops::{AddSpecImpl, MulSpecImpl, NegSpecImpl, SubSpecImpl};

verus! {

/// A 2D vector, point, position or direction in whole device units.
///
/// Everything here is exact integer arithmetic. A function whose result could
/// leave the range of [`Number`] says so in its `requires`.
#[derive(Debug, Copy, Clone, PartialEq, Eq, Structural)]
pub struct Vector {
    pub x: Number,
    pub y: Number,
}

/// The absolute value of an integer.
pub open spec fn magnitude(value: int) -> int {
    if value < 0 {
        -value
    } else {
        value
    }
}

/// The smaller of two integers.
pub open spec fn lesser(a: int, b: int) -> int {
    if b < a {
        b
    } else {
        a
    }
}

/// The larger of two integers.
pub open spec fn greater(a: int, b: int) -> int {
    if b > a {
        b
    } else {
        a
    }
}

/// The product of two numbers stays well inside 128 bits.
proof fn lemma_product_bounds(a: Number, b: Number)
    ensures
        -0x4000_0000_0000_0000_0000_0000_0000_0000 < a * b
            <= 0x4000_0000_0000_0000_0000_0000_0000_0000,
{
    let low: int = -0x8000_0000_0000_0000;
    let high: int = 0x7fff_ffff_ffff_ffff;
    assert(low <= a <= high && low <= b <= high);
    assert((a - low) * (b - low) >= 0 && (high - a) * (high - b) >= 0 && (a - low) * (high - b)
        >= 0 && (high - a) * (b - low) >= 0) by (nonlinear_arith)
        requires
            low <= a <= high,
            low <= b <= high,
    ;
    assert((a - low) * (b - low) == a * b - low * a - low * b + low * low) by (nonlinear_arith);
    assert((high - a) * (high - b) == a * b - high * a - high * b + high * high)
        by (nonlinear_arith);
    assert((a - low) * (high - b) == -(a * b) + high * a + low * b - low * high)
        by (nonlinear_arith);
    assert((high - a) * (b - low) == -(a * b) + low * a + high * b - low * high)
        by (nonlinear_arith);
}

/// The absolute value of `value`, which must not be the one number without one.
fn absolute(value: Number) -> (result: Number)
    requires
        value > Number::MIN,
    ensures
        result == magnitude(value as int),
{
    if value < 0 {
        -value
    } else {
        value
    }
}

/// The product of two numbers, in a type that holds every such product.
fn product(a: Number, b: Number) -> (result: i128)
    ensures
        result == a * b,
        -0x4000_0000_0000_0000_0000_0000_0000_0000 < result
            <= 0x4000_0000_0000_0000_0000_0000_0000_0000,
{
    proof {
        lemma_product_bounds(a, b);
    }
    (a as i128) * (b as i128)
}

impl Vector {
    /// The dot product, as an integer.
    pub open spec fn dot_spec(self, other: Vector) -> int {
        self.x * other.x + self.y * other.y
    }

    /// The third coordinate of the cross product of the two vectors, both
    /// extended by a zero: the dot product of `other` with the normal of `self`.
    pub open spec fn cross_spec(self, other: Vector) -> int {
        self.x * other.y - self.y * other.x
    }

    /// The vector whose coordinates are the smaller ones of the two vectors.
    pub open spec fn min_spec(self, other: Vector) -> Vector {
        Vector {
            x: if other.x < self.x {
                other.x
            } else {
                self.x
            },
            y: if other.y < self.y {
                other.y
            } else {
                self.y
            },
        }
    }

    /// The vector whose coordinates are the larger ones of the two vectors.
    pub open spec fn max_spec(self, other: Vector) -> Vector {
        Vector {
            x: if other.x > self.x {
                other.x
            } else {
                self.x
            },
            y: if other.y > self.y {
                other.y
            } else {
                self.y
            },
        }
    }

    pub fn new(x: Number, y: Number) -> (result: Self)
        ensures
            result == (Vector { x, y }),
    {
        Self { x, y }
    }

    /// A vector whose two coordinates are both `xy`.
    pub fn new_square(xy: Number) -> (result: Self)
        ensures
            result == (Vector { x: xy, y: xy }),
    {
        Self::new(xy, xy)
    }

    pub fn zero() -> (result: Self)
        ensures
            result == (Vector { x: 0, y: 0 }),
    {
        Self::new(0, 0)
    }

    pub fn unit_x() -> (result: Self)
        ensures
            result == (Vector { x: 1, y: 0 }),
    {
        Self::new(1, 0)
    }

    pub fn unit_y() -> (result: Self)
        ensures
            result == (Vector { x: 0, y: 1 }),
    {
        Self::new(0, 1)
    }

    /// The l1 norm (Manhattan distance).
    pub fn norm_1(&self) -> (result: Number)
        requires
            fits(magnitude(self.x as int) + magnitude(self.y as int)),
        ensures
            result == magnitude(self.x as int) + magnitude(self.y as int),
    {
        absolute(self.x) + absolute(self.y)
    }

    /// The l-infinity norm: the larger of the absolute values of the coordinates.
    pub fn norm_infinity(&self) -> (result: Number)
        requires
            self.x > Number::MIN,
            self.y > Number::MIN,
        ensures
            result == greater(magnitude(self.x as int), magnitude(self.y as int)),
    {
        let x = absolute(self.x);
        let y = absolute(self.y);
        if y > x {
            y
        } else {
            x
        }
    }

    pub fn abs(&self) -> (result: Vector)
        requires
            self.x > Number::MIN,
            self.y > Number::MIN,
        ensures
            result.x == magnitude(self.x as int),
            result.y == magnitude(self.y as int),
    {
        Self { x: absolute(self.x), y: absolute(self.y) }
    }

    /// This vector turned by a quarter turn counter-clockwise. It has the
    /// length of the vector it was made from.
    pub fn normal(&self) -> (result: Self)
        requires
            self.y > Number::MIN,
        ensures
            result.x == -self.y,
            result.y == self.x,
    {
        Self::new(-self.y, self.x)
    }

    /// The dot product with the other vector.
    pub fn dot(&self, other: &Vector) -> (result: Number)
        requires
            fits(self.dot_spec(*other)),
        ensures
            result == self.dot_spec(*other),
    {
        let sum: i128 = product(self.x, other.x) + product(self.y, other.y);
        sum as Number
    }

    /// The cross product with the other vector: positive where `other` lies
    /// to the left of this vector. `a.cross(b)` is the negative of `b.cross(a)`.
    pub fn cross(&self, other: &Vector) -> (result: Number)
        requires
            fits(self.cross_spec(*other)),
        ensures
            result == self.cross_spec(*other),
    {
        let difference: i128 = product(self.x, other.y) - product(self.y, other.x);
        difference as Number
    }

    /// Whether the other vector points to the left of this one.
    pub fn is_left(&self, other: &Self) -> (result: bool)
        ensures
            result == (self.cross_spec(*other) > 0),
    {
        product(self.x, other.y) > product(self.y, other.x)
    }

    /// Whether the other vector points to the right of this one.
    pub fn is_right(&self, other: &Self) -> (result: bool)
        ensures
            result == (self.cross_spec(*other) < 0),
    {
        product(self.x, other.y) < product(self.y, other.x)
    }

    /// Whether the other vector points ahead of this one, less than a quarter
    /// turn away from it.
    pub fn is_ahead(&self, other: &Self) -> (result: bool)
        ensures
            result == (self.dot_spec(*other) > 0),
    {
        product(self.x, other.x) > -product(self.y, other.y)
    }

    /// Whether the other vector points behind this one, more than a quarter
    /// turn away from it.
    pub fn is_behind(&self, other: &Self) -> (result: bool)
        ensures
            result == (self.dot_spec(*other) < 0),
    {
        product(self.x, other.x) < -product(self.y, other.y)
    }

    pub fn min(self, other: &Vector) -> (result: Vector)
        ensures
            result == self.min_spec(*other),
    {
        let mut result = self;
        result.set_to_min_with(other);
        result
    }

    pub fn max(self, other: &Vector) -> (result: Vector)
        ensures
            result == self.max_spec(*other),
    {
        let mut result = self;
        result.set_to_max_with(other);
        result
    }

    /// Sets each coordinate to the smaller one of itself and the coordinate of
    /// the other vector.
    pub fn set_to_min_with(&mut self, other: &Vector)
        ensures
            *final(self) == old(self).min_spec(*other),
    {
        if other.x < self.x {
            self.x = other.x
        };
        if other.y < self.y {
            self.y = other.y
        };
    }

    /// Sets each coordinate to the larger one of itself and the coordinate of
    /// the other vector.
    pub fn set_to_max_with(&mut self, other: &Vector)
        ensures
            *final(self) == old(self).max_spec(*other),
    {
        if other.x > self.x {
            self.x = other.x
        };
        if other.y > self.y {
            self.y = other.y
        };
    }
}

/// The cross product changes its sign when the two vectors change places.
pub proof fn lemma_cross_is_antisymmetric(a: Vector, b: Vector)
    ensures
        a.cross_spec(b) == -b.cross_spec(a),
{
    assert(a.x * b.y == b.y * a.x && a.y * b.x == b.x * a.y) by (nonlinear_arith);
}

/// The cross product with a vector is the dot product of that vector with
/// the normal.
pub proof fn lemma_cross_is_dot_with_normal(a: Vector, b: Vector)
    requires
        a.y > Number::MIN,
    ensures
        a.cross_spec(b) == (Vector { x: (-a.y) as Number, y: a.x }).dot_spec(b),
{
    assert((-a.y) * b.x == -(a.y * b.x)) by (nonlinear_arith);
}

/// The smaller coordinates are at most, and the larger ones at least, the
/// coordinates of either vector.
pub proof fn lemma_min_and_max_bound_both(a: Vector, b: Vector)
    ensures
        a.min_spec(b).x <= a.x && a.min_spec(b).x <= b.x,
        a.min_spec(b).y <= a.y && a.min_spec(b).y <= b.y,
        a.max_spec(b).x >= a.x && a.max_spec(b).x >= b.x,
        a.max_spec(b).y >= a.y && a.max_spec(b).y >= b.y,
        a.min_spec(b) == b.min_spec(a),
        a.max_spec(b) == b.max_spec(a),
{
}

impl Add for Vector {
    type Output = Self;

    fn add(self, rhs: Vector) -> (sum: Self) {
        Self { x: self.x + rhs.x, y: self.y + rhs.y }
    }
}

impl AddSpecImpl for Vector {
    open spec fn obeys_add_spec() -> bool {
        true
    }

    open spec fn add_req(self, rhs: Vector) -> bool {
        fits(self.x + rhs.x) && fits(self.y + rhs.y)
    }

    open spec fn add_spec(self, rhs: Vector) -> Vector {
        Vector { x: (self.x + rhs.x) as Number, y: (self.y + rhs.y) as Number }
    }
}

impl Neg for Vector {
    type Output = Self;

    fn neg(self) -> (negative: Self) {
        Self { x: -self.x, y: -self.y }
    }
}

impl NegSpecImpl for Vector {
    open spec fn obeys_neg_spec() -> bool {
        true
    }

    open spec fn neg_req(self) -> bool {
        self.x > Number::MIN && self.y > Number::MIN
    }

    open spec fn neg_spec(self) -> Vector {
        Vector { x: (-self.x) as Number, y: (-self.y) as Number }
    }
}

impl Sub for Vector {
    type Output = Self;

    fn sub(self, rhs: Vector) -> (difference: Self) {
        Self { x: self.x - rhs.x, y: self.y - rhs.y }
    }
}

impl SubSpecImpl for Vector {
    open spec fn obeys_sub_spec() -> bool {
        true
    }

    open spec fn sub_req(self, rhs: Vector) -> bool {
        fits(self.x - rhs.x) && fits(self.y - rhs.y)
    }

    open spec fn sub_spec(self, rhs: Vector) -> Vector {
        Vector { x: (self.x - rhs.x) as Number, y: (self.y - rhs.y) as Number }
    }
}

impl Mul<Vector> for Number {
    type Output = Vector;

    fn mul(self, rhs: Vector) -> (scaled: Vector) {
        Vector { x: self * rhs.x, y: self * rhs.y }
    }
}

impl MulSpecImpl<Vector> for Number {
    open spec fn obeys_mul_spec() -> bool {
        true
    }

    open spec fn mul_req(self, rhs: Vector) -> bool {
        fits(self * rhs.x) && fits(self * rhs.y)
    }

    open spec fn mul_spec(self, rhs: Vector) -> Vector {
        Vector { x: (self * rhs.x) as Number, y: (self * rhs.y) as Number }
    }
}

impl Mul<Number> for Vector {
    type Output = Self;

    fn mul(self, rhs: Number) -> (scaled: Self) {
        Self { x: self.x * rhs, y: self.y * rhs }
    }
}

impl MulSpecImpl<Number> for Vector {
    open spec fn obeys_mul_spec() -> bool {
        true
    }

    open spec fn mul_req(self, rhs: Number) -> bool {
        fits(self.x * rhs) && fits(self.y * rhs)
    }

    open spec fn mul_spec(self, rhs: Number) -> Vector {
        Vector { x: (self.x * rhs) as Number, y: (self.y * rhs) as Number }
    }
}

impl Mul<Vector> for Vector {
    type Output = Number;

    fn mul(self, rhs: Vector) -> (product: Number) {
        self.dot(&rhs)
    }
}

impl MulSpecImpl<Vector> for Vector {
    open spec fn obeys_mul_spec() -> bool {
        true
    }

    open spec fn mul_req(self, rhs: Vector) -> bool {
        fits(self.dot_spec(rhs))
    }

    open spec fn mul_spec(self, rhs: Vector) -> Number {
        self.dot_spec(rhs) as Number
    }
}

impl Index<usize> for Vector {
    type Output = Number;

    /// The first coordinate at index 0, the second at index 1.
    fn index(&self, index: usize) -> (coordinate: &Number)
        ensures
            *coordinate == if index == 0 {
                self.x
            } else {
                self.y
            },
    {
        if index == 0 {
            &self.x
        } else {
            &self.y
        }
    }
}

impl vstd::std_specs::core::IndexSpecImpl<usize> for Vector {
    open spec fn index_req(&self, index: &usize) -> bool {
        *index < 2
    }
}

impl From<[Number; 2]> for Vector {
    fn from(value: [Number; 2]) -> (vector: Self) {
        Self::new(value[0], value[1])
    }
}

impl FromSpecImpl<[Number; 2]> for Vector {
    open spec fn obeys_from_spec() -> bool {
        true
    }

    open spec fn from_spec(value: [Number; 2]) -> Vector {
        Vector { x: value@[0], y: value@[1] }
    }
}

impl From<Vector> for [Number; 2] {
    fn from(value: Vector) -> (coordinates: Self)
        ensures
            coordinates@ == seq![value.x, value.y],
    {
        let coordinates = [value.x, value.y];
        assert(coordinates@ =~= seq![value.x, value.y]);
        coordinates
    }
}

impl FromSpecImpl<Vector> for [Number; 2] {
    /// The conversion is stated by what `from` ensures of the coordinates.
    open spec fn obeys_from_spec() -> bool {
        false
    }

    open spec fn from_spec(value: Vector) -> [Number; 2] {
        arbitrary()
    }
}

} // verus!
