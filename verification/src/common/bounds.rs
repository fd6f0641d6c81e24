use super::number::fits;
use super::vector::{greater, lesser, Vector};
use vstd::prelude::*;
use vstd::std_specs::convert::FromSpecImpl;

verus! {

/// An axis-parallel box, held as its start corner and its size. A size may be
/// negative: the box then extends from the start towards smaller coordinates.
#[derive(Debug, Copy, Clone, PartialEq, Eq, Structural)]
pub struct Bounds {
    start: Vector,
    size: Vector,
}

impl Bounds {
    /// The box with the start corner `start` and the size `size`.
    pub closed spec fn spanning(start: Vector, size: Vector) -> Bounds {
        Bounds { start, size }
    }

    /// The start corner.
    pub closed spec fn origin(&self) -> Vector {
        self.start
    }

    /// The size.
    pub closed spec fn extent(&self) -> Vector {
        self.size
    }

    /// The first coordinate of the corner opposite to the start.
    pub open spec fn end_x(&self) -> int {
        self.origin().x + self.extent().x
    }

    /// The second coordinate of the corner opposite to the start.
    pub open spec fn end_y(&self) -> int {
        self.origin().y + self.extent().y
    }

    /// Whether the corner opposite to the start can be held in a [`Vector`].
    pub open spec fn has_end(&self) -> bool {
        fits(self.end_x()) && fits(self.end_y())
    }

    /// Whether `point` lies in the box, its border included.
    pub open spec fn holds(&self, point: Vector) -> bool {
        &&& lesser(self.end_x(), self.origin().x as int) <= point.x <= greater(
            self.end_x(),
            self.origin().x as int,
        )
        &&& lesser(self.end_y(), self.origin().y as int) <= point.y <= greater(
            self.end_y(),
            self.origin().y as int,
        )
    }

    /// Whether merging `other` into this box stays within the numbers.
    pub open spec fn can_merge(&self, other: Bounds) -> bool {
        &&& self.has_end()
        &&& other.has_end()
        &&& fits(
            greater(self.end_x(), other.end_x()) - lesser(
                self.origin().x as int,
                other.origin().x as int,
            ),
        )
        &&& fits(
            greater(self.end_y(), other.end_y()) - lesser(
                self.origin().y as int,
                other.origin().y as int,
            ),
        )
    }

    /// Whether `merged` is this box merged with `other`: it starts at the
    /// smaller start coordinates and ends at the larger end coordinates.
    pub open spec fn merges_to(&self, other: Bounds, merged: Bounds) -> bool {
        &&& merged.origin() == self.origin().min_spec(other.origin())
        &&& merged.end_x() == greater(self.end_x(), other.end_x())
        &&& merged.end_y() == greater(self.end_y(), other.end_y())
    }

    /// Whether the box can be moved outwards by `by` at both corners within
    /// the numbers.
    pub open spec fn can_expand(&self, by: Vector) -> bool {
        &&& self.has_end()
        &&& fits(self.origin().x - by.x)
        &&& fits(self.origin().y - by.y)
        &&& fits(self.end_x() + by.x)
        &&& fits(self.end_y() + by.y)
        &&& fits(self.extent().x + 2 * by.x)
        &&& fits(self.extent().y + 2 * by.y)
    }

    /// Whether the box can be moved inwards by `by` at both corners within
    /// the numbers.
    pub open spec fn can_shrink(&self, by: Vector) -> bool {
        &&& self.has_end()
        &&& fits(self.origin().x + by.x)
        &&& fits(self.origin().y + by.y)
        &&& fits(self.end_x() - by.x)
        &&& fits(self.end_y() - by.y)
        &&& fits(self.extent().x - 2 * by.x)
        &&& fits(self.extent().y - 2 * by.y)
    }

    pub fn new(start: Vector, size: Vector) -> (result: Self)
        ensures
            result == Bounds::spanning(start, size),
            result.origin() == start,
            result.extent() == size,
    {
        Self { start, size }
    }

    /// The box from `start` to `end`.
    pub fn new_with_end(start: Vector, end: Vector) -> (result: Self)
        requires
            fits(end.x - start.x),
            fits(end.y - start.y),
        ensures
            result.origin() == start,
            result.end_x() == end.x,
            result.end_y() == end.y,
    {
        Self::new(start, Vector::new(end.x - start.x, end.y - start.y))
    }

    pub fn start(&self) -> (result: Vector)
        ensures
            result == self.origin(),
    {
        self.start
    }

    pub fn size(&self) -> (result: Vector)
        ensures
            result == self.extent(),
    {
        self.size
    }

    /// The corner opposite to the start.
    pub fn end(&self) -> (result: Vector)
        requires
            self.has_end(),
        ensures
            result.x == self.end_x(),
            result.y == self.end_y(),
    {
        Vector::new(self.start.x + self.size.x, self.start.y + self.size.y)
    }

    /// The corner with the smaller coordinates.
    pub fn min(&self) -> (result: Vector)
        requires
            self.has_end(),
        ensures
            result.x == lesser(self.end_x(), self.origin().x as int),
            result.y == lesser(self.end_y(), self.origin().y as int),
    {
        self.end().min(&self.start)
    }

    /// The corner with the larger coordinates.
    pub fn max(&self) -> (result: Vector)
        requires
            self.has_end(),
        ensures
            result.x == greater(self.end_x(), self.origin().x as int),
            result.y == greater(self.end_y(), self.origin().y as int),
    {
        self.end().max(&self.start)
    }

    /// Whether `point` lies in the box, its border included.
    pub fn contains(&self, point: Vector) -> (result: bool)
        requires
            self.has_end(),
        ensures
            result == self.holds(point),
    {
        let min = self.min();
        let max = self.max();
        point.x >= min.x && point.y >= min.y && point.x <= max.x && point.y <= max.y
    }

    /// This box merged with `other`.
    pub fn combined_with(self, other: &Self) -> (result: Self)
        requires
            self.can_merge(*other),
        ensures
            self.merges_to(*other, result),
    {
        let mut result = self;
        result.merge(other);
        result
    }

    /// Grows the box so that it starts at the smaller start coordinates and
    /// ends at the larger end coordinates of itself and `other`.
    pub fn merge(&mut self, other: &Self)
        requires
            old(self).can_merge(*other),
        ensures
            old(self).merges_to(*other, *final(self)),
    {
        let new_end = self.end().max(&other.end());
        self.start.set_to_min_with(&other.start());
        self.size = Vector::new(new_end.x - self.start.x, new_end.y - self.start.y);
    }

    /// Merges `other` into the box, if there is one.
    pub fn try_merge(&mut self, other: &Option<Self>)
        requires
            other matches Some(other) ==> old(self).can_merge(*other),
        ensures
            match other {
                Some(other) => old(self).merges_to(*other, *final(self)),
                None => *final(self) == *old(self),
            },
    {
        if let Some(other) = other {
            self.merge(other);
        }
    }

    /// The box with both corners moved outwards by `by`.
    pub fn expand(&self, by: Vector) -> (result: Self)
        requires
            self.can_expand(by),
        ensures
            result.origin().x == self.origin().x - by.x,
            result.origin().y == self.origin().y - by.y,
            result.end_x() == self.end_x() + by.x,
            result.end_y() == self.end_y() + by.y,
    {
        let start = Vector::new(self.start.x - by.x, self.start.y - by.y);
        let end = self.end();
        let end = Vector::new(end.x + by.x, end.y + by.y);
        Self::new_with_end(start, end)
    }

    /// The box with both corners moved inwards by `by`.
    pub fn shrink(&self, by: Vector) -> (result: Self)
        requires
            self.can_shrink(by),
        ensures
            result.origin().x == self.origin().x + by.x,
            result.origin().y == self.origin().y + by.y,
            result.end_x() == self.end_x() - by.x,
            result.end_y() == self.end_y() - by.y,
    {
        let start = Vector::new(self.start.x + by.x, self.start.y + by.y);
        let end = self.end();
        let end = Vector::new(end.x - by.x, end.y - by.y);
        Self::new_with_end(start, end)
    }

    /// The two boxes merged; where only one is given, that one.
    pub fn merged(a: &Option<Self>, b: &Option<Self>) -> (result: Option<Self>)
        requires
            a matches Some(a) ==> (b matches Some(b) ==> a.can_merge(*b)),
        ensures
            match (a, b) {
                (Some(a), Some(b)) => result matches Some(merged) && a.merges_to(*b, merged),
                (Some(a), None) => result == Some(*a),
                (None, _) => result == *b,
            },
    {
        match a {
            None => *b,
            Some(a) => {
                let mut a = *a;
                a.try_merge(b);
                Some(a)
            },
        }
    }
}

/// A box holds both of its corners.
pub proof fn lemma_bounds_hold_their_corners(bounds: Bounds)
    requires
        bounds.has_end(),
    ensures
        bounds.holds(bounds.origin()),
        bounds.holds(Vector { x: bounds.end_x() as i64, y: bounds.end_y() as i64 }),
{
}

/// Where neither of two boxes has a negative size, the merged box holds
/// every point that either of them held.
pub proof fn lemma_merged_bounds_hold_both(a: Bounds, b: Bounds, merged: Bounds, point: Vector)
    requires
        a.can_merge(b),
        a.merges_to(b, merged),
        a.extent().x >= 0 && a.extent().y >= 0,
        b.extent().x >= 0 && b.extent().y >= 0,
        a.holds(point) || b.holds(point),
    ensures
        merged.holds(point),
{
}

impl From<Vector> for Bounds {
    /// The box of size zero at `value`.
    fn from(value: Vector) -> (bounds: Self)
        ensures
            bounds.origin() == value,
            bounds.extent() == (Vector { x: 0, y: 0 }),
    {
        Self::new(value, Vector::zero())
    }
}

impl FromSpecImpl<Vector> for Bounds {
    open spec fn obeys_from_spec() -> bool {
        true
    }

    open spec fn from_spec(value: Vector) -> Bounds {
        Bounds::spanning(value, Vector { x: 0, y: 0 })
    }
}

/// The box with a given start and size has that start and that size.
pub proof fn lemma_spanning_bounds(start: Vector, size: Vector)
    ensures
        Bounds::spanning(start, size).origin() == start,
        Bounds::spanning(start, size).extent() == size,
{
}

} // verus!
