use vstd::prelude::*;
use vstd::std_specs::ops::{AddSpec, AddSpecImpl, MulSpec, MulSpecImpl, NegSpec, NegSpecImpl, SubSpec, SubSpecImpl};
use core::ops::{Add, Mul, Neg, Sub};

verus! {

/// A point or displacement in the plane, over any coordinate type.
#[derive(Debug, Copy, Clone, PartialEq)]
pub struct Vec2<T> {
    pub x: T,
    pub y: T,
}

impl<T> Vec2<T> {
    /// The vector with the given coordinates.
    pub fn new(x: T, y: T) -> (v: Self)
        ensures
            v == (Vec2 { x, y }),
    {
        Vec2 { x, y }
    }
}

impl<T: Add<Output = T>> AddSpecImpl for Vec2<T> {
    open spec fn obeys_add_spec() -> bool {
        T::obeys_add_spec()
    }

    open spec fn add_req(self, rhs: Vec2<T>) -> bool {
        self.x.add_req(rhs.x) && self.y.add_req(rhs.y)
    }

    open spec fn add_spec(self, rhs: Vec2<T>) -> Vec2<T> {
        Vec2 { x: self.x.add_spec(rhs.x), y: self.y.add_spec(rhs.y) }
    }
}

/// Component-wise sum.
impl<T: Add<Output = T>> Add for Vec2<T> {
    type Output = Vec2<T>;

    fn add(self, rhs: Vec2<T>) -> (sum: Vec2<T>) {
        Vec2 { x: self.x + rhs.x, y: self.y + rhs.y }
    }
}

impl<T: Sub<Output = T>> SubSpecImpl for Vec2<T> {
    open spec fn obeys_sub_spec() -> bool {
        T::obeys_sub_spec()
    }

    open spec fn sub_req(self, rhs: Vec2<T>) -> bool {
        self.x.sub_req(rhs.x) && self.y.sub_req(rhs.y)
    }

    open spec fn sub_spec(self, rhs: Vec2<T>) -> Vec2<T> {
        Vec2 { x: self.x.sub_spec(rhs.x), y: self.y.sub_spec(rhs.y) }
    }
}

/// Component-wise difference.
impl<T: Sub<Output = T>> Sub for Vec2<T> {
    type Output = Vec2<T>;

    fn sub(self, rhs: Vec2<T>) -> (difference: Vec2<T>) {
        Vec2 { x: self.x - rhs.x, y: self.y - rhs.y }
    }
}

impl<T: Neg<Output = T>> NegSpecImpl for Vec2<T> {
    open spec fn obeys_neg_spec() -> bool {
        T::obeys_neg_spec()
    }

    open spec fn neg_req(self) -> bool {
        self.x.neg_req() && self.y.neg_req()
    }

    open spec fn neg_spec(self) -> Vec2<T> {
        Vec2 { x: self.x.neg_spec(), y: self.y.neg_spec() }
    }
}

/// Component-wise negation.
impl<T: Neg<Output = T>> Neg for Vec2<T> {
    type Output = Vec2<T>;

    fn neg(self) -> (opposite: Vec2<T>) {
        Vec2 { x: self.x.neg(), y: self.y.neg() }
    }
}

impl<T: Mul<Output = T> + Copy> MulSpecImpl<T> for Vec2<T> {
    open spec fn obeys_mul_spec() -> bool {
        T::obeys_mul_spec()
    }

    open spec fn mul_req(self, rhs: T) -> bool {
        self.x.mul_req(rhs) && self.y.mul_req(rhs)
    }

    open spec fn mul_spec(self, rhs: T) -> Vec2<T> {
        Vec2 { x: self.x.mul_spec(rhs), y: self.y.mul_spec(rhs) }
    }
}

/// Scaling of both components by one factor.
impl<T: Mul<Output = T> + Copy> Mul<T> for Vec2<T> {
    type Output = Vec2<T>;

    fn mul(self, rhs: T) -> (scaled: Vec2<T>) {
        Vec2 { x: self.x * rhs, y: self.y * rhs }
    }
}

/// Whether `value` is one that `T::default()` may return.
pub open spec fn is_default<T: Default>(value: T) -> bool {
    call_ensures(T::default, (), value)
}

/// The vector whose two components are the coordinate type's default.
impl<T: Default> Default for Vec2<T> {
    fn default() -> (origin: Self)
        ensures
            is_default(origin.x),
            is_default(origin.y),
    {
        Vec2 { x: T::default(), y: T::default() }
    }
}

} // verus!
