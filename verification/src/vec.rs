use std::ops::{Add, Div, Mul, Sub};
use vstd::prelude::*;
use crate::utils::str_eq;
use vstd::std_specs::convert::FromSpec;
use vstd::std_specs::ops::{
    AddSpec, AddSpecImpl, DivSpec, DivSpecImpl, MulSpec, MulSpecImpl, SubSpec, SubSpecImpl,
};

verus! {

/// A two-component vector over any scalar type.
#[derive(Debug, Clone, Copy, Default)]
pub struct Vec2<T> {
    pub x: T,
    pub y: T,
}

impl<T: Copy> Vec2<T> {
    pub fn new(x: T, y: T) -> (v: Self)
        ensures
            v.x == x,
            v.y == y,
    {
        Self { x, y }
    }

    pub fn to_array(&self) -> (a: [T; 2])
        ensures
            a@ == seq![self.x, self.y],
    {
        [self.x, self.y]
    }

    pub fn with_y(&self, y: T) -> (v: Self)
        ensures
            v.x == self.x,
            v.y == y,
    {
        Self { x: self.x, y }
    }

    pub fn with_x(&self, x: T) -> (v: Self)
        ensures
            v.x == x,
            v.y == self.y,
    {
        Self { x, y: self.y }
    }
}

/// `v` with `a` added to its second component, by the scalar's addition.
pub open spec fn added_y<T: Add<Output = T>>(v: Vec2<T>, a: T) -> Vec2<T> {
    Vec2 { x: v.x, y: v.y.add_spec(a) }
}

/// Adding to the second component of an integer vector keeps the first,
/// adding in two steps is adding the sum, and adding zero changes nothing.
pub proof fn lemma_add_y_steps(v: Vec2<i64>, a: i64, b: i64)
    requires
        i64::MIN <= v.y + a <= i64::MAX,
        i64::MIN <= a + b <= i64::MAX,
        i64::MIN <= v.y + a + b <= i64::MAX,
    ensures
        added_y(v, a).x == v.x,
        added_y(v, a).y == v.y + a,
        added_y(added_y(v, a), b) == added_y(v, (a + b) as i64),
        added_y(v, 0i64) == v,
{
}

impl<T: Copy + Add<Output = T>> Vec2<T> {
    pub fn add_y(self, y: T) -> (v: Self)
        requires
            self.y.add_req(y),
        ensures
            v.x == self.x,
            call_ensures(T::add, (self.y, y), v.y),
            T::obeys_add_spec() ==> v.y == self.y.add_spec(y),
            T::obeys_add_spec() ==> v == added_y(self, y),
    {
        Self { x: self.x, y: self.y + y }
    }

    pub fn add_x(self, x: T) -> (v: Self)
        requires
            self.x.add_req(x),
        ensures
            call_ensures(T::add, (self.x, x), v.x),
            T::obeys_add_spec() ==> v.x == self.x.add_spec(x),
            v.y == self.y,
    {
        Self { x: self.x + x, y: self.y }
    }
}

impl<T: Copy + Mul<Output = T>> Vec2<T> {
    pub fn mul_y(self, y: T) -> (v: Self)
        requires
            self.y.mul_req(y),
        ensures
            v.x == self.x,
            call_ensures(T::mul, (self.y, y), v.y),
            T::obeys_mul_spec() ==> v.y == self.y.mul_spec(y),
    {
        Self { x: self.x, y: self.y * y }
    }

    pub fn mul_x(self, x: T) -> (v: Self)
        requires
            self.x.mul_req(x),
        ensures
            call_ensures(T::mul, (self.x, x), v.x),
            T::obeys_mul_spec() ==> v.x == self.x.mul_spec(x),
            v.y == self.y,
    {
        Self { x: self.x * x, y: self.y }
    }

    /// Both components multiplied by `k`.
    pub fn scale(self, k: T) -> (v: Self)
        requires
            self.x.mul_req(k),
            self.y.mul_req(k),
        ensures
            call_ensures(T::mul, (self.x, k), v.x),
            call_ensures(T::mul, (self.y, k), v.y),
            T::obeys_mul_spec() ==> v.x == self.x.mul_spec(k) && v.y == self.y.mul_spec(k),
    {
        Vec2 { x: self.x * k, y: self.y * k }
    }
}

/// The unit directions, built from the scalar type's own conversion of
/// the small integers `0`, `1` and `-1`.
impl<T: From<i8>> Vec2<T> {
    pub open spec fn from_units(x: i8, y: i8) -> Self {
        Vec2 { x: T::from_spec(x), y: T::from_spec(y) }
    }

    pub fn zeros() -> (v: Self)
        ensures
            call_ensures(T::from, (0i8,), v.x),
            call_ensures(T::from, (0i8,), v.y),
            T::obeys_from_spec() ==> v == Self::from_units(0, 0),
    {
        Self { x: T::from(0i8), y: T::from(0i8) }
    }

    pub fn right() -> (v: Self)
        ensures
            call_ensures(T::from, (1i8,), v.x),
            call_ensures(T::from, (0i8,), v.y),
            T::obeys_from_spec() ==> v == Self::from_units(1, 0),
    {
        Self { x: T::from(1i8), y: T::from(0i8) }
    }

    pub fn left() -> (v: Self)
        ensures
            call_ensures(T::from, (-1i8,), v.x),
            call_ensures(T::from, (0i8,), v.y),
            T::obeys_from_spec() ==> v == Self::from_units(-1i8, 0i8),
    {
        Self { x: T::from(-1i8), y: T::from(0i8) }
    }

    pub fn up() -> (v: Self)
        ensures
            call_ensures(T::from, (0i8,), v.x),
            call_ensures(T::from, (1i8,), v.y),
            T::obeys_from_spec() ==> v == Self::from_units(0, 1),
    {
        Self { x: T::from(0i8), y: T::from(1i8) }
    }

    pub fn down() -> (v: Self)
        ensures
            call_ensures(T::from, (0i8,), v.x),
            call_ensures(T::from, (-1i8,), v.y),
            T::obeys_from_spec() ==> v == Self::from_units(0i8, -1i8),
    {
        Self { x: T::from(0i8), y: T::from(-1i8) }
    }
}

impl<T: Add<Output = T>> AddSpecImpl for Vec2<T> {
    open spec fn obeys_add_spec() -> bool {
        T::obeys_add_spec()
    }

    open spec fn add_req(self, rhs: Self) -> bool {
        self.x.add_req(rhs.x) && self.y.add_req(rhs.y)
    }

    open spec fn add_spec(self, rhs: Self) -> Self {
        Vec2 { x: self.x.add_spec(rhs.x), y: self.y.add_spec(rhs.y) }
    }
}

impl<T: Add<Output = T>> Add for Vec2<T> {
    type Output = Self;

    fn add(self, other: Self) -> (v: Self)
        ensures
            call_ensures(T::add, (self.x, other.x), v.x),
            call_ensures(T::add, (self.y, other.y), v.y),
    {
        Self { x: self.x + other.x, y: self.y + other.y }
    }
}

impl<T: Sub<Output = T>> SubSpecImpl for Vec2<T> {
    open spec fn obeys_sub_spec() -> bool {
        T::obeys_sub_spec()
    }

    open spec fn sub_req(self, rhs: Self) -> bool {
        self.x.sub_req(rhs.x) && self.y.sub_req(rhs.y)
    }

    open spec fn sub_spec(self, rhs: Self) -> Self {
        Vec2 { x: self.x.sub_spec(rhs.x), y: self.y.sub_spec(rhs.y) }
    }
}

impl<T: Sub<Output = T>> Sub for Vec2<T> {
    type Output = Self;

    fn sub(self, other: Self) -> (v: Self)
        ensures
            call_ensures(T::sub, (self.x, other.x), v.x),
            call_ensures(T::sub, (self.y, other.y), v.y),
    {
        Self { x: self.x - other.x, y: self.y - other.y }
    }
}

impl<T: Mul<Output = T>> MulSpecImpl for Vec2<T> {
    open spec fn obeys_mul_spec() -> bool {
        T::obeys_mul_spec()
    }

    open spec fn mul_req(self, rhs: Self) -> bool {
        self.x.mul_req(rhs.x) && self.y.mul_req(rhs.y)
    }

    open spec fn mul_spec(self, rhs: Self) -> Self {
        Vec2 { x: self.x.mul_spec(rhs.x), y: self.y.mul_spec(rhs.y) }
    }
}

impl<T: Mul<Output = T>> Mul for Vec2<T> {
    type Output = Self;

    fn mul(self, other: Self) -> (v: Self)
        ensures
            call_ensures(T::mul, (self.x, other.x), v.x),
            call_ensures(T::mul, (self.y, other.y), v.y),
    {
        Self { x: self.x * other.x, y: self.y * other.y }
    }
}

impl<T: Div<Output = T>> DivSpecImpl for Vec2<T> {
    open spec fn obeys_div_spec() -> bool {
        T::obeys_div_spec()
    }

    open spec fn div_req(self, rhs: Self) -> bool {
        self.x.div_req(rhs.x) && self.y.div_req(rhs.y)
    }

    open spec fn div_spec(self, rhs: Self) -> Self {
        Vec2 { x: self.x.div_spec(rhs.x), y: self.y.div_spec(rhs.y) }
    }
}

impl<T: Div<Output = T>> Div for Vec2<T> {
    type Output = Self;

    fn div(self, other: Self) -> (v: Self)
        ensures
            call_ensures(T::div, (self.x, other.x), v.x),
            call_ensures(T::div, (self.y, other.y), v.y),
    {
        Self { x: self.x / other.x, y: self.y / other.y }
    }
}

/// A point of a rectangle by which it is anchored.
#[derive(Clone, Copy, Debug, PartialEq, Eq)]
pub enum Origin {
    Center,
    BotCenter,
    TopCenter,
    BotLeft,
    TopLeft,
    TopRight,
    RightCenter,
    LeftCenter,
}

impl Default for Origin {
    fn default() -> (o: Self)
        ensures
            o == Origin::Center,
    {
        Origin::Center
    }
}

/// The anchor that a name denotes, if it denotes one.
pub open spec fn origin_named(name: Seq<char>) -> Option<Origin> {
    if name == "Center"@ {
        Some(Origin::Center)
    } else if name == "BotCenter"@ {
        Some(Origin::BotCenter)
    } else if name == "TopCenter"@ {
        Some(Origin::TopCenter)
    } else if name == "BotLeft"@ {
        Some(Origin::BotLeft)
    } else if name == "TopLeft"@ {
        Some(Origin::TopLeft)
    } else if name == "TopRight"@ {
        Some(Origin::TopRight)
    } else if name == "RightCenter"@ {
        Some(Origin::RightCenter)
    } else if name == "LeftCenter"@ {
        Some(Origin::LeftCenter)
    } else {
        None
    }
}

impl Origin {
    /// Parses an anchor from its name; an unknown name is a programming
    /// error (the caller must pass one of the eight names).
    pub fn from_str(name: &str) -> (o: Self)
        requires
            origin_named(name@) is Some,
        ensures
            origin_named(name@) == Some(o),
    {
        if str_eq(name, "Center") {
            Origin::Center
        } else if str_eq(name, "BotCenter") {
            Origin::BotCenter
        } else if str_eq(name, "TopCenter") {
            Origin::TopCenter
        } else if str_eq(name, "BotLeft") {
            Origin::BotLeft
        } else if str_eq(name, "TopLeft") {
            Origin::TopLeft
        } else if str_eq(name, "TopRight") {
            Origin::TopRight
        } else if str_eq(name, "RightCenter") {
            Origin::RightCenter
        } else {
            Origin::LeftCenter
        }
    }
}

} // verus!
