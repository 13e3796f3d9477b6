//! The generic two-component vector.
use vstd::prelude::*;

verus! {

/// A set of two coordinates which may be interpreted as a vector or point in 2d space.
///
/// The component type is generic: it is a scalar for a plain vector, or a
/// whole lane group (one value per SIMD lane) for a wide vector.
#[derive(Clone, Copy, Debug, Default)]
pub struct Vec2<T> {
    pub x: T,
    pub y: T,
}

impl<T> Vec2<T> {
    /// The component that `index` selects: `x` for 0, `y` for every other index.
    /// Callers only ask for indices below 2.
    pub open spec fn spec_component(self, index: int) -> T {
        if index == 0 {
            self.x
        } else {
            self.y
        }
    }

    /// Builds a vector from its two components.
    pub fn new(x: T, y: T) -> (r: Self)
        ensures
            r.x == x,
            r.y == y,
    {
        Vec2 { x, y }
    }

    /// The component at `index`: `x` for 0, `y` for 1. Any other index is
    /// invalid for a two-component vector.
    pub fn index(&self, index: usize) -> (r: &T)
        requires
            index < 2,
        ensures
            *r == self.spec_component(index as int),
    {
        if index == 0 {
            &self.x
        } else {
            &self.y
        }
    }

    /// Mutable access to the component at `index` (`x` for 0, `y` for 1):
    /// whatever is written through the returned reference becomes that
    /// component, and the other component is left as it was.
    pub fn index_mut(&mut self, index: usize) -> (r: &mut T)
        requires
            index < 2,
        ensures
            *r == old(self).spec_component(index as int),
            index == 0 ==> *final(self) == (Vec2 { x: *final(r), y: old(self).y }),
            index == 1 ==> *final(self) == (Vec2 { x: old(self).x, y: *final(r) }),
    {
        if index == 0 {
            &mut self.x
        } else {
            &mut self.y
        }
    }

    /// The component at `index`, taken by value: `x` for 0, `y` for 1.
    /// Any other index is invalid for a two-component vector.
    pub fn component(self, index: usize) -> (r: T)
        requires
            index < 2,
        ensures
            r == self.spec_component(index as int),
    {
        if index == 0 {
            self.x
        } else {
            self.y
        }
    }

    /// The components as the array `[x, y]`.
    pub fn to_array(self) -> (r: [T; 2])
        ensures
            r@ == seq![self.x, self.y],
    {
        let r = [self.x, self.y];
        assert(r@ =~= seq![self.x, self.y]);
        r
    }

    /// Builds a vector from the pair `(x, y)`.
    pub fn from_tuple(comps: (T, T)) -> (r: Self)
        ensures
            r.x == comps.0,
            r.y == comps.1,
    {
        Vec2 { x: comps.0, y: comps.1 }
    }

    /// The components as the pair `(x, y)`.
    pub fn to_tuple(self) -> (r: (T, T))
        ensures
            r == (self.x, self.y),
    {
        (self.x, self.y)
    }
}

impl<T: Copy> Vec2<T> {
    /// Builds a vector from the array `[x, y]`.
    pub fn from_array(comps: [T; 2]) -> (r: Self)
        ensures
            r.x == comps@[0],
            r.y == comps@[1],
    {
        Vec2 { x: comps[0], y: comps[1] }
    }

    /// The vector whose two components are both `val`.
    pub fn broadcast(val: T) -> (r: Self)
        ensures
            r.x == val,
            r.y == val,
    {
        Vec2 { x: val, y: val }
    }

    /// The vector `(f(x), f(y))`.
    pub fn map<F: Fn(T) -> T>(&self, f: F) -> (r: Self)
        requires
            f.requires((self.x,)),
            f.requires((self.y,)),
        ensures
            f.ensures((self.x,), r.x),
            f.ensures((self.y,), r.y),
    {
        Vec2 { x: f(self.x), y: f(self.y) }
    }

    /// Replaces each component `c` by `f(c)`.
    pub fn apply<F: Fn(T) -> T>(&mut self, f: F)
        requires
            f.requires((old(self).x,)),
            f.requires((old(self).y,)),
        ensures
            f.ensures((old(self).x,), final(self).x),
            f.ensures((old(self).y,), final(self).y),
    {
        self.x = f(self.x);
        self.y = f(self.y);
    }
}

/// Turning a vector into the array `[x, y]` and back gives the same vector.
pub proof fn lemma_array_round_trip<T>(v: Vec2<T>, comps: [T; 2], back: Vec2<T>)
    requires
        comps@ == seq![v.x, v.y],
        back.x == comps@[0],
        back.y == comps@[1],
    ensures
        back == v,
{
}

/// Turning an array `[a, b]` into a vector and back gives the same array.
pub proof fn lemma_vector_round_trip<T>(comps: [T; 2], v: Vec2<T>, back: [T; 2])
    requires
        v.x == comps@[0],
        v.y == comps@[1],
        back@ == seq![v.x, v.y],
    ensures
        back == comps,
{
    assert(back@[0] == comps@[0]);
    assert(back@[1] == comps@[1]);
    assert(back =~= comps);
}

/// Turning a vector into the pair `(x, y)` and back gives the same vector,
/// and turning a pair into a vector and back gives the same pair.
pub proof fn lemma_tuple_round_trips<T>(v: Vec2<T>, pair: (T, T))
    ensures
        (Vec2 { x: (v.x, v.y).0, y: (v.x, v.y).1 }) == v,
        (Vec2 { x: pair.0, y: pair.1 }.x, Vec2 { x: pair.0, y: pair.1 }.y) == pair,
{
}

} // verus!
