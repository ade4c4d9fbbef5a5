//! Points and axis-aligned rectangles.

use vstd::prelude::*;
use vstd::std_specs::ops::MulSpec;
use crate::decimal::{decimal_text, push_i32};

verus! {

/// A point, or a two-dimensional size, with coordinates of type `T`.
#[derive(Clone, Copy, Default, Debug, PartialEq, Eq, PartialOrd, Ord, Structural)]
pub struct Point<T> {
    pub x: T,
    pub y: T,
}

impl<T: Copy> Point<T> {
    pub fn new(x: T, y: T) -> (p: Self)
        ensures
            p.x == x,
            p.y == y,
    {
        Point { x, y }
    }

    /// Apply `f` to each coordinate.
    pub fn map<U: Copy, F: Fn(T) -> U>(self, f: F) -> (p: Point<U>)
        requires
            f.requires((self.x,)),
            f.requires((self.y,)),
        ensures
            f.ensures((self.x,), p.x),
            f.ensures((self.y,), p.y),
    {
        let x = f(self.x);
        let y = f(self.y);
        Point::new(x, y)
    }
}

impl<T: Copy + core::ops::Mul<Output = T>> core::ops::Mul<T> for Point<T> {
    type Output = Point<T>;

    /// Scale both coordinates by `rhs`.
    fn mul(self, rhs: T) -> (p: Point<T>) {
        let x = self.x * rhs;
        let y = self.y * rhs;
        Point::new(x, y)
    }
}

impl<T: Copy + core::ops::Mul<Output = T>> vstd::std_specs::ops::MulSpecImpl<T> for Point<T> {
    open spec fn obeys_mul_spec() -> bool {
        T::obeys_mul_spec()
    }

    open spec fn mul_req(self, rhs: T) -> bool {
        self.x.mul_req(rhs) && self.y.mul_req(rhs)
    }

    open spec fn mul_spec(self, rhs: T) -> Point<T> {
        Point { x: self.x.mul_spec(rhs), y: self.y.mul_spec(rhs) }
    }
}

/// The text `[x,y]` of a point with integer coordinates.
pub open spec fn point_text(p: Point<i32>) -> Seq<char> {
    seq!['['] + decimal_text(p.x as int) + seq![','] + decimal_text(p.y as int) + seq![']']
}

/// The text `(pos, wxh)` of a rectangle with integer coordinates.
pub open spec fn rect_text(r: Rect<i32>) -> Seq<char> {
    seq!['('] + point_text(r.pos) + seq![',', ' '] + decimal_text(r.size.x as int) + seq!['x']
        + decimal_text(r.size.y as int) + seq![')']
}

impl Point<i32> {
    /// The origin.
    pub fn zero() -> (p: Self)
        ensures
            p == (Point { x: 0i32, y: 0i32 }),
    {
        Point::new(0, 0)
    }

    /// The text form of this point, `[x,y]`.
    pub fn to_string(&self) -> (s: String)
        ensures
            s@ == point_text(*self),
    {
        let mut s = String::new();
        self.push_text(&mut s);
        s
    }

    fn push_text(&self, s: &mut String)
        ensures
            final(s)@ == old(s)@ + point_text(*self),
    {
        proof {
            reveal_strlit("[");
            reveal_strlit(",");
            reveal_strlit("]");
        }
        s.append("[");
        push_i32(s, self.x);
        s.append(",");
        push_i32(s, self.y);
        s.append("]");
        assert(s@ =~= old(s)@ + point_text(*self));
    }
}

/// An axis-aligned rectangle: the position of its corner and its size.
#[derive(Clone, Copy, Default, Debug, PartialEq, Eq, Structural)]
pub struct Rect<T> {
    pub pos: Point<T>,
    pub size: Point<T>,
}

impl<T: Copy> Rect<T> {
    pub fn new(pos: Point<T>, size: Point<T>) -> (r: Self)
        ensures
            r.pos == pos,
            r.size == size,
    {
        Rect { pos, size }
    }

    /// The rectangle at `(x, y)` of width `w` and height `h`.
    pub open spec fn of(x: T, y: T, w: T, h: T) -> Self {
        Rect { pos: Point { x, y }, size: Point { x: w, y: h } }
    }

    /// A rectangle at `(x, y)` of width `w` and height `h`.
    pub fn xywh(x: T, y: T, w: T, h: T) -> (r: Self)
        ensures
            r == Self::of(x, y, w, h),
    {
        Rect::new(Point::new(x, y), Point::new(w, h))
    }

    /// Apply `f` to every coordinate of the position and the size.
    pub fn map<U: Copy, F: Fn(T) -> U + Copy>(self, f: F) -> (r: Rect<U>)
        requires
            f.requires((self.pos.x,)),
            f.requires((self.pos.y,)),
            f.requires((self.size.x,)),
            f.requires((self.size.y,)),
        ensures
            f.ensures((self.pos.x,), r.pos.x),
            f.ensures((self.pos.y,), r.pos.y),
            f.ensures((self.size.x,), r.size.x),
            f.ensures((self.size.y,), r.size.y),
    {
        Rect::new(self.pos.map(f), self.size.map(f))
    }
}

impl<T: Copy + Default> Rect<T> {
    /// The same as `Rect::xywh(x, y, T::default(), T::default())`: a
    /// rectangle at `(x, y)` whose width and height are each a value that
    /// `T::default()` returns.
    pub fn xy(x: T, y: T) -> (r: Self)
        ensures
            call_ensures(T::default, (), r.size.x),
            call_ensures(T::default, (), r.size.y),
            r == Self::of(x, y, r.size.x, r.size.y),
    {
        Self::xywh(x, y, T::default(), T::default())
    }

    /// The same as `Rect::xywh(T::default(), T::default(), w, h)`: a
    /// rectangle of width `w` and height `h` whose corner coordinates are
    /// each a value that `T::default()` returns.
    pub fn wh(w: T, h: T) -> (r: Self)
        ensures
            call_ensures(T::default, (), r.pos.x),
            call_ensures(T::default, (), r.pos.y),
            r == Self::of(r.pos.x, r.pos.y, w, h),
    {
        Self::xywh(T::default(), T::default(), w, h)
    }
}

/// Where `T::default()` always returns the same value `d`, what `Rect::xy(x, y)`
/// returns is `Rect::xywh(x, y, d, d)`, and what `Rect::wh(w, h)` returns is
/// `Rect::xywh(d, d, w, h)`.
pub proof fn lemma_xy_wh_with_a_fixed_default<T: Copy + Default>(
    d: T,
    x: T,
    y: T,
    r: Rect<T>,
    w: T,
    h: T,
    q: Rect<T>,
)
    requires
        forall|e: T| call_ensures(T::default, (), e) ==> e == d,
        call_ensures(Rect::<T>::xy, (x, y), r),
        call_ensures(Rect::<T>::wh, (w, h), q),
    ensures
        r == Rect::of(x, y, d, d),
        q == Rect::of(d, d, w, h),
{
}

impl Rect<i32> {
    /// The empty rectangle at the origin.
    pub fn zeroed() -> (r: Self)
        ensures
            r == (Rect { pos: Point { x: 0i32, y: 0i32 }, size: Point { x: 0i32, y: 0i32 } }),
    {
        Rect::xywh(0, 0, 0, 0)
    }

    /// The text form of this rectangle, `(pos, wxh)`, e.g. `([1,2], 3x4)`.
    pub fn to_string(&self) -> (s: String)
        ensures
            s@ == rect_text(*self),
    {
        proof {
            reveal_strlit("(");
            reveal_strlit(", ");
            reveal_strlit("x");
            reveal_strlit(")");
        }
        let mut s = String::new();
        s.append("(");
        self.pos.push_text(&mut s);
        s.append(", ");
        push_i32(&mut s, self.size.x);
        s.append("x");
        push_i32(&mut s, self.size.y);
        s.append(")");
        assert(s@ =~= rect_text(*self));
        s
    }
}

} // verus!
