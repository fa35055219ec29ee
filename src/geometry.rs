use vstd::prelude::*;

use crate::text::{dec_int, push_int, push_str};

verus! {

/// Rust's integer division, which rounds toward zero.
pub open spec fn trunc_div(a: int, b: int) -> int
    recommends
        b != 0,
{
    if a >= 0 {
        a / b
    } else {
        -((-a) / b)
    }
}

/// Whether a value fits in an `i32`.
pub open spec fn fits_i32(v: int) -> bool {
    i32::MIN <= v <= i32::MAX
}

/// A point, or a size given as width and height.
#[derive(Debug, Clone, Copy, PartialEq, Eq, PartialOrd, Ord, Hash, Structural)]
pub struct Point {
    pub x: i32,
    pub y: i32,
}

impl Point {
    /// The text form `{x}x{y}`.
    pub open spec fn text(self) -> Seq<char> {
        dec_int(self.x as int) + seq!['x'] + dec_int(self.y as int)
    }

    pub fn new(x: i32, y: i32) -> (r: Point)
        ensures
            r.x == x,
            r.y == y,
    {
        Point { x, y }
    }

    /// Reflection across the vertical axis.
    pub fn flip_x(self) -> (r: Point)
        requires
            self.x != i32::MIN,
        ensures
            r.x == -self.x,
            r.y == self.y,
    {
        Point { x: -self.x, y: self.y }
    }

    /// Reflection across the horizontal axis.
    pub fn flip_y(self) -> (r: Point)
        requires
            self.y != i32::MIN,
        ensures
            r.x == self.x,
            r.y == -self.y,
    {
        Point { x: self.x, y: -self.y }
    }

    /// Appends the text form.
    pub fn write_text(&self, out: &mut String)
        ensures
            final(out)@ == old(out)@ + self.text(),
    {
        push_int(out, self.x as i64);
        push_str(out, "x");
        push_int(out, self.y as i64);
        proof {
            reveal_strlit("x");
        }
        assert(final(out)@ =~= old(out)@ + self.text());
    }

    /// The text form `{x}x{y}`, as written into a path.
    pub fn to_string(&self) -> (r: String)
        ensures
            r@ == self.text(),
    {
        let mut r = String::new();
        self.write_text(&mut r);
        assert(r@ =~= self.text());
        r
    }
}

impl core::ops::Add for Point {
    type Output = Point;

    fn add(self, rhs: Point) -> (r: Point) {
        Point { x: self.x + rhs.x, y: self.y + rhs.y }
    }
}

impl vstd::std_specs::ops::AddSpecImpl for Point {
    open spec fn obeys_add_spec() -> bool {
        true
    }

    open spec fn add_req(self, rhs: Point) -> bool {
        fits_i32(self.x + rhs.x) && fits_i32(self.y + rhs.y)
    }

    open spec fn add_spec(self, rhs: Point) -> Point {
        Point { x: (self.x + rhs.x) as i32, y: (self.y + rhs.y) as i32 }
    }
}

impl core::ops::Sub for Point {
    type Output = Point;

    fn sub(self, rhs: Point) -> (r: Point) {
        Point { x: self.x - rhs.x, y: self.y - rhs.y }
    }
}

impl vstd::std_specs::ops::SubSpecImpl for Point {
    open spec fn obeys_sub_spec() -> bool {
        true
    }

    open spec fn sub_req(self, rhs: Point) -> bool {
        fits_i32(self.x - rhs.x) && fits_i32(self.y - rhs.y)
    }

    open spec fn sub_spec(self, rhs: Point) -> Point {
        Point { x: (self.x - rhs.x) as i32, y: (self.y - rhs.y) as i32 }
    }
}

impl core::ops::Mul<i32> for Point {
    type Output = Point;

    fn mul(self, rhs: i32) -> (r: Point) {
        Point { x: self.x * rhs, y: self.y * rhs }
    }
}

impl vstd::std_specs::ops::MulSpecImpl<i32> for Point {
    open spec fn obeys_mul_spec() -> bool {
        true
    }

    open spec fn mul_req(self, rhs: i32) -> bool {
        fits_i32(self.x * rhs) && fits_i32(self.y * rhs)
    }

    open spec fn mul_spec(self, rhs: i32) -> Point {
        Point { x: (self.x * rhs) as i32, y: (self.y * rhs) as i32 }
    }
}

impl core::ops::Div<i32> for Point {
    type Output = Point;

    fn div(self, rhs: i32) -> (r: Point) {
        Point { x: self.x / rhs, y: self.y / rhs }
    }
}

impl vstd::std_specs::ops::DivSpecImpl<i32> for Point {
    open spec fn obeys_div_spec() -> bool {
        true
    }

    open spec fn div_req(self, rhs: i32) -> bool {
        rhs != 0 && !(rhs == -1 && (self.x == i32::MIN || self.y == i32::MIN))
    }

    open spec fn div_spec(self, rhs: i32) -> Point {
        Point {
            x: trunc_div(self.x as int, rhs as int) as i32,
            y: trunc_div(self.y as int, rhs as int) as i32,
        }
    }
}

impl From<(i32, i32)> for Point {
    fn from(v: (i32, i32)) -> (r: Point) {
        Point { x: v.0, y: v.1 }
    }
}

impl vstd::std_specs::convert::FromSpecImpl<(i32, i32)> for Point {
    open spec fn obeys_from_spec() -> bool {
        true
    }

    open spec fn from_spec(v: (i32, i32)) -> Point {
        Point { x: v.0, y: v.1 }
    }
}

impl From<[i32; 2]> for Point {
    fn from(v: [i32; 2]) -> (r: Point) {
        Point { x: v[0], y: v[1] }
    }
}

impl vstd::std_specs::convert::FromSpecImpl<[i32; 2]> for Point {
    open spec fn obeys_from_spec() -> bool {
        true
    }

    open spec fn from_spec(v: [i32; 2]) -> Point {
        Point { x: v@[0], y: v@[1] }
    }
}

/// A square size: both components equal to `length`.
impl From<i32> for Point {
    fn from(length: i32) -> (r: Point) {
        Point { x: length, y: length }
    }
}

impl vstd::std_specs::convert::FromSpecImpl<i32> for Point {
    open spec fn obeys_from_spec() -> bool {
        true
    }

    open spec fn from_spec(length: i32) -> Point {
        Point { x: length, y: length }
    }
}

/// The corners of a rectangle, as integers.
pub struct RectView {
    pub left: int,
    pub top: int,
    pub right: int,
    pub bottom: int,
}

/// The rectangle spanned by two corners given in any order: the smaller
/// coordinate of each axis becomes the left (top) edge.
pub open spec fn spanned(x1: int, y1: int, x2: int, y2: int) -> RectView {
    RectView {
        left: if x1 <= x2 { x1 } else { x2 },
        top: if y1 <= y2 { y1 } else { y2 },
        right: if x1 <= x2 { x2 } else { x1 },
        bottom: if y1 <= y2 { y2 } else { y1 },
    }
}

/// The text form `{left}x{top}:{right}x{bottom}`.
pub open spec fn rect_text(r: RectView) -> Seq<char> {
    dec_int(r.left) + seq!['x'] + dec_int(r.top) + seq![':'] + dec_int(r.right) + seq!['x']
        + dec_int(r.bottom)
}

/// An axis-aligned rectangle whose left edge is never right of its right edge
/// and whose top edge is never below its bottom edge.
#[derive(Debug, Clone, Copy, PartialEq, Eq, Hash, Structural)]
pub struct Rect {
    left: i32,
    top: i32,
    right: i32,
    bottom: i32,
}

impl View for Rect {
    type V = RectView;

    closed spec fn view(&self) -> RectView {
        RectView {
            left: self.left as int,
            top: self.top as int,
            right: self.right as int,
            bottom: self.bottom as int,
        }
    }
}

impl Rect {
    #[verifier::type_invariant]
    spec fn is_normalized(self) -> bool {
        self.left <= self.right && self.top <= self.bottom
    }

    /// The text form, as written into a path.
    pub open spec fn text(self) -> Seq<char> {
        rect_text(self@)
    }

    /// The rectangle spanned by the corners `(x1, y1)` and `(x2, y2)`.
    pub closed spec fn spanned_by(x1: i32, y1: i32, x2: i32, y2: i32) -> Rect {
        Rect {
            left: if x1 <= x2 { x1 } else { x2 },
            top: if y1 <= y2 { y1 } else { y2 },
            right: if x1 <= x2 { x2 } else { x1 },
            bottom: if y1 <= y2 { y2 } else { y1 },
        }
    }

    /// The rectangle spanned by the corners `(left, top)` and `(right, bottom)`,
    /// given in any order.
    pub fn new(left: i32, top: i32, right: i32, bottom: i32) -> (r: Rect)
        ensures
            r == Rect::spanned_by(left, top, right, bottom),
            r@ == spanned(left as int, top as int, right as int, bottom as int),
    {
        let (l, r) = if left <= right {
            (left, right)
        } else {
            (right, left)
        };
        let (t, b) = if top <= bottom {
            (top, bottom)
        } else {
            (bottom, top)
        };
        Rect { left: l, top: t, right: r, bottom: b }
    }

    /// The rectangle spanned by two corner points, given in any order.
    pub fn from_points(a: Point, b: Point) -> (r: Rect)
        ensures
            r == Rect::spanned_by(a.x, a.y, b.x, b.y),
            r@ == spanned(a.x as int, a.y as int, b.x as int, b.y as int),
    {
        Rect::new(a.x, a.y, b.x, b.y)
    }

    /// The rectangle around `c` reaching half of `width` (rounded toward zero)
    /// to each side and half of `height` up and down.
    pub fn from_center(c: Point, width: i32, height: i32) -> (r: Rect)
        requires
            fits_i32(c.x - trunc_div(width as int, 2)),
            fits_i32(c.x + trunc_div(width as int, 2)),
            fits_i32(c.y - trunc_div(height as int, 2)),
            fits_i32(c.y + trunc_div(height as int, 2)),
        ensures
            r@ == spanned(
                c.x - trunc_div(width as int, 2),
                c.y - trunc_div(height as int, 2),
                c.x + trunc_div(width as int, 2),
                c.y + trunc_div(height as int, 2),
            ),
    {
        let rx = width / 2;
        let ry = height / 2;
        Rect::new(c.x - rx, c.y - ry, c.x + rx, c.y + ry)
    }

    pub fn left_top(&self) -> (r: Point)
        ensures
            r.x == self@.left,
            r.y == self@.top,
    {
        Point { x: self.left, y: self.top }
    }

    pub fn right_bottom(&self) -> (r: Point)
        ensures
            r.x == self@.right,
            r.y == self@.bottom,
    {
        Point { x: self.right, y: self.bottom }
    }

    /// The midpoint of the corners, each coordinate rounded toward zero.
    pub fn center(&self) -> (r: Point)
        ensures
            r.x == trunc_div(self@.left + self@.right, 2),
            r.y == trunc_div(self@.top + self@.bottom, 2),
    {
        let x = (self.left as i64 + self.right as i64) / 2;
        let y = (self.top as i64 + self.bottom as i64) / 2;
        Point { x: x as i32, y: y as i32 }
    }

    /// The horizontal extent.
    pub fn width(&self) -> (r: i32)
        requires
            self@.right - self@.left <= i32::MAX,
        ensures
            r == self@.right - self@.left,
            r >= 0,
    {
        proof {
            use_type_invariant(self);
        }
        self.right - self.left
    }

    /// The vertical extent.
    pub fn height(&self) -> (r: i32)
        requires
            self@.bottom - self@.top <= i32::MAX,
        ensures
            r == self@.bottom - self@.top,
            r >= 0,
    {
        proof {
            use_type_invariant(self);
        }
        self.bottom - self.top
    }

    /// Appends the text form.
    pub fn write_text(&self, out: &mut String)
        ensures
            final(out)@ == old(out)@ + self.text(),
    {
        push_int(out, self.left as i64);
        push_str(out, "x");
        push_int(out, self.top as i64);
        push_str(out, ":");
        push_int(out, self.right as i64);
        push_str(out, "x");
        push_int(out, self.bottom as i64);
        proof {
            reveal_strlit("x");
            reveal_strlit(":");
        }
        assert(final(out)@ =~= old(out)@ + self.text());
    }

    /// The text form `{left}x{top}:{right}x{bottom}`, as written into a path.
    pub fn to_string(&self) -> (r: String)
        ensures
            r@ == self.text(),
    {
        let mut r = String::new();
        self.write_text(&mut r);
        assert(r@ =~= self.text());
        r
    }
}

/// Normalization forgets the order of the corners: the rectangle spanned by
/// `a` and `b` is the one spanned by `b` and `a`, and so is its text form.
pub proof fn spanned_is_symmetric(a: Point, b: Point)
    ensures
        spanned(a.x as int, a.y as int, b.x as int, b.y as int) == spanned(
            b.x as int,
            b.y as int,
            a.x as int,
            a.y as int,
        ),
        rect_text(spanned(a.x as int, a.y as int, b.x as int, b.y as int)) == rect_text(
            spanned(b.x as int, b.y as int, a.x as int, a.y as int),
        ),
{
}

/// The rectangle that the conversions into `Rect` give has the corners of
/// `spanned`.
pub proof fn spanned_by_corners(x1: i32, y1: i32, x2: i32, y2: i32)
    ensures
        Rect::spanned_by(x1, y1, x2, y2)@ == spanned(x1 as int, y1 as int, x2 as int, y2 as int),
{
}

/// A normalized rectangle has its left edge at or before its right edge and
/// its top edge at or above its bottom edge.
pub proof fn spanned_is_ordered(x1: int, y1: int, x2: int, y2: int)
    ensures
        spanned(x1, y1, x2, y2).left <= spanned(x1, y1, x2, y2).right,
        spanned(x1, y1, x2, y2).top <= spanned(x1, y1, x2, y2).bottom,
{
}

impl From<(i32, i32, i32, i32)> for Rect {
    fn from(v: (i32, i32, i32, i32)) -> (r: Rect) {
        Rect::new(v.0, v.1, v.2, v.3)
    }
}

impl vstd::std_specs::convert::FromSpecImpl<(i32, i32, i32, i32)> for Rect {
    open spec fn obeys_from_spec() -> bool {
        true
    }

    open spec fn from_spec(v: (i32, i32, i32, i32)) -> Rect {
        Rect::spanned_by(v.0, v.1, v.2, v.3)
    }
}

impl From<[i32; 4]> for Rect {
    fn from(v: [i32; 4]) -> (r: Rect) {
        Rect::new(v[0], v[1], v[2], v[3])
    }
}

impl vstd::std_specs::convert::FromSpecImpl<[i32; 4]> for Rect {
    open spec fn obeys_from_spec() -> bool {
        true
    }

    open spec fn from_spec(v: [i32; 4]) -> Rect {
        Rect::spanned_by(v@[0], v@[1], v@[2], v@[3])
    }
}

impl From<(Point, Point)> for Rect {
    fn from(v: (Point, Point)) -> (r: Rect) {
        Rect::from_points(v.0, v.1)
    }
}

impl vstd::std_specs::convert::FromSpecImpl<(Point, Point)> for Rect {
    open spec fn obeys_from_spec() -> bool {
        true
    }

    open spec fn from_spec(v: (Point, Point)) -> Rect {
        Rect::spanned_by(v.0.x, v.0.y, v.1.x, v.1.y)
    }
}

} // verus!
