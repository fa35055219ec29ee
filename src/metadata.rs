use vstd::prelude::*;

use crate::geometry::{fits_i32, spanned, trunc_div, Point, Rect};

verus! {

/// The answer of the metadata response mode: what the service would do.
#[derive(Debug, Clone, PartialEq)]
pub struct Meta {
    pub thumbor: Data,
}

/// The source image of a metadata answer.
#[derive(Debug, Clone, PartialEq, Eq)]
pub struct Source {
    pub url: String,
}

/// The body of a metadata answer.
#[derive(Debug, Clone, PartialEq)]
pub struct Data {
    pub source: Source,
    pub operations: Vec<Operation>,
    pub target: Point,
    pub focal_points: Option<Vec<FocalPoint>>,
}

/// A focal point: a center with a width and a height.
#[derive(Debug, Clone, Copy, PartialEq, Eq, Default)]
pub struct FocalPoint {
    pub x: i32,
    pub y: i32,
    pub height: i32,
    pub width: i32,
}

impl FocalPoint {
    /// Whether the corners of the focal rectangle fit in `i32`.
    pub open spec fn bounds_fit(self) -> bool {
        &&& fits_i32(self.x - trunc_div(self.width as int, 2))
        &&& fits_i32(self.x + trunc_div(self.width as int, 2))
        &&& fits_i32(self.y - trunc_div(self.height as int, 2))
        &&& fits_i32(self.y + trunc_div(self.height as int, 2))
    }

    /// The rectangle around the center reaching half the width to each side
    /// and half the height up and down; `None` where a corner overflows `i32`.
    pub fn bounds(&self) -> (r: Option<Rect>)
        ensures
            r is Some <==> self.bounds_fit(),
            r matches Some(rect) ==> rect@ == spanned(
                self.x - trunc_div(self.width as int, 2),
                self.y - trunc_div(self.height as int, 2),
                self.x + trunc_div(self.width as int, 2),
                self.y + trunc_div(self.height as int, 2),
            ),
    {
        let rx = (self.width / 2) as i64;
        let ry = (self.height / 2) as i64;
        let (x, y) = (self.x as i64, self.y as i64);
        let fits = x - rx >= i32::MIN as i64 && x - rx <= i32::MAX as i64 && x + rx >= i32::MIN as i64
            && x + rx <= i32::MAX as i64 && y - ry >= i32::MIN as i64 && y - ry <= i32::MAX as i64
            && y + ry >= i32::MIN as i64 && y + ry <= i32::MAX as i64;
        if fits {
            Some(Rect::from_center(Point::new(self.x, self.y), self.width, self.height))
        } else {
            None
        }
    }
}

/// One operation the service would perform.
#[derive(Debug, Clone, Copy, PartialEq)]
pub enum Operation {
    Resize(Point),
    Crop(Rect),
    FlipHorizontally,
    FlipVertically,
    AutoPngToJpgConversion,
}

} // verus!
