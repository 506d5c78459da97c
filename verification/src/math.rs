//! Small vector and matrix value types for uniform data.

use vstd::prelude::*;

verus! {

/// A two-component vector.
#[derive(Clone, Copy, Debug, Default, PartialEq, Eq, PartialOrd, Ord, Hash)]
pub struct Vec2<T> {
    pub x: T,
    pub y: T,
}

/// A three-component vector.
#[derive(Clone, Copy, Debug, Default, PartialEq, Eq, PartialOrd, Ord, Hash)]
pub struct Vec3<T> {
    pub x: T,
    pub y: T,
    pub z: T,
}

/// A four-component vector.
#[derive(Clone, Copy, Debug, Default, PartialEq, Eq, PartialOrd, Ord, Hash)]
pub struct Vec4<T> {
    pub x: T,
    pub y: T,
    pub z: T,
    pub w: T,
}

/// A two-by-two matrix, stored as columns.
#[derive(Clone, Copy, Debug, Default, PartialEq, Eq, PartialOrd, Ord, Hash)]
pub struct Mat2x2<T> {
    pub x: Vec2<T>,
    pub y: Vec2<T>,
}

impl<T> Mat2x2<T> {
    /// A matrix from its columns.
    pub fn new(x: Vec2<T>, y: Vec2<T>) -> (r: Self)
        ensures
            r == (Mat2x2 { x, y }),
    {
        Mat2x2 { x, y }
    }
}

/// A three-by-three matrix, stored as columns.
#[derive(Clone, Copy, Debug, Default, PartialEq, Eq, PartialOrd, Ord, Hash)]
pub struct Mat3x3<T> {
    pub x: Vec3<T>,
    pub y: Vec3<T>,
    pub z: Vec3<T>,
}

impl<T> Mat3x3<T> {
    /// A matrix from its columns.
    pub fn new(x: Vec3<T>, y: Vec3<T>, z: Vec3<T>) -> (r: Self)
        ensures
            r == (Mat3x3 { x, y, z }),
    {
        Mat3x3 { x, y, z }
    }
}

/// A four-by-four matrix, stored as columns.
#[derive(Clone, Copy, Debug, Default, PartialEq, Eq, PartialOrd, Ord, Hash)]
pub struct Mat4x4<T> {
    pub x: Vec4<T>,
    pub y: Vec4<T>,
    pub z: Vec4<T>,
    pub w: Vec4<T>,
}

impl<T> Mat4x4<T> {
    /// A matrix from its columns.
    pub fn new(x: Vec4<T>, y: Vec4<T>, z: Vec4<T>, w: Vec4<T>) -> (r: Self)
        ensures
            r == (Mat4x4 { x, y, z, w }),
    {
        Mat4x4 { x, y, z, w }
    }
}

} // verus!
