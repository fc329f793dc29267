//! Points, triangles, vertex keys and colors.

use vstd::prelude::*;

verus! {

/// A point of space.  Each coordinate counts half grid units: `x == 3` lies
/// one and a half units along the x axis.
#[derive(Clone, Copy, PartialEq, Eq, Hash, Debug, Structural)]
pub struct Point3 {
    pub x: i64,
    pub y: i64,
    pub z: i64,
}

impl Point3 {
    pub fn new(x: i64, y: i64, z: i64) -> (p: Self)
        ensures
            p == (Point3 { x, y, z }),
    {
        Point3 { x, y, z }
    }
}

/// A point of the plane, in half grid units.
#[derive(Clone, Copy, PartialEq, Eq, Hash, Debug, Structural)]
pub struct Point2 {
    pub x: i64,
    pub y: i64,
}

impl Point2 {
    pub fn new(x: i64, y: i64) -> (p: Self)
        ensures
            p == (Point2 { x, y }),
    {
        Point2 { x, y }
    }
}

/// Three corners, in the order in which they are drawn.
#[derive(Clone, Copy, PartialEq, Debug)]
pub struct Triangle {
    pub points: [Point3; 3],
}

impl Triangle {
    pub fn new(first: Point3, second: Point3, third: Point3) -> (t: Self)
        ensures
            t.points@ == seq![first, second, third],
    {
        let t = Triangle { points: [first, second, third] };
        assert(t.points@ =~= seq![first, second, third]);
        t
    }
}

/// The whole part that a key keeps of a coordinate `c` in half units:
/// `c / 2` rounded towards zero, held between 0 and `u32::MAX`.
pub open spec fn key_integral(c: i64) -> u32 {
    if c <= 0 {
        0
    } else if c / 2 > u32::MAX {
        u32::MAX
    } else {
        (c / 2) as u32
    }
}

/// The hundredths that a key keeps of a coordinate `c` in half units: 50 for
/// a positive odd `c`, else 0.
pub open spec fn key_fractional(c: i64) -> u8 {
    if c > 0 && c % 2 == 1 {
        50
    } else {
        0
    }
}

fn integral_of(c: i64) -> (r: u32)
    ensures
        r == key_integral(c),
{
    if c <= 0 {
        0
    } else if c / 2 > u32::MAX as i64 {
        u32::MAX
    } else {
        (c / 2) as u32
    }
}

fn fractional_of(c: i64) -> (r: u8)
    ensures
        r == key_fractional(c),
{
    if c > 0 && c % 2 == 1 {
        50
    } else {
        0
    }
}

/// A point of the plane as a hashable key: whole parts and hundredths.
#[derive(Clone, Copy, Hash, Eq, PartialEq, Debug)]
pub struct Vector2Key {
    integral: [u32; 2],
    fractional: [u8; 2],
}

impl Vector2Key {
    /// The whole parts of the key.
    pub closed spec fn integral(&self) -> Seq<u32> {
        self.integral@
    }

    /// The hundredths of the key.
    pub closed spec fn fractional(&self) -> Seq<u8> {
        self.fractional@
    }

    pub fn from_vector2(v: Point2) -> (k: Self)
        ensures
            k.integral() == seq![key_integral(v.x), key_integral(v.y)],
            k.fractional() == seq![key_fractional(v.x), key_fractional(v.y)],
    {
        Vector2Key::new(v.x, v.y)
    }

    /// The key of the ground position of a point of space: its x and z.
    pub fn from_vector3(v: Point3) -> (k: Self)
        ensures
            k.integral() == seq![key_integral(v.x), key_integral(v.z)],
            k.fractional() == seq![key_fractional(v.x), key_fractional(v.z)],
    {
        Vector2Key::new(v.x, v.z)
    }

    /// The key of the point `(x, y)`, given in half units.
    pub fn new(x: i64, y: i64) -> (k: Self)
        ensures
            k.integral() == seq![key_integral(x), key_integral(y)],
            k.fractional() == seq![key_fractional(x), key_fractional(y)],
    {
        let k = Vector2Key {
            integral: [integral_of(x), integral_of(y)],
            fractional: [fractional_of(x), fractional_of(y)],
        };
        assert(k.integral@ =~= seq![key_integral(x), key_integral(y)]);
        assert(k.fractional@ =~= seq![key_fractional(x), key_fractional(y)]);
        k
    }

    /// The point that the key stands for, in half units.
    pub fn to_vector2(&self) -> (p: Point2)
        ensures
            p.x == 2 * self.integral()[0] + self.fractional()[0] / 50,
            p.y == 2 * self.integral()[1] + self.fractional()[1] / 50,
    {
        Point2 {
            x: 2 * (self.integral[0] as i64) + (self.fractional[0] / 50) as i64,
            y: 2 * (self.integral[1] as i64) + (self.fractional[1] / 50) as i64,
        }
    }
}

/// A point of space as a hashable key: whole parts and hundredths.
#[derive(Clone, Copy, Hash, Eq, PartialEq, Debug)]
pub struct Vector3Key {
    integral: [u32; 3],
    fractional: [u8; 3],
}

impl Vector3Key {
    /// The whole parts of the key.
    pub closed spec fn integral(&self) -> Seq<u32> {
        self.integral@
    }

    /// The hundredths of the key.
    pub closed spec fn fractional(&self) -> Seq<u8> {
        self.fractional@
    }

    /// Whether this is the key of the point `p`.
    pub open spec fn is_key_of(&self, p: Point3) -> bool {
        &&& self.integral() == seq![key_integral(p.x), key_integral(p.y), key_integral(p.z)]
        &&& self.fractional() == seq![
            key_fractional(p.x),
            key_fractional(p.y),
            key_fractional(p.z),
        ]
    }

    pub fn from_vector3(v: Point3) -> (k: Self)
        ensures
            k.is_key_of(v),
    {
        Vector3Key::new(v.x, v.y, v.z)
    }

    /// The key of the point `(x, y, z)`, given in half units.
    pub fn new(x: i64, y: i64, z: i64) -> (k: Self)
        ensures
            k.is_key_of(Point3 { x, y, z }),
    {
        let k = Vector3Key {
            integral: [integral_of(x), integral_of(y), integral_of(z)],
            fractional: [fractional_of(x), fractional_of(y), fractional_of(z)],
        };
        assert(k.integral@ =~= seq![key_integral(x), key_integral(y), key_integral(z)]);
        assert(k.fractional@ =~= seq![key_fractional(x), key_fractional(y), key_fractional(z)]);
        k
    }

    /// The point that the key stands for, in half units.
    pub fn to_vector3(&self) -> (p: Point3)
        ensures
            p.x == 2 * self.integral()[0] + self.fractional()[0] / 50,
            p.y == 2 * self.integral()[1] + self.fractional()[1] / 50,
            p.z == 2 * self.integral()[2] + self.fractional()[2] / 50,
    {
        Point3 {
            x: 2 * (self.integral[0] as i64) + (self.fractional[0] / 50) as i64,
            y: 2 * (self.integral[1] as i64) + (self.fractional[1] / 50) as i64,
            z: 2 * (self.integral[2] as i64) + (self.fractional[2] / 50) as i64,
        }
    }
}

/// An 8-bit RGBA color.
#[derive(Clone, Copy, PartialEq, Eq, Hash, Debug, Structural)]
pub struct Color8 {
    pub r: u8,
    pub g: u8,
    pub b: u8,
    pub a: u8,
}

impl Color8 {
    pub fn new(r: u8, g: u8, b: u8, a: u8) -> (c: Self)
        ensures
            c == (Color8 { r, g, b, a }),
    {
        Color8 { r, g, b, a }
    }
}

} // verus!
