use vstd::prelude::*;

use crate::F64Bits;

verus! {

/// A 2D coordinate.
#[derive(Clone, Copy, Debug, PartialEq, Eq, Structural)]
pub struct Point {
    pub x: F64Bits,
    pub y: F64Bits,
}

impl Point {
    /// The origin `(0.0, 0.0)`: both bit patterns are zero.
    pub fn zero() -> (r: Point)
        ensures
            r == (Point { x: 0, y: 0 }),
    {
        Point { x: 0, y: 0 }
    }
}

/// The arithmetic a tick needs on 64-bit floats. The simulation decides what is
/// computed from what, and in which order; an implementation of this trait does
/// the arithmetic. Each spec function relates the arguments of an operation to a
/// result that the operation may give.
pub trait Kinematics {
    /// Every operation may be called on any arguments.
    spec fn ready(&self) -> bool;

    spec fn shifts(&self, origin: Point, offset: Point, r: Point) -> bool;

    spec fn turns(&self, angle: F64Bits, orbital_speed: F64Bits, elapsed: F64Bits, r: F64Bits) -> bool;

    spec fn places(&self, origin: Point, altitude: F64Bits, angle: F64Bits, r: Point) -> bool;

    spec fn adds(&self, a: F64Bits, b: F64Bits, r: F64Bits) -> bool;

    /// `origin + offset`, coordinate by coordinate.
    fn shift(&self, origin: Point, offset: Point) -> (r: Point)
        requires
            self.ready(),
        ensures
            self.shifts(origin, offset, r),
    ;

    /// `(angle - orbital_speed * elapsed) mod 2π`, brought into `[0, 2π)`.
    fn advance_angle(&self, angle: F64Bits, orbital_speed: F64Bits, elapsed: F64Bits) -> (r: F64Bits)
        requires
            self.ready(),
        ensures
            self.turns(angle, orbital_speed, elapsed, r),
    ;

    /// `origin + altitude * (cos angle, sin angle)`.
    fn polar(&self, origin: Point, altitude: F64Bits, angle: F64Bits) -> (r: Point)
        requires
            self.ready(),
        ensures
            self.places(origin, altitude, angle, r),
    ;

    /// `a + b`.
    fn add(&self, a: F64Bits, b: F64Bits) -> (r: F64Bits)
        requires
            self.ready(),
        ensures
            self.adds(a, b, r),
    ;
}

/// Kinematics given as four functions, one per operation.
pub struct FnKinematics<S, A, P, D> {
    pub shift_fn: S,
    pub advance_angle_fn: A,
    pub polar_fn: P,
    pub add_fn: D,
}

impl<S, A, P, D> Kinematics for FnKinematics<S, A, P, D> where
    S: Fn(Point, Point) -> Point,
    A: Fn(F64Bits, F64Bits, F64Bits) -> F64Bits,
    P: Fn(Point, F64Bits, F64Bits) -> Point,
    D: Fn(F64Bits, F64Bits) -> F64Bits,
 {
    open spec fn ready(&self) -> bool {
        &&& forall|o: Point, off: Point| #[trigger] self.shift_fn.requires((o, off))
        &&& forall|a: F64Bits, s: F64Bits, e: F64Bits| #[trigger] self.advance_angle_fn.requires((a, s, e))
        &&& forall|o: Point, h: F64Bits, a: F64Bits| #[trigger] self.polar_fn.requires((o, h, a))
        &&& forall|a: F64Bits, b: F64Bits| #[trigger] self.add_fn.requires((a, b))
    }

    open spec fn shifts(&self, origin: Point, offset: Point, r: Point) -> bool {
        self.shift_fn.ensures((origin, offset), r)
    }

    open spec fn turns(&self, angle: F64Bits, orbital_speed: F64Bits, elapsed: F64Bits, r: F64Bits) -> bool {
        self.advance_angle_fn.ensures((angle, orbital_speed, elapsed), r)
    }

    open spec fn places(&self, origin: Point, altitude: F64Bits, angle: F64Bits, r: Point) -> bool {
        self.polar_fn.ensures((origin, altitude, angle), r)
    }

    open spec fn adds(&self, a: F64Bits, b: F64Bits, r: F64Bits) -> bool {
        self.add_fn.ensures((a, b), r)
    }

    fn shift(&self, origin: Point, offset: Point) -> (r: Point) {
        (self.shift_fn)(origin, offset)
    }

    fn advance_angle(&self, angle: F64Bits, orbital_speed: F64Bits, elapsed: F64Bits) -> (r: F64Bits) {
        (self.advance_angle_fn)(angle, orbital_speed, elapsed)
    }

    fn polar(&self, origin: Point, altitude: F64Bits, angle: F64Bits) -> (r: Point) {
        (self.polar_fn)(origin, altitude, angle)
    }

    fn add(&self, a: F64Bits, b: F64Bits) -> (r: F64Bits) {
        (self.add_fn)(a, b)
    }
}

/// How an object moves. `origin` is the handle (index in the owning `System`) of
/// the object that the orbit is measured against; the orbit never owns it.
#[derive(Clone, Copy, Debug, PartialEq, Eq, Structural)]
pub enum Orbit {
    /// A circular orbit around another object.
    Circular {
        altitude: F64Bits,
        orbital_speed: F64Bits,
        /// Current angle of the orbit, in radians.
        angle: F64Bits,
        origin: usize,
    },
    /// The object always stands at `position` relative to the origin object.
    Relative { position: Point, origin: usize },
    /// The object never moves from its position. Useful for stars.
    Fixed(Point),
}

impl Orbit {
    /// The handle of the object this orbit reads, if any.
    pub open spec fn origin_of(self) -> Option<usize> {
        match self {
            Orbit::Circular { origin, .. } => Some(origin),
            Orbit::Relative { origin, .. } => Some(origin),
            Orbit::Fixed(_) => None,
        }
    }

    /// The handle of the object this orbit reads, if any.
    pub fn origin(&self) -> (r: Option<usize>)
        ensures
            r == self.origin_of(),
    {
        match self {
            Orbit::Circular { origin, .. } => Some(*origin),
            Orbit::Relative { origin, .. } => Some(*origin),
            Orbit::Fixed(_) => None,
        }
    }

    /// Whether a step of `elapsed` seconds, the origin object standing at
    /// `origin_position`, may turn `self` into `after` and put the orbiting
    /// object at `r`. A fixed orbit stays and gives its coordinate; a relative
    /// orbit stays and gives the origin shifted by its offset; a circular orbit
    /// keeps altitude, speed and origin, turns its angle, and gives the point at
    /// its altitude and new angle around the origin.
    pub open spec fn steps_to<K: Kinematics>(
        self,
        k: &K,
        elapsed: F64Bits,
        origin_position: Point,
        after: Orbit,
        r: Point,
    ) -> bool {
        match self {
            Orbit::Fixed(p) => after == self && r == p,
            Orbit::Relative { position, .. } => after == self && k.shifts(origin_position, position, r),
            Orbit::Circular { altitude, orbital_speed, angle, origin } => match after {
                Orbit::Circular { altitude: a2, orbital_speed: s2, angle: turned, origin: o2 } => {
                    &&& a2 == altitude
                    &&& s2 == orbital_speed
                    &&& o2 == origin
                    &&& k.turns(angle, orbital_speed, elapsed, turned)
                    &&& k.places(origin_position, altitude, turned, r)
                },
                _ => false,
            },
        }
    }

    /// The new coordinates of the orbiting object, `elapsed` seconds after the
    /// previous call (a per-tick delta), given the current position of the
    /// origin object. A circular orbit turns its angle by `-orbital_speed * elapsed` first.
    pub fn compute<K: Kinematics>(&mut self, k: &K, elapsed: F64Bits, origin_position: Point) -> (r: Point)
        requires
            k.ready(),
        ensures
            old(self).steps_to(k, elapsed, origin_position, *final(self), r),
    {
        match self {
            Orbit::Circular { altitude, orbital_speed, angle, .. } => {
                *angle = k.advance_angle(*angle, *orbital_speed, elapsed);
                k.polar(origin_position, *altitude, *angle)
            },
            Orbit::Relative { position, .. } => k.shift(origin_position, *position),
            Orbit::Fixed(position) => *position,
        }
    }
}

/// A fixed orbit gives its coordinate whatever the time elapsed and wherever the
/// origin stands, and a step leaves it as it was.
pub proof fn law_fixed_orbit<K: Kinematics>(
    k: &K,
    p: Point,
    elapsed: F64Bits,
    origin_position: Point,
    after: Orbit,
    r: Point,
)
    requires
        Orbit::Fixed(p).steps_to(k, elapsed, origin_position, after, r),
    ensures
        r == p,
        after == Orbit::Fixed(p),
{
}

/// Successive steps of `elapsed` seconds on a circular orbit keep its altitude,
/// speed and origin, and each turns the angle of the one before: `orbits[i]` is
/// the orbit after `i` steps, and its angle the start angle turned `i` times.
pub proof fn law_circular_steps<K: Kinematics>(
    k: &K,
    orbits: Seq<Orbit>,
    positions: Seq<Point>,
    origin_position: Point,
    elapsed: F64Bits,
    altitude: F64Bits,
    orbital_speed: F64Bits,
    angle: F64Bits,
    origin: usize,
)
    requires
        orbits.len() >= 1,
        positions.len() + 1 == orbits.len(),
        orbits[0] == (Orbit::Circular { altitude, orbital_speed, angle, origin }),
        forall|i: int|
            0 <= i < positions.len() ==> #[trigger] orbits[i].steps_to(
                k,
                elapsed,
                origin_position,
                orbits[i + 1],
                positions[i],
            ),
    ensures
        forall|i: int|
            0 <= i < orbits.len() ==> match #[trigger] orbits[i] {
                Orbit::Circular { altitude: a, orbital_speed: s, origin: o, .. } => a == altitude
                    && s == orbital_speed && o == origin,
                _ => false,
            },
        forall|i: int|
            0 <= i < positions.len() ==> #[trigger] k.turns(
                orbits[i]->angle,
                orbital_speed,
                elapsed,
                orbits[i + 1]->angle,
            ),
    decreases orbits.len(),
{
    if orbits.len() > 1 {
        let n = orbits.len() - 1;
        law_circular_steps::<K>(
            k,
            orbits.take(n),
            positions.take(n - 1),
            origin_position,
            elapsed,
            altitude,
            orbital_speed,
            angle,
            origin,
        );
        assert forall|i: int| 0 <= i < orbits.len() implies match #[trigger] orbits[i] {
            Orbit::Circular { altitude: a, orbital_speed: s, origin: o, .. } => a == altitude
                && s == orbital_speed && o == origin,
            _ => false,
        } by {
            if i < n {
                assert(orbits.take(n)[i] == orbits[i]);
            } else {
                assert(orbits.take(n)[i - 1] == orbits[i - 1]);
                assert(positions.take(n - 1).len() == n - 1);
                assert(orbits[i - 1].steps_to(k, elapsed, origin_position, orbits[i], positions[i - 1]));
            }
        }
        assert forall|i: int| 0 <= i < positions.len() implies #[trigger] k.turns(
            orbits[i]->angle,
            orbital_speed,
            elapsed,
            orbits[i + 1]->angle,
        ) by {
            assert(orbits[i].steps_to(k, elapsed, origin_position, orbits[i + 1], positions[i]));
        }
    }
}

/// The kinds of objects in a system.
#[derive(Clone, Copy, Debug, PartialEq, Eq, Structural)]
pub enum ObjectType {
    Star,
    Planet,
    Moon,
    Station,
    Asteroid,
}

/// A color as red, green, blue and alpha components.
#[derive(Clone, Copy, Debug, PartialEq, Eq, Structural)]
pub struct Color {
    pub r: u8,
    pub g: u8,
    pub b: u8,
    pub a: u8,
}

/// The simple representation an object is drawn with.
#[derive(Clone, Copy, Debug, PartialEq, Eq, Structural)]
pub enum ObjectVisuals {
    Circle { radius: F64Bits, color: Color },
    Square { size: F64Bits, color: Color },
}

impl ObjectVisuals {
    /// A circle of the given radius, in an opaque color.
    pub fn circle(radius: F64Bits, rgb: (u8, u8, u8)) -> (r: ObjectVisuals)
        ensures
            r == (ObjectVisuals::Circle { radius, color: Color { r: rgb.0, g: rgb.1, b: rgb.2, a: 255 } }),
    {
        ObjectVisuals::Circle { radius, color: Color { r: rgb.0, g: rgb.1, b: rgb.2, a: 255 } }
    }

    /// A square of the given side, in an opaque color.
    pub fn square(size: F64Bits, rgb: (u8, u8, u8)) -> (r: ObjectVisuals)
        ensures
            r == (ObjectVisuals::Square { size, color: Color { r: rgb.0, g: rgb.1, b: rgb.2, a: 255 } }),
    {
        ObjectVisuals::Square { size, color: Color { r: rgb.0, g: rgb.1, b: rgb.2, a: 255 } }
    }
}

} // verus!
