use vstd::prelude::*;

use crate::object::DefaultObject;
use crate::orbit::{Color, ObjectType, ObjectVisuals, Orbit, Point};
use crate::properties::{ObjectRegister, PropertyView};
use crate::F64Bits;

verus! {

/// The bit pattern of 2π.
pub const TWO_PI: F64Bits = 0x401921FB54442D18;

/// Randomly generate instances of a certain type from a randomness source `R`.
pub trait TypeGenerator<R>: Sized {
    type Generated;

    fn default() -> Self;

    fn generate(&mut self, rng: &mut R) -> Result<Self::Generated, String>;

    /// `n` instances in a row; the first error stops the run and is returned.
    fn generate_many(&mut self, rng: &mut R, n: usize) -> (r: Result<Vec<Self::Generated>, String>)
        ensures
            match r {
                Ok(v) => v@.len() == n,
                Err(_) => n > 0,
            },
    {
        let mut generated: Vec<Self::Generated> = Vec::new();
        let mut i: usize = 0;
        while i < n
            invariant
                i <= n,
                generated@.len() == i,
            decreases n - i,
        {
            match self.generate(rng) {
                Ok(g) => generated.push(g),
                Err(e) => {
                    return Err(e);
                },
            }
            i = i + 1;
        }
        Ok(generated)
    }
}

/// Implementing this trait allows for easier definition of a class of similar
/// object instances.
pub trait GameObjectBlueprint<R>: Sized {
    /// A new default blueprint.
    fn default() -> Self;

    /// A new object made to the blueprint's specifications.
    fn produce(&mut self, rng: &mut R) -> Result<DefaultObject, String>;
}

/// A random distribution, over 64-bit floats held as bit patterns.
#[derive(Clone, Copy, Debug, PartialEq, Eq, Structural)]
pub enum Distribution {
    Constant(F64Bits),
    Normal { mean: F64Bits, std_dev: F64Bits },
    Range { low: F64Bits, high: F64Bits },
}

/// A field of an `AsteroidGenerator`.
#[derive(Clone, Copy, Debug, PartialEq, Eq, Structural)]
pub enum GeneratorField {
    Radius,
    Altitude,
    Angle,
    Speed,
}

/// The distributions each asteroid of a belt is drawn from.
pub struct AsteroidGenerator {
    pub altitude: Option<Distribution>,
    pub angle: Option<Distribution>,
    pub radius: Option<Distribution>,
    pub speed: Option<Distribution>,
}

/// The fields of `g` that have no distribution yet: radius, altitude, angle and
/// speed, in that order.
pub open spec fn missing_fields(g: AsteroidGenerator) -> Seq<GeneratorField> {
    let a = if g.radius is None { seq![GeneratorField::Radius] } else { Seq::empty() };
    let b = if g.altitude is None { seq![GeneratorField::Altitude] } else { Seq::empty() };
    let c = if g.angle is None { seq![GeneratorField::Angle] } else { Seq::empty() };
    let d = if g.speed is None { seq![GeneratorField::Speed] } else { Seq::empty() };
    a + b + c + d
}

/// The error reported when `field` has no distribution.
pub open spec fn unspecified_message(field: GeneratorField) -> Seq<char> {
    match field {
        GeneratorField::Radius => RADIUS_UNSPECIFIED@,
        GeneratorField::Altitude => ALTITUDE_UNSPECIFIED@,
        GeneratorField::Angle => ANGLE_UNSPECIFIED@,
        GeneratorField::Speed => SPEED_UNSPECIFIED@,
    }
}

pub const RADIUS_UNSPECIFIED: &'static str = "AsteroidGenerator : unspecified radius distribution";

pub const ALTITUDE_UNSPECIFIED: &'static str = "AsteroidGenerator : unspecified altitude distribution";

pub const ANGLE_UNSPECIFIED: &'static str = "AsteroidGenerator : unspecified angle distribution";

pub const SPEED_UNSPECIFIED: &'static str = "AsteroidGenerator : unspecified speed distribution";

/// One set of values drawn for an asteroid.
#[derive(Clone, Copy, Debug, PartialEq, Eq, Structural)]
pub struct AsteroidSample {
    pub radius: F64Bits,
    pub altitude: F64Bits,
    pub angle: F64Bits,
    pub speed: F64Bits,
    pub color: Color,
}

impl AsteroidGenerator {
    /// No distribution but the start angle, uniform over `[0, 2π)`.
    pub fn default() -> (r: AsteroidGenerator)
        ensures
            r.altitude is None,
            r.angle == Some(Distribution::Range { low: 0, high: TWO_PI }),
            r.radius is None,
            r.speed is None,
    {
        AsteroidGenerator {
            altitude: None,
            angle: Some(Distribution::Range { low: 0, high: TWO_PI }),
            radius: None,
            speed: None,
        }
    }

    pub fn altitude(self, value: Distribution) -> (r: Self)
        ensures
            r == (AsteroidGenerator { altitude: Some(value), ..self }),
    {
        AsteroidGenerator { altitude: Some(value), ..self }
    }

    pub fn angle(self, value: Distribution) -> (r: Self)
        ensures
            r == (AsteroidGenerator { angle: Some(value), ..self }),
    {
        AsteroidGenerator { angle: Some(value), ..self }
    }

    pub fn radius(self, value: Distribution) -> (r: Self)
        ensures
            r == (AsteroidGenerator { radius: Some(value), ..self }),
    {
        AsteroidGenerator { radius: Some(value), ..self }
    }

    pub fn orbital_speed(self, value: Distribution) -> (r: Self)
        ensures
            r == (AsteroidGenerator { speed: Some(value), ..self }),
    {
        AsteroidGenerator { speed: Some(value), ..self }
    }

    /// Every field that still needs a distribution, all at once.
    pub fn missing(&self) -> (r: Vec<GeneratorField>)
        ensures
            r@ == missing_fields(*self),
    {
        let mut r: Vec<GeneratorField> = Vec::new();
        if self.radius.is_none() {
            r.push(GeneratorField::Radius);
        }
        if self.altitude.is_none() {
            r.push(GeneratorField::Altitude);
        }
        if self.angle.is_none() {
            r.push(GeneratorField::Angle);
        }
        if self.speed.is_none() {
            r.push(GeneratorField::Speed);
        }
        assert(r@ =~= missing_fields(*self));
        r
    }

    /// Whether sampling may go on: the error names the first field without a
    /// distribution.
    pub fn check(&self) -> (r: Result<(), String>)
        ensures
            match r {
                Ok(()) => missing_fields(*self).len() == 0,
                Err(e) => missing_fields(*self).len() > 0 && e@ == unspecified_message(
                    missing_fields(*self)[0],
                ),
            },
    {
        let missing = self.missing();
        if missing.len() == 0 {
            return Ok(());
        }
        let message = match missing[0] {
            GeneratorField::Radius => RADIUS_UNSPECIFIED,
            GeneratorField::Altitude => ALTITUDE_UNSPECIFIED,
            GeneratorField::Angle => ANGLE_UNSPECIFIED,
            GeneratorField::Speed => SPEED_UNSPECIFIED,
        };
        Err(String::from_str(message))
    }
}

/// The asteroid drawn as `sample`, on a circular orbit around the object at
/// handle `origin`, drawn as a circle of the drawn radius.
pub fn asteroid(origin: usize, sample: AsteroidSample) -> (r: DefaultObject)
    ensures
        r.wf(),
        r.object_type == ObjectType::Asteroid,
        r.orbit == (Orbit::Circular {
            altitude: sample.altitude,
            orbital_speed: sample.speed,
            angle: sample.angle,
            origin,
        }),
        r.visuals == (ObjectVisuals::Circle { radius: sample.radius, color: sample.color }),
        r.register@ == Map::<Seq<char>, PropertyView>::empty(),
        r.position == (Point { x: 0, y: 0 }),
        r.time_alive == 0,
{
    DefaultObject {
        time_alive: 0,
        object_type: ObjectType::Asteroid,
        position: Point::zero(),
        orbit: Orbit::Circular {
            altitude: sample.altitude,
            orbital_speed: sample.speed,
            angle: sample.angle,
            origin,
        },
        register: ObjectRegister::new(),
        visuals: ObjectVisuals::Circle { radius: sample.radius, color: sample.color },
    }
}

} // verus!
