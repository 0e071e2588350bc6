use vstd::prelude::*;

use crate::orbit::{Kinematics, ObjectType, ObjectVisuals, Orbit, Point};
use crate::properties::ObjectRegister;
use crate::F64Bits;

verus! {

/// An independent object evolving inside the simulation.
#[derive(Clone, Debug)]
pub struct DefaultObject {
    /// Time in seconds since the initialization of the object.
    pub time_alive: F64Bits,
    /// The object's type.
    pub object_type: ObjectType,
    /// The object's current position.
    pub position: Point,
    /// The object's current orbit.
    pub orbit: Orbit,
    /// The object's property register.
    pub register: ObjectRegister,
    /// How the object is drawn.
    pub visuals: ObjectVisuals,
}

impl DefaultObject {
    pub open spec fn wf(&self) -> bool {
        self.register.wf()
    }

    /// A fixed object stands at its coordinate from the start; the others keep
    /// their position until their first update.
    pub fn init(&mut self)
        ensures
            final(self).position == match old(self).orbit {
                Orbit::Fixed(p) => p,
                _ => old(self).position,
            },
            final(self).time_alive == old(self).time_alive,
            final(self).object_type == old(self).object_type,
            final(self).orbit == old(self).orbit,
            final(self).register == old(self).register,
            final(self).visuals == old(self).visuals,
    {
        match self.orbit {
            Orbit::Fixed(p) => {
                self.position = p;
            },
            _ => {},
        }
    }

    /// Whether a step of `dt` seconds, the origin object standing at
    /// `origin_position`, may turn `self` into `after`: time alive grows by `dt`,
    /// the orbit steps and gives the new position, and nothing else changes.
    pub open spec fn advances_to<K: Kinematics>(
        self,
        k: &K,
        dt: F64Bits,
        origin_position: Point,
        after: DefaultObject,
    ) -> bool {
        &&& k.adds(self.time_alive, dt, after.time_alive)
        &&& self.orbit.steps_to(k, dt, origin_position, after.orbit, after.position)
        &&& after.object_type == self.object_type
        &&& after.register == self.register
        &&& after.visuals == self.visuals
    }

    /// Advance the object by `dt` seconds, given the current position of its
    /// origin object (ignored by a fixed orbit).
    pub fn update<K: Kinematics>(&mut self, k: &K, dt: F64Bits, origin_position: Point)
        requires
            k.ready(),
        ensures
            old(self).advances_to(k, dt, origin_position, *final(self)),
    {
        self.time_alive = k.add(self.time_alive, dt);
        self.position = self.orbit.compute(k, dt, origin_position);
    }

    pub fn object_type(&self) -> (r: ObjectType)
        ensures
            r == self.object_type,
    {
        self.object_type
    }

    pub fn position(&self) -> (r: Point)
        ensures
            r == self.position,
    {
        self.position
    }

    pub fn visuals(&self) -> (r: &ObjectVisuals)
        ensures
            *r == self.visuals,
    {
        &self.visuals
    }

    pub fn register(&self) -> (r: &ObjectRegister)
        ensures
            *r == self.register,
    {
        &self.register
    }

    pub fn register_mut(&mut self) -> (r: &mut ObjectRegister)
        ensures
            *r == old(self).register,
            *final(self) == (DefaultObject { register: *final(r), ..*old(self) }),
    {
        &mut self.register
    }
}

/// Convenience structure for building any `DefaultObject` with sensible defaults.
pub struct DefaultObjectBuilder {
    pub object_type: ObjectType,
    pub visuals: ObjectVisuals,
    pub register: ObjectRegister,
    pub orbit: Option<Orbit>,
}

impl DefaultObjectBuilder {
    /// A builder for an object of the given type drawn as `visuals`, with an empty
    /// register and no orbit chosen yet.
    pub fn with_visuals(object_type: ObjectType, visuals: ObjectVisuals) -> (r: Self)
        ensures
            r.object_type == object_type,
            r.visuals == visuals,
            r.register.wf(),
            r.register@ == Map::<Seq<char>, crate::properties::PropertyView>::empty(),
            r.orbit is None,
    {
        DefaultObjectBuilder { object_type, visuals, register: ObjectRegister::new(), orbit: None }
    }

    pub fn register(self, reg: ObjectRegister) -> (r: Self)
        ensures
            r == (DefaultObjectBuilder { register: reg, ..self }),
    {
        DefaultObjectBuilder { register: reg, ..self }
    }

    pub fn orbit(self, orbit: Orbit) -> (r: Self)
        ensures
            r == (DefaultObjectBuilder { orbit: Some(orbit), ..self }),
    {
        DefaultObjectBuilder { orbit: Some(orbit), ..self }
    }

    /// The object, at `(0, 0)` with no time alive; without an orbit it is fixed at `(0, 0)`.
    pub fn build(self) -> (r: DefaultObject)
        ensures
            r.time_alive == 0,
            r.object_type == self.object_type,
            r.position == (Point { x: 0, y: 0 }),
            r.orbit == match self.orbit {
                Some(o) => o,
                None => Orbit::Fixed(Point { x: 0, y: 0 }),
            },
            r.register == self.register,
            r.visuals == self.visuals,
    {
        let orbit = match self.orbit {
            Some(o) => o,
            None => Orbit::Fixed(Point::zero()),
        };
        DefaultObject {
            time_alive: 0,
            object_type: self.object_type,
            position: Point::zero(),
            orbit,
            register: self.register,
            visuals: self.visuals,
        }
    }
}

} // verus!
