// Orbital object simulation: typed property registers, orbits read through
// object handles, a system that owns its objects and advances them root to
// leaf, and the configuration side of bulk object generation. Floating-point
// values are carried as bit patterns; the arithmetic on them is handed in as
// functions (`orbit::FnKinematics`), and the contracts say which result of which
// function each new value is.
use vstd::prelude::*;

pub mod generator;
pub mod ids;
pub mod object;
pub mod orbit;
pub mod properties;
pub mod stations;
pub mod system;

verus! {

/// A 64-bit floating-point number, held as its IEEE 754 binary64 bit pattern.
pub type F64Bits = u64;

/// An artificial object, built by mankind (a mining station for instance).
pub struct ArtificialObjectComponent {
    pub name: String,
}

impl ArtificialObjectComponent {
    pub fn new(name: &str) -> (r: ArtificialObjectComponent)
        ensures
            r.name@ == name@,
    {
        ArtificialObjectComponent { name: String::from_str(name) }
    }
}

} // verus!
