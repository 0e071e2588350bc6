use vstd::prelude::*;

use crate::properties::{fresh_property, ObjectPropertyValue, ObjectRegister, PropertyView, ValueView};
use crate::F64Bits;

verus! {

/// The bit pattern of 1000.0.
pub const ONE_THOUSAND: F64Bits = 0x408F400000000000;

/// The bit pattern of 10.0.
pub const TEN: F64Bits = 0x4024000000000000;

/// A mutable entry with a display name.
pub open spec fn named(value: ValueView, description: Seq<char>, name: Seq<char>) -> PropertyView {
    PropertyView { display_name: Some(name), ..fresh_property(value, description, true) }
}

/// The register of a new transfer station: level 1, empty mineral and energy
/// stocks of at most 1000.0 each, and 10.0 units of energy produced per second.
pub open spec fn station_entries() -> Map<Seq<char>, PropertyView> {
    Map::<Seq<char>, PropertyView>::empty()
        .insert("level"@, fresh_property(ValueView::Integer(1), "Current level."@, true))
        .insert("minerals"@, named(ValueView::Float(0), "Current amount of minerals in stock."@, "Minerals"@))
        .insert(
            "minerals_max"@,
            named(
                ValueView::Float(ONE_THOUSAND),
                "Maximum amount of minerals that can be stored."@,
                "Minerals maximum stock"@,
            ),
        )
        .insert("energy"@, named(ValueView::Float(0), "Current amount of energy in stock."@, "Energy"@))
        .insert(
            "energy_max"@,
            named(
                ValueView::Float(ONE_THOUSAND),
                "Maximum amount of energy that can be stored."@,
                "Energy maximum stock"@,
            ),
        )
        .insert(
            "energy_rate"@,
            named(
                ValueView::Float(TEN),
                "Amount of energy produced in situ by seconds."@,
                "Energy production rate"@,
            ),
        )
}

/// The register a transfer station starts with.
pub fn station_register() -> (r: ObjectRegister)
    ensures
        r.wf(),
        r@ == station_entries(),
{
    let mut reg = ObjectRegister::new();
    reg.add_property("level", ObjectPropertyValue::Integer(1), "Current level.");
    reg.add_property("minerals", ObjectPropertyValue::Float(0), "Current amount of minerals in stock.");
    reg.add_property(
        "minerals_max",
        ObjectPropertyValue::Float(ONE_THOUSAND),
        "Maximum amount of minerals that can be stored.",
    );
    reg.add_property("energy", ObjectPropertyValue::Float(0), "Current amount of energy in stock.");
    reg.add_property(
        "energy_max",
        ObjectPropertyValue::Float(ONE_THOUSAND),
        "Maximum amount of energy that can be stored.",
    );
    reg.add_property(
        "energy_rate",
        ObjectPropertyValue::Float(TEN),
        "Amount of energy produced in situ by seconds.",
    );

    reg.set_display_name("minerals", "Minerals");
    reg.set_display_name("minerals_max", "Minerals maximum stock");
    reg.set_display_name("energy", "Energy");
    reg.set_display_name("energy_max", "Energy maximum stock");
    reg.set_display_name("energy_rate", "Energy production rate");
    proof {
        reveal_strlit("level");
        reveal_strlit("minerals");
        reveal_strlit("minerals_max");
        reveal_strlit("energy");
        reveal_strlit("energy_max");
        reveal_strlit("energy_rate");
    }
    assert(reg@ =~= station_entries());
    reg
}

} // verus!
