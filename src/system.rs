use vstd::prelude::*;

use crate::ids::{numbered_id, numbered_id_string};
use crate::object::DefaultObject;
use crate::orbit::{Kinematics, Orbit, Point};
use crate::properties::{fresh_property, ObjectPropertyValue, ObjectRegister, PropertyView, ValueView};
use crate::F64Bits;

verus! {

/// First part of the error of a batch whose id is already taken.
pub const TAKEN_PREFIX: &'static str = "System::generate_objects : id \"";

/// Last part of the error of a batch whose id is already taken.
pub const TAKEN_SUFFIX: &'static str = "\" already taken";

/// The error reported when `id` is already taken.
pub open spec fn taken_message(id: Seq<char>) -> Seq<char> {
    TAKEN_PREFIX@ + id + TAKEN_SUFFIX@
}

pub const SYSTEM_NAME_DESCRIPTION: &'static str = "The name of the current solar system.";

pub const DATA_VERSION_DESCRIPTION: &'static str =
    "For evolution purposes, the version ID for the data of all the objects' registers in the system (0 = alpha-dev).";

/// The register of a new system named `name`: its name under `"system_name"` and
/// the data version 0 under `"data_version"`, both constant.
pub open spec fn system_register(name: Seq<char>) -> Map<Seq<char>, PropertyView> {
    Map::<Seq<char>, PropertyView>::empty().insert(
        "system_name"@,
        fresh_property(ValueView::Text(name), SYSTEM_NAME_DESCRIPTION@, false),
    ).insert("data_version"@, fresh_property(ValueView::Integer(0), DATA_VERSION_DESCRIPTION@, false))
}

/// The orbit of the object at index `i` reads only objects placed before it.
pub open spec fn origin_before(orbit: Orbit, i: int) -> bool {
    match orbit.origin_of() {
        Some(o) => o < i,
        None => true,
    }
}

/// What a `System` holds: its name, and its objects in the order they were added,
/// each with its id.
pub struct SystemView {
    pub name: Seq<char>,
    /// General-purpose register for values that concern no object in particular.
    pub register: ObjectRegister,
    pub ids: Seq<Seq<char>>,
    pub objects: Seq<DefaultObject>,
}

impl SystemView {
    /// Ids are unique, each register is well formed, and every orbit reads an
    /// object added before its own; so the order of the objects is a
    /// root-to-leaf order.
    pub open spec fn wf(self) -> bool {
        &&& self.register.wf()
        &&& self.ids.len() == self.objects.len()
        &&& forall|i: int, j: int|
            0 <= i < j < self.ids.len() ==> #[trigger] self.ids[i] != #[trigger] self.ids[j]
        &&& forall|i: int| 0 <= i < self.objects.len() ==> (#[trigger] self.objects[i]).wf()
        &&& forall|i: int|
            0 <= i < self.objects.len() ==> origin_before((#[trigger] self.objects[i]).orbit, i)
    }
}

/// Where the origin object of `orbit` stands among `objects`; `(0, 0)` for an
/// orbit without one.
pub open spec fn origin_position(objects: Seq<DefaultObject>, orbit: Orbit) -> Point {
    match orbit.origin_of() {
        Some(o) => objects[o as int].position,
        None => Point { x: 0, y: 0 },
    }
}

/// The first `n` ids of a batch named `base`: `"{base}-1"` to `"{base}-{n}"`.
pub open spec fn generated_ids(base: Seq<char>, n: nat) -> Seq<Seq<char>> {
    Seq::new(n, |j: int| numbered_id(base, (j + 1) as nat))
}

/// Whether the `j+1`-th id of a batch is taken, once the ids before it are in.
pub open spec fn collides(ids: Seq<Seq<char>>, base: Seq<char>, j: nat) -> bool {
    (ids + generated_ids(base, j)).contains(numbered_id(base, (j + 1) as nat))
}

/// How many objects of a batch of `n` go in before the first id that is taken.
pub open spec fn added_count(ids: Seq<Seq<char>>, base: Seq<char>, n: nat) -> nat
    decreases n,
{
    if n == 0 {
        0
    } else {
        let c = added_count(ids, base, (n - 1) as nat);
        if c < n - 1 || collides(ids, base, (n - 1) as nat) {
            c
        } else {
            n
        }
    }
}

proof fn lemma_added_count_stops(ids: Seq<Seq<char>>, base: Seq<char>, c: nat, n: nat)
    requires
        added_count(ids, base, c) == c,
        collides(ids, base, c),
        c < n,
    ensures
        added_count(ids, base, n) == c,
    decreases n,
{
    if n > c + 1 {
        lemma_added_count_stops(ids, base, c, (n - 1) as nat);
    }
}

/// A batch added to ids none of which it generates goes in whole: the ids
/// `"{base}-1"` to `"{base}-{n}"`, one for each object.
pub proof fn law_batch_ids(ids: Seq<Seq<char>>, base: Seq<char>, n: nat)
    requires
        forall|j: nat| 1 <= j <= n ==> !ids.contains(#[trigger] numbered_id(base, j)),
    ensures
        added_count(ids, base, n) == n,
        generated_ids(base, n).len() == n,
        forall|j: int| 0 <= j < n ==> #[trigger] generated_ids(base, n)[j] == numbered_id(base, (j + 1) as nat),
    decreases n,
{
    if n > 0 {
        let m = (n - 1) as nat;
        law_batch_ids(ids, base, m);
        let id = numbered_id(base, n);
        if (ids + generated_ids(base, m)).contains(id) {
            let k = choose|k: int| 0 <= k < ids.len() + m && (ids + generated_ids(base, m))[k] == id;
            if k < ids.len() {
                assert(ids[k] == id);
            } else {
                assert(generated_ids(base, m)[k - ids.len()] == numbered_id(base, (k - ids.len() + 1) as nat));
                crate::ids::lemma_numbered_id_injective(base, (k - ids.len() + 1) as nat, n);
            }
        }
    }
}

/// A gravitationally bound solar system, owning the objects composing it.
pub struct System {
    name: String,
    register: ObjectRegister,
    ids: Vec<String>,
    objects: Vec<DefaultObject>,
}

impl View for System {
    type V = SystemView;

    closed spec fn view(&self) -> SystemView {
        SystemView {
            name: self.name@,
            register: self.register,
            ids: self.ids@.map_values(|s: String| s@),
            objects: self.objects@,
        }
    }
}

impl System {
    pub open spec fn wf(&self) -> bool {
        self@.wf()
    }

    /// A system without objects, whose register holds its name and the data
    /// version 0 as constants.
    pub fn new(name: &str) -> (r: System)
        ensures
            r.wf(),
            r@.name == name@,
            r@.register@ == system_register(name@),
            r@.ids == Seq::<Seq<char>>::empty(),
            r@.objects == Seq::<DefaultObject>::empty(),
    {
        let mut register = ObjectRegister::new();
        register.add_constant("system_name", ObjectPropertyValue::text(name), SYSTEM_NAME_DESCRIPTION);
        register.add_constant("data_version", ObjectPropertyValue::Integer(0), DATA_VERSION_DESCRIPTION);
        let r = System { name: String::from_str(name), register, ids: Vec::new(), objects: Vec::new() };
        assert(r@.ids =~= Seq::<Seq<char>>::empty());
        r
    }

    /// The system's own register.
    pub fn register(&self) -> (r: &ObjectRegister)
        ensures
            *r == self@.register,
    {
        &self.register
    }

    pub fn name(&self) -> (r: &String)
        ensures
            r@ == self@.name,
    {
        &self.name
    }

    /// The number of objects.
    pub fn len(&self) -> (r: usize)
        requires
            self.wf(),
        ensures
            r == self@.objects.len(),
    {
        self.objects.len()
    }

    /// The id of the object at handle `i`.
    pub fn id(&self, i: usize) -> (r: &String)
        requires
            self.wf(),
            i < self@.objects.len(),
        ensures
            r@ == self@.ids[i as int],
    {
        &self.ids[i]
    }

    /// The objects, in the order they were added; `objects()[i]` has the id `ids()[i]`.
    pub fn objects(&self) -> (r: &Vec<DefaultObject>)
        requires
            self.wf(),
        ensures
            r@ == self@.objects,
    {
        &self.objects
    }

    /// The ids, in the order their objects were added.
    pub fn ids(&self) -> (r: &Vec<String>)
        requires
            self.wf(),
        ensures
            r@.len() == self@.ids.len(),
            forall|i: int| 0 <= i < r@.len() ==> #[trigger] r@[i]@ == self@.ids[i],
    {
        &self.ids
    }

    /// The handle of the object with the given id, if there is one.
    pub fn handle(&self, id: &str) -> (r: Option<usize>)
        requires
            self.wf(),
        ensures
            match r {
                Some(i) => i < self@.ids.len() && self@.ids[i as int] == id@,
                None => !self@.ids.contains(id@),
            },
    {
        let k = String::from_str(id);
        let mut i: usize = 0;
        while i < self.ids.len()
            invariant
                self.wf(),
                i <= self.ids.len(),
                k@ == id@,
                forall|j: int| 0 <= j < i ==> self@.ids[j] != id@,
            decreases self.ids.len() - i,
        {
            if self.ids[i] == k {
                return Some(i);
            }
            i = i + 1;
        }
        proof {
            assert forall|j: int| 0 <= j < self@.ids.len() implies self@.ids[j] != id@ by {}
        }
        None
    }

    /// The object at handle `i`.
    pub fn object(&self, i: usize) -> (r: &DefaultObject)
        requires
            self.wf(),
            i < self@.objects.len(),
        ensures
            *r == self@.objects[i as int],
    {
        &self.objects[i]
    }

    /// The object with the given id, if there is one.
    pub fn get(&self, id: &str) -> (r: Option<&DefaultObject>)
        requires
            self.wf(),
        ensures
            match r {
                Some(o) => exists|i: int|
                    0 <= i < self@.ids.len() && self@.ids[i] == id@ && *o == self@.objects[i],
                None => !self@.ids.contains(id@),
            },
    {
        match self.handle(id) {
            Some(i) => Some(&self.objects[i]),
            None => None,
        }
    }

    /// The register of the object at handle `i`, to be changed in place.
    pub fn object_register_mut(&mut self, i: usize) -> (r: &mut ObjectRegister)
        requires
            old(self).wf(),
            i < old(self)@.objects.len(),
        ensures
            *r == old(self)@.objects[i as int].register,
            final(self)@ == (SystemView {
                objects: old(self)@.objects.update(
                    i as int,
                    DefaultObject { register: *final(r), ..old(self)@.objects[i as int] },
                ),
                ..old(self)@
            }),
            final(r).wf() ==> final(self).wf(),
    {
        let object = &mut self.objects[i];
        &mut object.register
    }

    /// Add `object` under `id`. If the id is already taken, nothing changes and the
    /// result is false.
    pub fn add_object(&mut self, id: String, object: DefaultObject) -> (r: bool)
        requires
            old(self).wf(),
            object.wf(),
            origin_before(object.orbit, old(self)@.objects.len() as int),
        ensures
            final(self).wf(),
            r == !old(self)@.ids.contains(id@),
            r ==> final(self)@ == (SystemView {
                ids: old(self)@.ids.push(id@),
                objects: old(self)@.objects.push(object),
                ..old(self)@
            }),
            !r ==> final(self)@ == old(self)@,
    {
        match self.handle(id.as_str()) {
            Some(_) => false,
            None => {
                let ghost id_view = id@;
                self.ids.push(id);
                self.objects.push(object);
                assert(self@.ids =~= old(self)@.ids.push(id_view));
                true
            },
        }
    }

    /// Place every fixed object at its coordinate.
    pub fn init(&mut self)
        requires
            old(self).wf(),
        ensures
            final(self).wf(),
            final(self)@.name == old(self)@.name,
            final(self)@.register == old(self)@.register,
            final(self)@.ids == old(self)@.ids,
            final(self)@.objects.len() == old(self)@.objects.len(),
            forall|i: int|
                0 <= i < final(self)@.objects.len() ==> {
                    let before = #[trigger] old(self)@.objects[i];
                    let after = final(self)@.objects[i];
                    &&& after == (DefaultObject { position: after.position, ..before })
                    &&& after.position == match before.orbit {
                        Orbit::Fixed(p) => p,
                        _ => before.position,
                    }
                },
    {
        let mut i: usize = 0;
        while i < self.objects.len()
            invariant
                i <= self.objects.len(),
                self@.name == old(self)@.name,
                self@.register == old(self)@.register,
                self@.ids == old(self)@.ids,
                self@.objects.len() == old(self)@.objects.len(),
                forall|j: int|
                    i <= j < self@.objects.len() ==> self@.objects[j] == old(self)@.objects[j],
                forall|j: int|
                    0 <= j < i ==> {
                        let before = #[trigger] old(self)@.objects[j];
                        let after = self@.objects[j];
                        &&& after == (DefaultObject { position: after.position, ..before })
                        &&& after.position == match before.orbit {
                            Orbit::Fixed(p) => p,
                            _ => before.position,
                        }
                    },
            decreases self.objects.len() - i,
        {
            let object = &mut self.objects[i];
            object.init();
            i = i + 1;
        }
        proof {
            assert forall|j: int| 0 <= j < self@.objects.len() implies (#[trigger] self@.objects[j]).wf()
                && origin_before(self@.objects[j].orbit, j) by {
                assert(old(self)@.objects[j].wf());
                assert(origin_before(old(self)@.objects[j].orbit, j));
            }
        }
    }

    /// Advance every object by `dt` seconds. Objects are visited in the order they
    /// were added, so each orbit reads the position its origin object reached in
    /// this same tick.
    pub fn update<K: Kinematics>(&mut self, k: &K, dt: F64Bits)
        requires
            old(self).wf(),
            k.ready(),
        ensures
            final(self).wf(),
            final(self)@.name == old(self)@.name,
            final(self)@.register == old(self)@.register,
            final(self)@.ids == old(self)@.ids,
            final(self)@.objects.len() == old(self)@.objects.len(),
            forall|i: int|
                0 <= i < final(self)@.objects.len() ==> (#[trigger] old(self)@.objects[i]).advances_to(
                    k,
                    dt,
                    origin_position(final(self)@.objects, old(self)@.objects[i].orbit),
                    final(self)@.objects[i],
                ),
    {
        let mut i: usize = 0;
        while i < self.objects.len()
            invariant
                i <= self.objects.len(),
                old(self).wf(),
                k.ready(),
                self@.name == old(self)@.name,
                self@.register == old(self)@.register,
                self@.ids == old(self)@.ids,
                self@.objects.len() == old(self)@.objects.len(),
                forall|j: int|
                    i <= j < self@.objects.len() ==> self@.objects[j] == old(self)@.objects[j],
                forall|j: int|
                    0 <= j < i ==> (#[trigger] old(self)@.objects[j]).advances_to(
                        k,
                        dt,
                        origin_position(self@.objects, old(self)@.objects[j].orbit),
                        self@.objects[j],
                    ),
            decreases self.objects.len() - i,
        {
            proof {
                assert(origin_before(old(self)@.objects[i as int].orbit, i as int));
            }
            let origin_at = match self.objects[i].orbit.origin() {
                Some(o) => self.objects[o].position,
                None => Point::zero(),
            };
            let ghost before = self@.objects;
            let object = &mut self.objects[i];
            object.update(k, dt, origin_at);
            proof {
                assert forall|j: int| 0 <= j <= i implies (#[trigger] old(self)@.objects[j]).advances_to(
                    k,
                    dt,
                    origin_position(self@.objects, old(self)@.objects[j].orbit),
                    self@.objects[j],
                ) by {
                    assert(origin_before(old(self)@.objects[j].orbit, j));
                    if j < i {
                        assert(self@.objects[j] == before[j]);
                    }
                }
            }
            i = i + 1;
        }
        proof {
            assert forall|j: int| 0 <= j < self@.objects.len() implies (#[trigger] self@.objects[j]).wf()
                && origin_before(self@.objects[j].orbit, j) by {
                assert(old(self)@.objects[j].wf());
                assert(origin_before(old(self)@.objects[j].orbit, j));
            }
        }
    }

    /// Add the objects of `spawned` under the ids `"{base_id}-1"`, `"{base_id}-2"`, ...
    /// in order. At the first id already taken the batch stops with an error; the
    /// objects added before it stay.
    pub fn generate_objects(&mut self, base_id: &str, spawned: Vec<DefaultObject>) -> (r: Result<(), String>)
        requires
            old(self).wf(),
            forall|j: int|
                0 <= j < spawned@.len() ==> (#[trigger] spawned@[j]).wf() && origin_before(
                    spawned@[j].orbit,
                    old(self)@.objects.len() as int,
                ),
        ensures
            final(self).wf(),
            ({
                let c = added_count(old(self)@.ids, base_id@, spawned@.len());
                &&& final(self)@.name == old(self)@.name
                &&& final(self)@.register == old(self)@.register
                &&& final(self)@.ids == old(self)@.ids + generated_ids(base_id@, c)
                &&& final(self)@.objects == old(self)@.objects + spawned@.take(c as int)
                &&& match r {
                    Ok(()) => c == spawned@.len(),
                    Err(e) => c < spawned@.len() && e@ == taken_message(numbered_id(base_id@, c + 1)),
                }
            }),
    {
        let ghost ids0 = old(self)@.ids;
        let n = spawned.len();
        let mut rest = spawned;
        let mut j: usize = 0;
        while j < n
            invariant
                j <= n,
                n == spawned@.len(),
                ids0 == old(self)@.ids,
                rest@ == spawned@.skip(j as int),
                self.wf(),
                self@.name == old(self)@.name,
                self@.register == old(self)@.register,
                self@.ids == ids0 + generated_ids(base_id@, j as nat),
                self@.objects == old(self)@.objects + spawned@.take(j as int),
                added_count(ids0, base_id@, j as nat) == j,
                forall|k: int|
                    0 <= k < spawned@.len() ==> (#[trigger] spawned@[k]).wf() && origin_before(
                        spawned@[k].orbit,
                        old(self)@.objects.len() as int,
                    ),
            decreases n - j,
        {
            let id = numbered_id_string(base_id, j + 1);
            let id_copy = id.clone();
            let object = rest.remove(0);
            proof {
                assert(object == spawned@[j as int]);
            }
            if !self.add_object(id, object) {
                proof {
                    assert(collides(ids0, base_id@, j as nat));
                    lemma_added_count_stops(ids0, base_id@, j as nat, n as nat);
                }
                let mut message = String::from_str(TAKEN_PREFIX);
                message.append(id_copy.as_str());
                message.append(TAKEN_SUFFIX);
                return Err(message);
            }
            proof {
                assert(!collides(ids0, base_id@, j as nat));
                assert(ids0 + generated_ids(base_id@, (j + 1) as nat) =~= (ids0 + generated_ids(
                    base_id@,
                    j as nat,
                )).push(numbered_id(base_id@, (j + 1) as nat)));
                assert(spawned@.take(j + 1) =~= spawned@.take(j as int).push(spawned@[j as int]));
                assert(old(self)@.objects + spawned@.take(j + 1) =~= (old(self)@.objects
                    + spawned@.take(j as int)).push(spawned@[j as int]));
                assert(rest@ =~= spawned@.skip(j + 1));
            }
            j = j + 1;
        }
        Ok(())
    }
}

/// Ids stay unique: once an object is added under `id`, a second `add_object`
/// under `id` is refused, and `id` still names the first object.
pub proof fn law_unique_ids(v: SystemView, id: Seq<char>, first: DefaultObject)
    requires
        v.wf(),
        !v.ids.contains(id),
    ensures
        ({
            let after = SystemView { ids: v.ids.push(id), objects: v.objects.push(first), ..v };
            &&& after.ids.contains(id)
            &&& forall|i: int| 0 <= i < after.ids.len() && after.ids[i] == id ==> after.objects[i] == first
        }),
{
    let after = SystemView { ids: v.ids.push(id), objects: v.objects.push(first), ..v };
    assert(after.ids[v.ids.len() as int] == id);
    assert forall|i: int| 0 <= i < after.ids.len() && after.ids[i] == id implies after.objects[i] == first by {
        if i < v.ids.len() {
            assert(v.ids[i] == after.ids[i]);
        }
    }
}

} // verus!
