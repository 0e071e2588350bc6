use vstd::prelude::*;

use crate::F64Bits;

verus! {

/// Description given to an entry that a mutable getter creates on demand.
pub const AUTO_DESCRIPTION: &'static str = "auto-generated on demand by ObjectRegister's mutable getter";

/// The different types of values that can be stored inside an `ObjectProperty`.
#[derive(Clone, Debug, PartialEq)]
pub enum ObjectPropertyValue {
    Integer(u16),
    Float(F64Bits),
    Text(String),
}

/// What an `ObjectPropertyValue` holds, with its text as a sequence of characters.
pub enum ValueView {
    Integer(u16),
    Float(F64Bits),
    Text(Seq<char>),
}

impl View for ObjectPropertyValue {
    type V = ValueView;

    open spec fn view(&self) -> ValueView {
        match self {
            ObjectPropertyValue::Integer(v) => ValueView::Integer(*v),
            ObjectPropertyValue::Float(v) => ValueView::Float(*v),
            ObjectPropertyValue::Text(s) => ValueView::Text(s@),
        }
    }
}

impl ObjectPropertyValue {
    pub fn text(text: &str) -> (r: ObjectPropertyValue)
        ensures
            r@ == ValueView::Text(text@),
    {
        ObjectPropertyValue::Text(String::from_str(text))
    }
}

/// A `GameObject` property.
#[derive(Clone, Debug, PartialEq)]
pub struct ObjectProperty {
    value: ObjectPropertyValue,
    description: String,
    mutable: bool,
    /// An optional display name that if specified will be used in-game instead
    /// of the register's associated key.
    display_name: Option<String>,
}

/// What an `ObjectProperty` holds.
pub struct PropertyView {
    pub value: ValueView,
    pub description: Seq<char>,
    pub mutable: bool,
    pub display_name: Option<Seq<char>>,
}

impl View for ObjectProperty {
    type V = PropertyView;

    closed spec fn view(&self) -> PropertyView {
        PropertyView {
            value: self.value@,
            description: self.description@,
            mutable: self.mutable,
            display_name: match self.display_name {
                Some(n) => Some(n@),
                None => None,
            },
        }
    }
}

/// The entry that `add_property` (`mutable`) or `add_constant` (not `mutable`) stores.
pub open spec fn fresh_property(value: ValueView, description: Seq<char>, mutable: bool) -> PropertyView {
    PropertyView { value, description, mutable, display_name: None }
}

/// The entry that a mutable getter creates for a missing key.
pub open spec fn auto_property(value: ValueView) -> PropertyView {
    fresh_property(value, AUTO_DESCRIPTION@, true)
}

/// The registry as a mutable getter sees it: a missing key gets `auto_property(default)`.
pub open spec fn vivify(
    m: Map<Seq<char>, PropertyView>,
    key: Seq<char>,
    default: ValueView,
) -> Map<Seq<char>, PropertyView> {
    if m.contains_key(key) {
        m
    } else {
        m.insert(key, auto_property(default))
    }
}

/// The integer stored at `key`, if there is one.
pub open spec fn int_at(m: Map<Seq<char>, PropertyView>, key: Seq<char>) -> Option<u16> {
    if m.contains_key(key) {
        match m[key].value {
            ValueView::Integer(v) => Some(v),
            _ => None,
        }
    } else {
        None
    }
}

/// The float stored at `key`, if there is one.
pub open spec fn float_at(m: Map<Seq<char>, PropertyView>, key: Seq<char>) -> Option<F64Bits> {
    if m.contains_key(key) {
        match m[key].value {
            ValueView::Float(v) => Some(v),
            _ => None,
        }
    } else {
        None
    }
}

/// The text stored at `key`, if there is one.
pub open spec fn text_at(m: Map<Seq<char>, PropertyView>, key: Seq<char>) -> Option<Seq<char>> {
    if m.contains_key(key) {
        match m[key].value {
            ValueView::Text(v) => Some(v),
            _ => None,
        }
    } else {
        None
    }
}

/// Whether a mutable getter may hand out the entry at `key`: it exists and is mutable.
pub open spec fn writable(m: Map<Seq<char>, PropertyView>, key: Seq<char>) -> bool {
    m.contains_key(key) && m[key].mutable
}

/// The value that a shared reference points to, if any.
pub open spec fn deref_opt<T>(r: Option<&T>) -> Option<T> {
    match r {
        Some(v) => Some(*v),
        None => None,
    }
}

/// Each `GameObject` owns such a register for easier storage and access of
/// multiple `ObjectProperty` properties.
#[derive(Clone, Debug)]
pub struct ObjectRegister {
    keys: Vec<String>,
    properties: Vec<ObjectProperty>,
}

impl ObjectRegister {
    /// One entry per key: the two vectors match and no key occurs twice.
    pub closed spec fn wf(&self) -> bool {
        &&& self.keys.len() == self.properties.len()
        &&& forall|i: int, j: int|
            0 <= i < j < self.keys.len() ==> #[trigger] self.keys@[i]@ != #[trigger] self.keys@[j]@
    }

    closed spec fn has_key(&self, key: Seq<char>) -> bool {
        exists|i: int| 0 <= i < self.keys.len() && #[trigger] self.keys@[i]@ == key
    }

    closed spec fn index_of(&self, key: Seq<char>) -> int {
        choose|i: int| 0 <= i < self.keys.len() && #[trigger] self.keys@[i]@ == key
    }
}

impl View for ObjectRegister {
    type V = Map<Seq<char>, PropertyView>;

    closed spec fn view(&self) -> Map<Seq<char>, PropertyView> {
        Map::new(|k: Seq<char>| self.has_key(k), |k: Seq<char>| self.properties@[self.index_of(k)]@)
    }
}

impl ObjectRegister {
    proof fn lemma_entry(&self, i: int)
        requires
            self.wf(),
            0 <= i < self.keys.len(),
        ensures
            self@.contains_key(self.keys@[i]@),
            self@[self.keys@[i]@] == self.properties@[i]@,
    {
        let k = self.keys@[i]@;
        assert(self.has_key(k));
        let j = self.index_of(k);
        assert(self.keys@[j]@ == k);
        if j < i {
            assert(self.keys@[j]@ != self.keys@[i]@);
        } else if i < j {
            assert(self.keys@[i]@ != self.keys@[j]@);
        }
    }

    /// An empty register.
    pub fn new() -> (r: ObjectRegister)
        ensures
            r.wf(),
            r@ == Map::<Seq<char>, PropertyView>::empty(),
    {
        let r = ObjectRegister { keys: Vec::new(), properties: Vec::new() };
        assert(r@ =~= Map::<Seq<char>, PropertyView>::empty());
        r
    }

    /// The position of `key` among the keys, if it is there.
    fn find(&self, key: &str) -> (r: Option<usize>)
        requires
            self.wf(),
        ensures
            match r {
                Some(i) => i < self.keys.len() && self.keys@[i as int]@ == key@,
                None => !self@.contains_key(key@),
            },
    {
        let k = String::from_str(key);
        let mut i: usize = 0;
        while i < self.keys.len()
            invariant
                i <= self.keys.len(),
                k@ == key@,
                forall|j: int| 0 <= j < i ==> #[trigger] self.keys@[j]@ != key@,
            decreases self.keys.len() - i,
        {
            if self.keys[i] == k {
                return Some(i);
            }
            i = i + 1;
        }
        None
    }

    /// Store `value` under `key`, replacing any entry that was there.
    fn insert(&mut self, key: &str, value: ObjectPropertyValue, description: &str, mutable: bool)
        requires
            old(self).wf(),
        ensures
            final(self).wf(),
            final(self)@ == old(self)@.insert(key@, fresh_property(value@, description@, mutable)),
    {
        let property = ObjectProperty {
            value,
            description: String::from_str(description),
            mutable,
            display_name: None,
        };
        let ghost p = property@;
        match self.find(key) {
            Some(i) => {
                self.properties.set(i, property);
                proof {
                    self.lemma_entry(i as int);
                    assert forall|k: Seq<char>| #[trigger] self@.contains_key(k) implies k == key@
                        || self@[k] == old(self)@[k] by {
                        let j = self.index_of(k);
                        self.lemma_entry(j);
                        old(self).lemma_entry(j);
                    }
                    assert forall|k: Seq<char>| #[trigger] old(self)@.contains_key(k) implies self@.contains_key(k) by {
                        let j = old(self).index_of(k);
                        assert(self.keys@[j]@ == k);
                    }
                }
                assert(self@ =~= old(self)@.insert(key@, p));
            },
            None => {
                let ghost n = self.keys.len() as int;
                self.keys.push(String::from_str(key));
                self.properties.push(property);
                proof {
                    self.lemma_entry(n);
                    assert forall|k: Seq<char>| #[trigger] self@.contains_key(k) && k != key@
                        implies old(self)@.contains_key(k) && self@[k] == old(self)@[k] by {
                        let j = self.index_of(k);
                        assert(j < n);
                        assert(old(self).keys@[j]@ == k);
                        self.lemma_entry(j);
                        old(self).lemma_entry(j);
                    }
                    assert forall|k: Seq<char>| #[trigger] old(self)@.contains_key(k) implies self@.contains_key(k) by {
                        let j = old(self).index_of(k);
                        assert(self.keys@[j]@ == k);
                    }
                }
                assert(self@ =~= old(self)@.insert(key@, p));
            },
        }
    }

    /// Store a constant under `key`, replacing any entry that was there.
    pub fn add_constant(&mut self, key: &str, value: ObjectPropertyValue, desc: &str)
        requires
            old(self).wf(),
        ensures
            final(self).wf(),
            final(self)@ == old(self)@.insert(key@, fresh_property(value@, desc@, false)),
    {
        self.insert(key, value, desc, false);
    }

    /// Store a mutable property under `key`, replacing any entry that was there.
    pub fn add_property(&mut self, key: &str, value: ObjectPropertyValue, desc: &str)
        requires
            old(self).wf(),
        ensures
            final(self).wf(),
            final(self)@ == old(self)@.insert(key@, fresh_property(value@, desc@, true)),
    {
        self.insert(key, value, desc, true);
    }

    /// The integer stored under `key`; `None` if the key is absent or holds another type.
    pub fn get_int(&self, key: &str) -> (r: Option<&u16>)
        requires
            self.wf(),
        ensures
            deref_opt(r) == int_at(self@, key@),
    {
        match self.find(key) {
            Some(i) => {
                proof { self.lemma_entry(i as int); }
                match &self.properties[i].value {
                    ObjectPropertyValue::Integer(v) => Some(v),
                    _ => None,
                }
            },
            None => None,
        }
    }

    /// The position of `key`, after creating it as `auto_property(default)` if it was absent.
    fn vivify_index(&mut self, key: &str, default: ObjectPropertyValue) -> (r: usize)
        requires
            old(self).wf(),
        ensures
            final(self).wf(),
            final(self)@ == vivify(old(self)@, key@, default@),
            r < final(self).keys.len(),
            final(self).keys@[r as int]@ == key@,
    {
        match self.find(key) {
            Some(i) => i,
            None => {
                self.insert(key, default, AUTO_DESCRIPTION, true);
                match self.find(key) {
                    Some(i) => i,
                    None => {
                        proof { assert(self@.contains_key(key@)); }
                        0
                    },
                }
            },
        }
    }

    /// A mutable handle on the integer stored under `key`. A missing key is first
    /// created as a mutable `Integer(0)`. `None` if the entry is a constant or holds
    /// another type.
    pub fn get_int_mut(&mut self, key: &str) -> (r: Option<&mut u16>)
        requires
            old(self).wf(),
        ensures
            final(self).wf(),
            ({
                let m = vivify(old(self)@, key@, ValueView::Integer(0));
                match r {
                    Some(v) => {
                        &&& writable(m, key@)
                        &&& int_at(m, key@) == Some(*v)
                        &&& final(self)@ == m.insert(
                            key@,
                            PropertyView { value: ValueView::Integer(*final(v)), ..m[key@] },
                        )
                    },
                    None => {
                        &&& !(writable(m, key@) && int_at(m, key@) is Some)
                        &&& final(self)@ == m
                    },
                }
            }),
    {
        let i = self.vivify_index(key, ObjectPropertyValue::Integer(0));
        proof { self.lemma_entry(i as int); }
        let property = &mut self.properties[i];
        if !property.mutable {
            return None;
        }
        match &mut property.value {
            ObjectPropertyValue::Integer(v) => {
                Some(v)
            },
            _ => None,
        }
    }

    /// The float stored under `key`; `None` if the key is absent or holds another type.
    pub fn get_float(&self, key: &str) -> (r: Option<&F64Bits>)
        requires
            self.wf(),
        ensures
            deref_opt(r) == float_at(self@, key@),
    {
        match self.find(key) {
            Some(i) => {
                proof { self.lemma_entry(i as int); }
                match &self.properties[i].value {
                    ObjectPropertyValue::Float(v) => Some(v),
                    _ => None,
                }
            },
            None => None,
        }
    }

    /// The text stored under `key`; `None` if the key is absent or holds another type.
    pub fn get_text(&self, key: &str) -> (r: Option<&String>)
        requires
            self.wf(),
        ensures
            match r {
                Some(t) => text_at(self@, key@) == Some(t@),
                None => text_at(self@, key@) is None,
            },
    {
        match self.find(key) {
            Some(i) => {
                proof { self.lemma_entry(i as int); }
                match &self.properties[i].value {
                    ObjectPropertyValue::Text(v) => Some(v),
                    _ => None,
                }
            },
            None => None,
        }
    }

    /// A mutable handle on the float stored under `key`. A missing key is first
    /// created as a mutable `Float` holding the type's default. `None` if the entry
    /// is a constant or holds another type.
    pub fn get_float_mut(&mut self, key: &str) -> (r: Option<&mut F64Bits>)
        requires
            old(self).wf(),
        ensures
            final(self).wf(),
            ({
                let m = vivify(old(self)@, key@, ValueView::Float(0));
                match r {
                    Some(v) => {
                        &&& writable(m, key@)
                        &&& float_at(m, key@) == Some(*v)
                        &&& final(self)@ == m.insert(
                            key@,
                            PropertyView { value: ValueView::Float(*final(v)), ..m[key@] },
                        )
                    },
                    None => {
                        &&& !(writable(m, key@) && float_at(m, key@) is Some)
                        &&& final(self)@ == m
                    },
                }
            }),
    {
        let i = self.vivify_index(key, ObjectPropertyValue::Float(0));
        proof { self.lemma_entry(i as int); }
        let property = &mut self.properties[i];
        if !property.mutable {
            return None;
        }
        match &mut property.value {
            ObjectPropertyValue::Float(v) => Some(v),
            _ => None,
        }
    }

    /// A mutable handle on the text stored under `key`. A missing key is first
    /// created as a mutable `Text` holding the type's default. `None` if the entry
    /// is a constant or holds another type.
    pub fn get_text_mut(&mut self, key: &str) -> (r: Option<&mut String>)
        requires
            old(self).wf(),
        ensures
            final(self).wf(),
            ({
                let m = vivify(old(self)@, key@, ValueView::Text(Seq::empty()));
                match r {
                    Some(v) => {
                        &&& writable(m, key@)
                        &&& text_at(m, key@) == Some(v@)
                        &&& final(self)@ == m.insert(
                            key@,
                            PropertyView { value: ValueView::Text(final(v)@), ..m[key@] },
                        )
                    },
                    None => {
                        &&& !(writable(m, key@) && text_at(m, key@) is Some)
                        &&& final(self)@ == m
                    },
                }
            }),
    {
        let i = self.vivify_index(key, ObjectPropertyValue::Text(String::new()));
        proof { self.lemma_entry(i as int); }
        let property = &mut self.properties[i];
        if !property.mutable {
            return None;
        }
        match &mut property.value {
            ObjectPropertyValue::Text(v) => Some(v),
            _ => None,
        }
    }

    /// The description of the entry under `key`, if there is one.
    pub fn get_description(&self, key: &str) -> (r: Option<&String>)
        requires
            self.wf(),
        ensures
            match r {
                Some(d) => self@.contains_key(key@) && self@[key@].description == d@,
                None => !self@.contains_key(key@),
            },
    {
        match self.find(key) {
            Some(i) => {
                proof { self.lemma_entry(i as int); }
                Some(&self.properties[i].description)
            },
            None => None,
        }
    }

    /// Replace the description of the entry under `key`; nothing happens if there is none.
    pub fn set_description(&mut self, key: &str, desc: &str)
        requires
            old(self).wf(),
        ensures
            final(self).wf(),
            final(self)@ == if old(self)@.contains_key(key@) {
                old(self)@.insert(key@, PropertyView { description: desc@, ..old(self)@[key@] })
            } else {
                old(self)@
            },
    {
        match self.find(key) {
            Some(i) => {
                proof { self.lemma_entry(i as int); }
                let property = &mut self.properties[i];
                property.description = String::from_str(desc);
            },
            None => {},
        }
    }

    /// The display name of the entry under `key`; `None` if there is no such entry or
    /// it has no display name.
    pub fn get_display_name(&self, key: &str) -> (r: Option<&String>)
        requires
            self.wf(),
        ensures
            match r {
                Some(n) => self@.contains_key(key@) && self@[key@].display_name == Some(n@),
                None => !self@.contains_key(key@) || self@[key@].display_name is None,
            },
    {
        match self.find(key) {
            Some(i) => {
                proof { self.lemma_entry(i as int); }
                match &self.properties[i].display_name {
                    Some(name) => Some(name),
                    None => None,
                }
            },
            None => None,
        }
    }

    /// Give the entry under `key` a display name; nothing happens if there is no entry.
    pub fn set_display_name(&mut self, key: &str, name: &str)
        requires
            old(self).wf(),
        ensures
            final(self).wf(),
            final(self)@ == if old(self)@.contains_key(key@) {
                old(self)@.insert(key@, PropertyView { display_name: Some(name@), ..old(self)@[key@] })
            } else {
                old(self)@
            },
    {
        match self.find(key) {
            Some(i) => {
                proof { self.lemma_entry(i as int); }
                let property = &mut self.properties[i];
                property.display_name = Some(String::from_str(name));
            },
            None => {},
        }
    }
}

impl ObjectRegister {
    /// The keys, each once.
    pub fn keys(&self) -> (r: &Vec<String>)
        requires
            self.wf(),
        ensures
            forall|k: Seq<char>|
                self@.contains_key(k) <==> exists|i: int| 0 <= i < r@.len() && #[trigger] r@[i]@ == k,
            forall|i: int, j: int| 0 <= i < j < r@.len() ==> #[trigger] r@[i]@ != #[trigger] r@[j]@,
    {
        &self.keys
    }

    /// The entry under `key`, if there is one.
    pub fn get(&self, key: &str) -> (r: Option<&ObjectProperty>)
        requires
            self.wf(),
        ensures
            match r {
                Some(p) => self@.contains_key(key@) && p@ == self@[key@],
                None => !self@.contains_key(key@),
            },
    {
        match self.find(key) {
            Some(i) => {
                proof { self.lemma_entry(i as int); }
                Some(&self.properties[i])
            },
            None => None,
        }
    }
}

impl ObjectProperty {
    pub fn value(&self) -> (r: &ObjectPropertyValue)
        ensures
            r@ == self@.value,
    {
        &self.value
    }

    pub fn description(&self) -> (r: &String)
        ensures
            r@ == self@.description,
    {
        &self.description
    }

    pub fn is_mutable(&self) -> (r: bool)
        ensures
            r == self@.mutable,
    {
        self.mutable
    }

    pub fn display_name(&self) -> (r: Option<&String>)
        ensures
            match r {
                Some(n) => self@.display_name == Some(n@),
                None => self@.display_name is None,
            },
    {
        match &self.display_name {
            Some(n) => Some(n),
            None => None,
        }
    }
}

impl Default for ObjectRegister {
    fn default() -> (r: ObjectRegister)
        ensures
            r.wf(),
            r@ == Map::<Seq<char>, PropertyView>::empty(),
    {
        ObjectRegister::new()
    }
}

/// A float stored with `add_property` is what `get_float` then returns.
pub proof fn law_float_round_trip(
    m: Map<Seq<char>, PropertyView>,
    key: Seq<char>,
    value: F64Bits,
    desc: Seq<char>,
)
    ensures
        float_at(m.insert(key, fresh_property(ValueView::Float(value), desc, true)), key)
            == Some(value),
{
}

/// An integer entry is never read as a float.
pub proof fn law_type_safety(
    m: Map<Seq<char>, PropertyView>,
    key: Seq<char>,
    value: u16,
    desc: Seq<char>,
)
    ensures
        float_at(m.insert(key, fresh_property(ValueView::Integer(value), desc, true)), key) is None,
{
}

/// A constant gets no mutable handle: the mutable getter leaves the register as it
/// was, and the constant's value can still be read.
pub proof fn law_constant_stays(
    m: Map<Seq<char>, PropertyView>,
    key: Seq<char>,
    value: u16,
    desc: Seq<char>,
)
    ensures
        ({
            let c = m.insert(key, fresh_property(ValueView::Integer(value), desc, false));
            &&& !writable(vivify(c, key, ValueView::Integer(0)), key)
            &&& vivify(c, key, ValueView::Integer(0)) == c
            &&& int_at(c, key) == Some(value)
        }),
{
}

/// A mutable float getter on a missing key creates it with the value 0.0 (bit
/// pattern 0) and hands it out; left as it is, `get_float` then reads 0.0.
pub proof fn law_auto_vivification(m: Map<Seq<char>, PropertyView>, key: Seq<char>)
    requires
        !m.contains_key(key),
    ensures
        ({
            let v = vivify(m, key, ValueView::Float(0));
            &&& writable(v, key)
            &&& float_at(v, key) == Some(0u64)
            &&& float_at(v.insert(key, PropertyView { value: ValueView::Float(0), ..v[key] }), key)
                == Some(0u64)
            &&& v[key].description == AUTO_DESCRIPTION@
        }),
{
}

} // verus!
