//! The object model: property slots, the insertion-ordered property table,
//! object records with a kind tag and a prototype link, and the arena
//! allocator whose handles stand for heap addresses.

use vstd::prelude::*;
use crate::value::{str_eq, Value, ValueV};

verus! {

/// A data property: a value and its attribute flags.
#[derive(Debug)]
pub struct DataProperty {
    pub val: Value,
    pub writable: bool,
    pub enumerable: bool,
    pub configurable: bool,
}

/// An accessor property: getter and setter references and attribute flags.
/// Accessor properties are never structurally compared and their getters are
/// never run during comparison.
#[derive(Debug)]
pub struct AccessorProperty {
    pub get: Value,
    pub set: Value,
    pub enumerable: bool,
    pub configurable: bool,
}

/// A property slot: either a data or an accessor property.
#[derive(Debug)]
pub enum Property {
    Data(DataProperty),
    Accessor(AccessorProperty),
}

#[verifier::ext_equal]
pub struct DataPropertyV {
    pub val: ValueV,
    pub writable: bool,
    pub enumerable: bool,
    pub configurable: bool,
}

#[verifier::ext_equal]
pub struct AccessorPropertyV {
    pub get: ValueV,
    pub set: ValueV,
    pub enumerable: bool,
    pub configurable: bool,
}

#[verifier::ext_equal]
pub enum PropertyV {
    Data(DataPropertyV),
    Accessor(AccessorPropertyV),
}

impl View for Property {
    type V = PropertyV;

    open spec fn view(&self) -> PropertyV {
        match self {
            Property::Data(d) => PropertyV::Data(
                DataPropertyV {
                    val: d.val@,
                    writable: d.writable,
                    enumerable: d.enumerable,
                    configurable: d.configurable,
                },
            ),
            Property::Accessor(a) => PropertyV::Accessor(
                AccessorPropertyV {
                    get: a.get@,
                    set: a.set@,
                    enumerable: a.enumerable,
                    configurable: a.configurable,
                },
            ),
        }
    }
}

impl Clone for Property {
    /// A clone is indistinguishable from the slot it copies.
    fn clone(&self) -> (r: Property)
        ensures
            r@ == self@,
    {
        match self {
            Property::Data(d) => Property::Data(
                DataProperty {
                    val: d.val.clone(),
                    writable: d.writable,
                    enumerable: d.enumerable,
                    configurable: d.configurable,
                },
            ),
            Property::Accessor(a) => Property::Accessor(
                AccessorProperty {
                    get: a.get.clone(),
                    set: a.set.clone(),
                    enumerable: a.enumerable,
                    configurable: a.configurable,
                },
            ),
        }
    }
}

impl Property {
    /// A plain data property with default attributes.
    pub fn plain_data(val: Value) -> (r: Property)
        ensures
            r@ == PropertyV::Data(
                DataPropertyV { val: val@, writable: true, enumerable: true, configurable: true },
            ),
    {
        Property::Data(DataProperty { val, writable: true, enumerable: true, configurable: true })
    }
}

/// The keys of a property table, in storage order.
pub open spec fn pm_keys(s: Seq<(Seq<char>, PropertyV)>) -> Seq<Seq<char>> {
    s.map_values(|e: (Seq<char>, PropertyV)| e.0)
}

/// The slot bound to `k`: the first entry with that key.
pub open spec fn pm_get(s: Seq<(Seq<char>, PropertyV)>, k: Seq<char>) -> Option<PropertyV>
    decreases s.len(),
{
    if s.len() == 0 {
        None
    } else if s[0].0 == k {
        Some(s[0].1)
    } else {
        pm_get(s.drop_first(), k)
    }
}

pub open spec fn pm_contains(s: Seq<(Seq<char>, PropertyV)>, k: Seq<char>) -> bool {
    pm_get(s, k) is Some
}

/// No key occurs twice.
pub open spec fn pm_unique(s: Seq<(Seq<char>, PropertyV)>) -> bool {
    forall|i: int, j: int| 0 <= i < j < s.len() ==> (#[trigger] s[i].0) != (#[trigger] s[j].0)
}

pub proof fn lemma_pm_get_index(s: Seq<(Seq<char>, PropertyV)>, i: int, k: Seq<char>)
    requires
        0 <= i < s.len(),
        s[i].0 == k,
        forall|j: int| 0 <= j < i ==> (#[trigger] s[j].0) != k,
    ensures
        pm_get(s, k) == Some(s[i].1),
    decreases i,
{
    if i > 0 {
        lemma_pm_get_index(s.drop_first(), i - 1, k);
    }
}

pub proof fn lemma_pm_get_none(s: Seq<(Seq<char>, PropertyV)>, k: Seq<char>)
    requires
        forall|j: int| 0 <= j < s.len() ==> (#[trigger] s[j].0) != k,
    ensures
        pm_get(s, k) is None,
    decreases s.len(),
{
    if s.len() > 0 {
        lemma_pm_get_none(s.drop_first(), k);
    }
}

pub proof fn lemma_pm_get_push(
    s: Seq<(Seq<char>, PropertyV)>,
    e: (Seq<char>, PropertyV),
    k: Seq<char>,
)
    ensures
        pm_get(s.push(e), k) == (if pm_get(s, k) is Some {
            pm_get(s, k)
        } else if k == e.0 {
            Some(e.1)
        } else {
            None
        }),
    decreases s.len(),
{
    if s.len() == 0 {
        assert(s.push(e)[0] == e);
        assert(s.push(e).drop_first() =~= Seq::<(Seq<char>, PropertyV)>::empty());
    } else {
        assert(s.push(e).drop_first() =~= s.drop_first().push(e));
        lemma_pm_get_push(s.drop_first(), e, k);
    }
}

pub proof fn lemma_pm_get_update(
    s: Seq<(Seq<char>, PropertyV)>,
    i: int,
    p: PropertyV,
    k: Seq<char>,
)
    requires
        0 <= i < s.len(),
        forall|j: int| 0 <= j < s.len() && j != i ==> (#[trigger] s[j].0) != s[i].0,
    ensures
        pm_get(s.update(i, (s[i].0, p)), k) == (if k == s[i].0 {
            Some(p)
        } else {
            pm_get(s, k)
        }),
    decreases i,
{
    let s2 = s.update(i, (s[i].0, p));
    if i == 0 {
        assert(s2[0] == (s[0].0, p));
        assert(s2.drop_first() =~= s.drop_first());
    } else {
        assert(s2[0] == s[0]);
        assert(s2.drop_first() =~= s.drop_first().update(i - 1, (s[i].0, p)));
        assert(s.drop_first()[i - 1] == s[i]);
        lemma_pm_get_update(s.drop_first(), i - 1, p, k);
    }
}

pub proof fn lemma_pm_contains_iff_index(s: Seq<(Seq<char>, PropertyV)>, k: Seq<char>)
    ensures
        pm_contains(s, k) <==> exists|i: int| 0 <= i < s.len() && (#[trigger] s[i].0) == k,
    decreases s.len(),
{
    if s.len() > 0 {
        lemma_pm_contains_iff_index(s.drop_first(), k);
        if s[0].0 == k {
        } else {
            if pm_contains(s, k) {
                let i = choose|i: int|
                    0 <= i < s.drop_first().len() && (#[trigger] s.drop_first()[i].0) == k;
                assert(s[i + 1].0 == k);
            }
            if exists|i: int| 0 <= i < s.len() && (#[trigger] s[i].0) == k {
                let i = choose|i: int| 0 <= i < s.len() && (#[trigger] s[i].0) == k;
                assert(s.drop_first()[i - 1].0 == k);
            }
        }
    }
}

/// In a table without duplicate keys, the entry at any index is what lookup
/// finds for its key.
pub proof fn lemma_pm_get_at_index(s: Seq<(Seq<char>, PropertyV)>, i: int)
    requires
        pm_unique(s),
        0 <= i < s.len(),
    ensures
        pm_get(s, s[i].0) == Some(s[i].1),
{
    lemma_pm_get_index(s, i, s[i].0);
}

/// The property table of one object: an insertion-ordered mapping from
/// string keys to property slots. The first insertion of a key fixes its
/// position; later updates replace the slot in place, so enumeration order
/// is exactly insertion order.
#[derive(Debug)]
pub struct PropMap {
    entries: Vec<(String, Property)>,
}

impl View for PropMap {
    type V = Seq<(Seq<char>, PropertyV)>;

    closed spec fn view(&self) -> Seq<(Seq<char>, PropertyV)> {
        Seq::new(self.entries@.len(), |i: int| (self.entries@[i].0@, self.entries@[i].1@))
    }
}

impl PropMap {
    /// The table's own invariant: no key occurs twice.
    #[verifier::type_invariant]
    pub open spec fn inv(self) -> bool {
        pm_unique(self@)
    }

    pub fn new() -> (r: PropMap)
        ensures
            r@ == Seq::<(Seq<char>, PropertyV)>::empty(),
    {
        let r = PropMap { entries: Vec::new() };
        proof {
            assert(r@ =~= Seq::<(Seq<char>, PropertyV)>::empty());
        }
        r
    }

    pub fn len(&self) -> (r: usize)
        ensures
            r == self@.len(),
    {
        self.entries.len()
    }

    /// The entry at one position of the enumeration order.
    pub fn entry_at(&self, i: usize) -> (e: &(String, Property))
        requires
            i < self@.len(),
        ensures
            (e.0@, e.1@) == self@[i as int],
    {
        &self.entries[i]
    }

    fn find(&self, key: &str) -> (r: Option<usize>)
        ensures
            match r {
                Some(i) => i < self@.len() && self@[i as int].0 == key@ && (forall|j: int|
                    0 <= j < i ==> (#[trigger] self@[j].0) != key@),
                None => forall|j: int| 0 <= j < self@.len() ==> (#[trigger] self@[j].0) != key@,
            },
    {
        let n = self.entries.len();
        let mut i: usize = 0;
        while i < n
            invariant
                i <= n,
                n == self@.len(),
                n == self.entries@.len(),
                forall|j: int| 0 <= j < i ==> (#[trigger] self@[j].0) != key@,
            decreases n - i,
        {
            if str_eq(self.entries[i].0.as_str(), key) {
                assert(self@[i as int].0 == key@);
                return Some(i);
            }
            assert(self@[i as int].0 != key@);
            i = i + 1;
        }
        None
    }

    /// Own lookup: the slot bound to `key`, if any.
    pub fn get(&self, key: &str) -> (r: Option<&Property>)
        ensures
            match r {
                Some(p) => pm_get(self@, key@) == Some(p@),
                None => pm_get(self@, key@) is None,
            },
    {
        match self.find(key) {
            Some(i) => {
                proof {
                    lemma_pm_get_index(self@, i as int, key@);
                }
                Some(&self.entries[i].1)
            },
            None => {
                proof {
                    lemma_pm_get_none(self@, key@);
                }
                None
            },
        }
    }

    pub fn contains(&self, key: &str) -> (r: bool)
        ensures
            r == pm_contains(self@, key@),
    {
        match self.get(key) {
            Some(_) => true,
            None => false,
        }
    }

    /// Bind `key` to `prop`. A key already present keeps its position in the
    /// enumeration order; a new key is appended at the end.
    pub fn set(&mut self, key: String, prop: Property)
        ensures
            pm_get(final(self)@, key@) == Some(prop@),
            forall|k2: Seq<char>|
                k2 != key@ ==> #[trigger] pm_get(final(self)@, k2) == pm_get(old(self)@, k2),
            pm_keys(final(self)@) == (if pm_contains(old(self)@, key@) {
                pm_keys(old(self)@)
            } else {
                pm_keys(old(self)@).push(key@)
            }),
            final(self)@.len() == old(self)@.len() + (if pm_contains(old(self)@, key@) {
                0int
            } else {
                1int
            }),
    {
        proof {
            use_type_invariant(&*self);
        }
        let ghost s0 = self@;
        match self.find(key.as_str()) {
            Some(i) => {
                proof {
                    lemma_pm_get_index(s0, i as int, key@);
                }
                let slot = (key, prop);
                let mut es: Vec<(String, Property)> = Vec::new();
                core::mem::swap(&mut es, &mut self.entries);
                es[i] = slot;
                proof {
                    let sv = Seq::new(es@.len(), |j: int| (es@[j].0@, es@[j].1@));
                    assert(sv =~= s0.update(i as int, (s0[i as int].0, prop@)));
                    lemma_pm_get_update(s0, i as int, prop@, key@);
                    assert(pm_unique(sv)) by {
                        assert forall|a: int, b: int| 0 <= a < b < sv.len() implies (
                        #[trigger] sv[a].0) != (#[trigger] sv[b].0) by {
                            assert(s0[a].0 == sv[a].0 || a == i);
                            assert(s0[b].0 == sv[b].0 || b == i);
                        }
                    }
                }
                core::mem::swap(&mut es, &mut self.entries);
                proof {
                    assert(self@ =~= s0.update(i as int, (s0[i as int].0, prop@)));
                    lemma_pm_get_update(s0, i as int, prop@, key@);
                    assert forall|k2: Seq<char>| k2 != key@ implies #[trigger] pm_get(self@, k2)
                        == pm_get(s0, k2) by {
                        lemma_pm_get_update(s0, i as int, prop@, k2);
                    }
                    assert(pm_keys(self@) =~= pm_keys(s0));
                    assert(pm_unique(self@));
                }
            },
            None => {
                proof {
                    lemma_pm_get_none(s0, key@);
                }
                let ghost e = (key@, prop@);
                let mut es: Vec<(String, Property)> = Vec::new();
                core::mem::swap(&mut es, &mut self.entries);
                es.push((key, prop));
                proof {
                    let sv = Seq::new(es@.len(), |j: int| (es@[j].0@, es@[j].1@));
                    assert(sv =~= s0.push(e));
                    assert(pm_unique(sv)) by {
                        assert forall|a: int, b: int| 0 <= a < b < sv.len() implies (
                        #[trigger] sv[a].0) != (#[trigger] sv[b].0) by {
                            if b == sv.len() - 1 {
                                if sv[a].0 == key@ {
                                    lemma_pm_get_index_exists(s0, a, key@);
                                }
                            }
                        }
                    }
                }
                core::mem::swap(&mut es, &mut self.entries);
                proof {
                    assert(self@ =~= s0.push(e));
                    lemma_pm_get_push(s0, e, key@);
                    assert forall|k2: Seq<char>| k2 != key@ implies #[trigger] pm_get(self@, k2)
                        == pm_get(s0, k2) by {
                        lemma_pm_get_push(s0, e, k2);
                    }
                    assert(pm_keys(self@) =~= pm_keys(s0).push(key@));
                    assert forall|i: int, j: int| 0 <= i < j < self@.len() implies (
                    #[trigger] self@[i].0) != (#[trigger] self@[j].0) by {
                        if j == self@.len() - 1 {
                            if self@[i].0 == key@ {
                                lemma_pm_get_index_exists(s0, i, key@);
                            }
                        }
                    }
                }
            },
        }
    }
}

proof fn lemma_pm_get_index_exists(s: Seq<(Seq<char>, PropertyV)>, i: int, k: Seq<char>)
    requires
        0 <= i < s.len(),
        s[i].0 == k,
    ensures
        pm_contains(s, k),
    decreases i,
{
    if s[0].0 != k {
        lemma_pm_get_index_exists(s.drop_first(), i - 1, k);
    }
}

/// Law: enumeration order is insertion order. Updating a key that is already
/// bound leaves the key order unchanged; only the first insertion of a key
/// appends it.
pub proof fn lemma_enumeration_order_insertion(
    s: Seq<(Seq<char>, PropertyV)>,
    k: Seq<char>,
    before: Seq<Seq<char>>,
    after: Seq<Seq<char>>,
)
    requires
        before == pm_keys(s),
        after == (if pm_contains(s, k) {
            pm_keys(s)
        } else {
            pm_keys(s).push(k)
        }),
    ensures
        pm_contains(s, k) ==> after == before,
        !pm_contains(s, k) ==> after == before.push(k),
{
}

/// What an object is, beyond its named properties: a plain object, an array
/// with its dense element storage, or a function.
#[derive(Debug)]
pub enum ObjectKind {
    Ordinary,
    Array(Vec<Property>),
    Function(FuncCallee),
}

/// The callable payload of a function object: either user bytecode (a
/// template in the constant pool plus the captured environment) or a native
/// builtin.
#[derive(Clone, Copy, Debug, PartialEq, Eq, Structural)]
pub enum FuncCallee {
    User { template: usize, env: usize },
    Builtin(BuiltinId),
}

/// The native functions reachable from the global object.
#[derive(Clone, Copy, Debug, PartialEq, Eq, Structural)]
pub enum BuiltinId {
    Log,
    ParseFloat,
    DeepSeq,
    Require,
    ObjectConstructor,
}

#[verifier::ext_equal]
pub enum ObjectKindV {
    Ordinary,
    Array(Seq<PropertyV>),
    Function(FuncCallee),
}

/// One heap-allocated object record.
#[derive(Debug)]
pub struct ObjectInfo {
    pub kind: ObjectKind,
    pub prototype: Option<usize>,
    pub property: PropMap,
}

#[verifier::ext_equal]
pub struct ObjV {
    pub kind: ObjectKindV,
    pub prototype: Option<int>,
    pub property: Seq<(Seq<char>, PropertyV)>,
}

impl View for ObjectInfo {
    type V = ObjV;

    open spec fn view(&self) -> ObjV {
        ObjV {
            kind: match &self.kind {
                ObjectKind::Ordinary => ObjectKindV::Ordinary,
                ObjectKind::Array(elems) => ObjectKindV::Array(
                    elems@.map_values(|p: Property| p@),
                ),
                ObjectKind::Function(f) => ObjectKindV::Function(*f),
            },
            prototype: match self.prototype {
                Some(p) => Some(p as int),
                None => None,
            },
            property: self.property@,
        }
    }
}

impl ObjectInfo {
    /// A plain object with no properties yet.
    pub fn ordinary(prototype: Option<usize>) -> (r: ObjectInfo)
        ensures
            r@.kind == ObjectKindV::Ordinary,
            r@.prototype == match prototype {
                Some(p) => Some(p as int),
                None => None::<int>,
            },
            r@.property == Seq::<(Seq<char>, PropertyV)>::empty(),
    {
        ObjectInfo { kind: ObjectKind::Ordinary, prototype, property: PropMap::new() }
    }
}

/// Prototype links only ever point at objects that already existed when the
/// referring object was allocated, so every prototype chain is finite.
pub open spec fn heap_wf(h: Seq<ObjV>) -> bool {
    forall|i: int|
        0 <= i < h.len() ==> match (#[trigger] h[i]).prototype {
            Some(p) => 0 <= p < i,
            None => true,
        }
}

/// Lookup through the prototype chain: the own slot if present, otherwise
/// the nearest prototype's slot.
pub open spec fn spec_lookup(h: Seq<ObjV>, obj: int, key: Seq<char>) -> Option<PropertyV>
    recommends
        heap_wf(h),
        0 <= obj < h.len(),
    decreases obj,
{
    if 0 <= obj < h.len() {
        match pm_get(h[obj].property, key) {
            Some(p) => Some(p),
            None => match h[obj].prototype {
                Some(p) => if 0 <= p < obj {
                    spec_lookup(h, p, key)
                } else {
                    None
                },
                None => None,
            },
        }
    } else {
        None
    }
}

/// The value read through `get_property`: a data slot's value; `Undefined`
/// for a total miss, and for an accessor slot, whose getter this core does
/// not run.
pub open spec fn spec_get_property_value(h: Seq<ObjV>, obj: int, key: Seq<char>) -> ValueV {
    match spec_lookup(h, obj, key) {
        Some(PropertyV::Data(d)) => d.val,
        _ => ValueV::Undefined,
    }
}

/// The arena that stands for the collected heap: objects are appended, and a
/// handle stays valid for the life of the arena.
#[derive(Debug)]
pub struct MemoryAllocator {
    objects: Vec<ObjectInfo>,
}

impl View for MemoryAllocator {
    type V = Seq<ObjV>;

    closed spec fn view(&self) -> Seq<ObjV> {
        self.objects@.map_values(|o: ObjectInfo| o@)
    }
}

impl MemoryAllocator {
    /// The arena's own invariant: every prototype link points backwards, so
    /// prototype chains are finite by construction.
    #[verifier::type_invariant]
    pub open spec fn inv(self) -> bool {
        heap_wf(self@)
    }

    pub fn new() -> (r: MemoryAllocator)
        ensures
            r@ == Seq::<ObjV>::empty(),
    {
        let r = MemoryAllocator { objects: Vec::new() };
        proof {
            assert(r@ =~= Seq::<ObjV>::empty());
        }
        r
    }

    pub fn len(&self) -> (r: usize)
        ensures
            r == self@.len(),
    {
        self.objects.len()
    }

    /// Allocate a fresh object and hand back its stable handle.
    pub fn allocate(&mut self, info: ObjectInfo) -> (h: usize)
        requires
            match info.prototype {
                Some(p) => p < old(self)@.len(),
                None => true,
            },
        ensures
            h == old(self)@.len(),
            final(self)@ == old(self)@.push(info@),
    {
        proof {
            use_type_invariant(&*self);
        }
        let h = self.objects.len();
        let mut os: Vec<ObjectInfo> = Vec::new();
        core::mem::swap(&mut os, &mut self.objects);
        os.push(info);
        proof {
            let hv = os@.map_values(|o: ObjectInfo| o@);
            assert(hv =~= old(self)@.push(info@));
            assert(heap_wf(hv)) by {
                assert forall|j: int| 0 <= j < hv.len() implies match (#[trigger] hv[j]).prototype {
                    Some(p) => 0 <= p < j,
                    None => true,
                } by {
                    if j < hv.len() - 1 {
                        assert(hv[j] == old(self)@[j]);
                    }
                }
            }
        }
        core::mem::swap(&mut os, &mut self.objects);
        proof {
            assert(self@ =~= old(self)@.push(info@));
        }
        h
    }

    pub fn obj_at(&self, obj: usize) -> (r: &ObjectInfo)
        requires
            obj < self@.len(),
        ensures
            r@ == self@[obj as int],
    {
        &self.objects[obj]
    }

    /// Own lookup only: no prototype walk.
    pub fn get_own_property(&self, obj: usize, key: &str) -> (r: Option<&Property>)
        requires
            obj < self@.len(),
        ensures
            match r {
                Some(p) => pm_get(self@[obj as int].property, key@) == Some(p@),
                None => pm_get(self@[obj as int].property, key@) is None,
            },
    {
        self.objects[obj].property.get(key)
    }

    pub fn has_own_property(&self, obj: usize, key: &str) -> (r: bool)
        requires
            obj < self@.len(),
        ensures
            r == pm_contains(self@[obj as int].property, key@),
    {
        self.objects[obj].property.contains(key)
    }

    /// Full lookup: the own table first, then the prototype chain; a total
    /// miss reads as `Undefined`, never as an error.
    pub fn get_property(&self, obj: usize, key: &str) -> (r: Value)
        requires
            obj < self@.len(),
        ensures
            r@ == spec_get_property_value(self@, obj as int, key@),
    {
        proof {
            use_type_invariant(self);
        }
        let mut cur: usize = obj;
        loop
            invariant
                cur < self@.len(),
                heap_wf(self@),
                spec_lookup(self@, obj as int, key@) == spec_lookup(self@, cur as int, key@),
            decreases cur,
        {
            match self.objects[cur].property.get(key) {
                Some(p) => {
                    return match p {
                        Property::Data(d) => d.val.clone(),
                        Property::Accessor(_) => Value::Undefined,
                    };
                },
                None => {
                    match self.objects[cur].prototype {
                        Some(p) => {
                            cur = p;
                        },
                        None => {
                            return Value::Undefined;
                        },
                    }
                },
            }
        }
    }

    /// Create or overwrite a data property on the receiver itself; the
    /// prototype chain is never written through.
    pub fn set_property(&mut self, obj: usize, key: String, val: Value)
        requires
            obj < old(self)@.len(),
        ensures
            final(self)@.len() == old(self)@.len(),
            forall|j: int|
                0 <= j < old(self)@.len() && j != obj ==> #[trigger] final(self)@[j] == old(
                    self,
                )@[j],
            final(self)@[obj as int].kind == old(self)@[obj as int].kind,
            final(self)@[obj as int].prototype == old(self)@[obj as int].prototype,
            pm_get(final(self)@[obj as int].property, key@) == Some(
                PropertyV::Data(
                    DataPropertyV {
                        val: val@,
                        writable: true,
                        enumerable: true,
                        configurable: true,
                    },
                ),
            ),
            forall|k2: Seq<char>|
                k2 != key@ ==> #[trigger] pm_get(final(self)@[obj as int].property, k2) == pm_get(
                    old(self)@[obj as int].property,
                    k2,
                ),
            pm_keys(final(self)@[obj as int].property) == (if pm_contains(
                old(self)@[obj as int].property,
                key@,
            ) {
                pm_keys(old(self)@[obj as int].property)
            } else {
                pm_keys(old(self)@[obj as int].property).push(key@)
            }),
    {
        self.define_property(obj, key, Property::plain_data(val));
    }

    /// Raw slot insert, used for builtins and object literals.
    pub fn define_property(&mut self, obj: usize, key: String, prop: Property)
        requires
            obj < old(self)@.len(),
        ensures
            final(self)@.len() == old(self)@.len(),
            forall|j: int|
                0 <= j < old(self)@.len() && j != obj ==> #[trigger] final(self)@[j] == old(
                    self,
                )@[j],
            final(self)@[obj as int].kind == old(self)@[obj as int].kind,
            final(self)@[obj as int].prototype == old(self)@[obj as int].prototype,
            pm_get(final(self)@[obj as int].property, key@) == Some(prop@),
            forall|k2: Seq<char>|
                k2 != key@ ==> #[trigger] pm_get(final(self)@[obj as int].property, k2) == pm_get(
                    old(self)@[obj as int].property,
                    k2,
                ),
            pm_keys(final(self)@[obj as int].property) == (if pm_contains(
                old(self)@[obj as int].property,
                key@,
            ) {
                pm_keys(old(self)@[obj as int].property)
            } else {
                pm_keys(old(self)@[obj as int].property).push(key@)
            }),
    {
        proof {
            use_type_invariant(&*self);
        }
        let ghost h0 = self@;
        let mut os: Vec<ObjectInfo> = Vec::new();
        core::mem::swap(&mut os, &mut self.objects);
        os[obj].property.set(key, prop);
        proof {
            let hv = os@.map_values(|o: ObjectInfo| o@);
            assert forall|j: int|
                0 <= j < h0.len() && j != obj implies #[trigger] hv[j] == h0[j] by {}
            assert(hv[obj as int].kind == h0[obj as int].kind);
            assert(hv[obj as int].prototype == h0[obj as int].prototype);
            assert(heap_wf(hv)) by {
                assert forall|j: int| 0 <= j < hv.len() implies match (#[trigger] hv[j]).prototype {
                    Some(p) => 0 <= p < j,
                    None => true,
                } by {
                    assert(hv[j].prototype == h0[j].prototype);
                }
            }
        }
        core::mem::swap(&mut os, &mut self.objects);
        proof {
            assert forall|j: int|
                0 <= j < h0.len() && j != obj implies #[trigger] self@[j] == h0[j] by {}
            assert(self@[obj as int].kind == h0[obj as int].kind);
        }
    }
}

/// The well-known prototype objects created at engine start.
#[derive(Clone, Copy, Debug, PartialEq, Eq, Structural)]
pub struct ObjectPrototypes {
    pub object: usize,
    pub function: usize,
}

impl ObjectPrototypes {
    pub fn new(memory_allocator: &mut MemoryAllocator) -> (r: ObjectPrototypes)
        ensures
            final(memory_allocator)@.len() == old(memory_allocator)@.len() + 2,
            forall|j: int|
                0 <= j < old(memory_allocator)@.len() ==> #[trigger] final(memory_allocator)@[j]
                    == old(memory_allocator)@[j],
            r.object < final(memory_allocator)@.len(),
            r.function < final(memory_allocator)@.len(),
    {
        let object = memory_allocator.allocate(ObjectInfo::ordinary(None));
        let function = memory_allocator.allocate(ObjectInfo::ordinary(Some(object)));
        ObjectPrototypes { object, function }
    }
}

} // verus!
