//! Deep structural equality: the recursive, order-insensitive comparison of
//! two objects' data, exported to scripts as an assertion builtin.

use vstd::prelude::*;
use vstd::set_lib::lemma_subset_equality;
use crate::object::{
    lemma_pm_contains_iff_index, lemma_pm_get_at_index, pm_contains, pm_get, pm_keys, pm_unique,
    MemoryAllocator, ObjV, ObjectKind, ObjectKindV, Property, PropertyV,
};
use crate::value::{spec_debug_chars, spec_strict_eq, Value, ValueV};
use crate::env::{env_seq, lemma_envs_wf_grow};
use crate::error::RuntimeError;
use crate::frame::Frame;
use crate::numeric::spec_parse_decimal;
use crate::object::ObjectInfo;
use crate::vm::VM;

verus! {

/// Two property slots compare as equal data: both are data properties and
/// their values are deep-equal. Any accessor slot fails the comparison, a
/// deliberate conservative policy: getters are never run while comparing.
pub open spec fn spec_pair_data_eq(h: Seq<ObjV>, p: PropertyV, q: PropertyV, fuel: nat) -> bool
    decreases fuel, 1int,
{
    &&& p matches PropertyV::Data(dp) && q matches PropertyV::Data(dq) && spec_deep_eq(
        h,
        dp.val,
        dq.val,
        fuel,
    )
}

/// Named properties compare without regard to insertion order: the two
/// tables bind the same set of keys, and under every key the slots are
/// equal data.
pub open spec fn spec_deep_eq_props(
    h: Seq<ObjV>,
    sp: Seq<(Seq<char>, PropertyV)>,
    sq: Seq<(Seq<char>, PropertyV)>,
    fuel: nat,
) -> bool
    decreases fuel, 2int,
{
    &&& sp.len() == sq.len()
    &&& (forall|k: Seq<char>|
        #![trigger pm_contains(sp, k)]
        #![trigger pm_contains(sq, k)]
        pm_contains(sp, k) <==> pm_contains(sq, k))
    &&& (forall|k: Seq<char>|
        #[trigger] pm_contains(sp, k) ==> spec_pair_data_eq(
            h,
            pm_get(sp, k)->Some_0,
            pm_get(sq, k)->Some_0,
            fuel,
        ))
}

/// Kinds compare exactly: plain objects match plain objects; arrays match
/// arrays with the same element count, elementwise in index order; anything
/// else (functions included) never compares equal.
pub open spec fn spec_deep_eq_kind(
    h: Seq<ObjV>,
    kp: ObjectKindV,
    kq: ObjectKindV,
    fuel: nat,
) -> bool
    decreases fuel, 2int,
{
    match (kp, kq) {
        (ObjectKindV::Ordinary, ObjectKindV::Ordinary) => true,
        (ObjectKindV::Array(ep), ObjectKindV::Array(eq2)) => {
            &&& ep.len() == eq2.len()
            &&& (forall|x: int|
                0 <= x < ep.len() ==> spec_pair_data_eq(h, #[trigger] ep[x], eq2[x], fuel))
        },
        _ => false,
    }
}

/// Deep structural equality, bounded by `fuel` levels of nesting: objects
/// compare by their named data properties (as a keyed set) and their kind;
/// every non-object pair falls back to strict equality.
pub open spec fn spec_deep_eq(h: Seq<ObjV>, a: ValueV, b: ValueV, fuel: nat) -> bool
    decreases fuel, 0int,
{
    if fuel == 0 {
        false
    } else {
        match (a, b) {
            (ValueV::Object(i), ValueV::Object(j)) => {
                &&& 0 <= i < h.len()
                &&& 0 <= j < h.len()
                &&& spec_deep_eq_props(h, h[i].property, h[j].property, (fuel - 1) as nat)
                &&& spec_deep_eq_kind(h, h[i].kind, h[j].kind, (fuel - 1) as nat)
            },
            _ => spec_strict_eq(a, b),
        }
    }
}

/// Check deep strict equality, descending at most `fuel` levels (an acyclic
/// object graph is never deeper than the heap itself, so callers pass one
/// more than the heap size). Only Ordinary and Array kinds are supported;
/// accessor properties always compare unequal.
pub fn deep_seq_bool(heap: &MemoryAllocator, lval: &Value, rval: &Value, fuel: usize) -> (r: bool)
    ensures
        r == spec_deep_eq(heap@, lval@, rval@, fuel as nat),
    decreases fuel,
{
    if fuel == 0 {
        return false;
    }
    let (i, j) = match (lval, rval) {
        (Value::Object(i2), Value::Object(j2)) => (*i2, *j2),
        _ => {
            return lval.strict_eq_bool(rval);
        },
    };
    let n = heap.len();
    if !(i < n && j < n) {
        return false;
    }
    let ghost subfuel = (fuel - 1) as nat;
    let oi = heap.obj_at(i);
    let oj = heap.obj_at(j);
    let pi = &oi.property;
    let pj = &oj.property;
    proof {
        use_type_invariant(pi);
        use_type_invariant(pj);
        assert(pi@ == heap@[i as int].property);
        assert(pj@ == heap@[j as int].property);
    }
    let plen = pi.len();
    if plen != pj.len() {
        return false;
    }
    let mut x: usize = 0;
    while x < plen
        invariant
            x <= plen,
            plen == pi@.len(),
            plen == pj@.len(),
            fuel >= 1,
            subfuel == (fuel - 1) as nat,
            pm_unique(pi@),
            pm_unique(pj@),
            i < heap@.len(),
            j < heap@.len(),
            pi@ == heap@[i as int].property,
            pj@ == heap@[j as int].property,
            lval@ == ValueV::Object(i as int),
            rval@ == ValueV::Object(j as int),
            forall|x2: int|
                0 <= x2 < x ==> #[trigger] pm_contains(pj@, pi@[x2].0) && spec_pair_data_eq(
                    heap@,
                    pi@[x2].1,
                    pm_get(pj@, pi@[x2].0)->Some_0,
                    subfuel,
                ),
        decreases plen - x,
    {
        let entry = pi.entry_at(x);
        match pj.get(entry.0.as_str()) {
            None => {
                proof {
                    lemma_pm_get_at_index(pi@, x as int);
                    assert(pm_contains(pi@, pi@[x as int].0));
                    assert(!pm_contains(pj@, pi@[x as int].0));
                    assert(!spec_deep_eq_props(heap@, pi@, pj@, subfuel));
                }
                return false;
            },
            Some(q) => {
                let ghost qv = q@;
                proof {
                    assert(pm_get(pj@, pi@[x as int].0) == Some(qv));
                    assert(pm_contains(pj@, pi@[x as int].0));
                    lemma_pm_get_at_index(pi@, x as int);
                    assert(pm_contains(pi@, pi@[x as int].0));
                }
                match (&entry.1, q) {
                    (Property::Data(dp), Property::Data(dq)) => {
                        let ghost dpv = dp.val@;
                        let ghost dqv = dq.val@;
                        proof {
                            assert(pi@[x as int].1 == PropertyV::Data(
                                crate::object::DataPropertyV {
                                    val: dpv,
                                    writable: dp.writable,
                                    enumerable: dp.enumerable,
                                    configurable: dp.configurable,
                                },
                            ));
                        }
                        if !deep_seq_bool(heap, &dp.val, &dq.val, fuel - 1) {
                            proof {
                                assert(!spec_pair_data_eq(heap@, pi@[x as int].1, qv, subfuel));
                                assert(!spec_deep_eq_props(heap@, pi@, pj@, subfuel));
                            }
                            return false;
                        }
                        proof {
                            assert(spec_pair_data_eq(heap@, pi@[x as int].1, qv, subfuel));
                            assert(pm_get(pj@, pi@[x as int].0)->Some_0 == qv);
                            assert forall|x2: int| 0 <= x2 < x + 1 implies #[trigger] pm_contains(
                                pj@,
                                pi@[x2].0,
                            ) && spec_pair_data_eq(
                                heap@,
                                pi@[x2].1,
                                pm_get(pj@, pi@[x2].0)->Some_0,
                                subfuel,
                            ) by {
                                if x2 == x {
                                    assert(pm_contains(pj@, pi@[x as int].0));
                                    assert(spec_pair_data_eq(
                                        heap@,
                                        pi@[x as int].1,
                                        pm_get(pj@, pi@[x as int].0)->Some_0,
                                        subfuel,
                                    ));
                                }
                            }
                        }
                    },
                    _ => {
                        proof {
                            assert(!spec_pair_data_eq(heap@, pi@[x as int].1, qv, subfuel));
                            assert(!spec_deep_eq_props(heap@, pi@, pj@, subfuel));
                        }
                        return false;
                    },
                }
            },
        }
        x = x + 1;
    }
    proof {
        lemma_props_from_scan(heap@, pi@, pj@, subfuel);
    }
    let props_ok: bool = true;
    let kind_ok: bool = match (&oi.kind, &oj.kind) {
        (ObjectKind::Ordinary, ObjectKind::Ordinary) => true,
        (ObjectKind::Array(ei), ObjectKind::Array(ej)) => {
            let elen = ei.len();
            let ghost evi = heap@[i as int].kind->Array_0;
            let ghost evj = heap@[j as int].kind->Array_0;
            proof {
                assert(forall|y2: int| 0 <= y2 < evi.len() ==> #[trigger] evi[y2] == ei@[y2]@);
                assert(forall|y2: int| 0 <= y2 < evj.len() ==> #[trigger] evj[y2] == ej@[y2]@);
            }
            if elen != ej.len() {
                proof {
                    assert(!spec_deep_eq_kind(
                        heap@,
                        heap@[i as int].kind,
                        heap@[j as int].kind,
                        subfuel,
                    ));
                }
                return false;
            }
            let mut y: usize = 0;
            while y < elen
                invariant
                    y <= elen,
                    elen == ei@.len(),
                    elen == ej@.len(),
                    fuel >= 1,
                    subfuel == (fuel - 1) as nat,
                    evi.len() == elen,
                    evj.len() == elen,
                    heap@[i as int].kind == ObjectKindV::Array(evi),
                    heap@[j as int].kind == ObjectKindV::Array(evj),
                    spec_deep_eq_props(heap@, heap@[i as int].property, heap@[j as int].property, subfuel),
                    0 <= i < heap@.len(),
                    0 <= j < heap@.len(),
                    lval@ == ValueV::Object(i as int),
                    rval@ == ValueV::Object(j as int),
                    forall|y2: int| 0 <= y2 < evi.len() ==> #[trigger] evi[y2] == ei@[y2]@,
                    forall|y2: int| 0 <= y2 < evj.len() ==> #[trigger] evj[y2] == ej@[y2]@,
                    forall|y2: int|
                        0 <= y2 < y ==> spec_pair_data_eq(
                            heap@,
                            #[trigger] evi[y2],
                            evj[y2],
                            subfuel,
                        ),
                decreases elen - y,
            {
                proof {
                    assert(evi[y as int] == ei@[y as int]@);
                    assert(evj[y as int] == ej@[y as int]@);
                }
                match (&ei[y], &ej[y]) {
                    (Property::Data(dp), Property::Data(dq)) => {
                        let ghost dpv = dp.val@;
                        let ghost dqv = dq.val@;
                        if !deep_seq_bool(heap, &dp.val, &dq.val, fuel - 1) {
                            proof {
                                assert(!spec_pair_data_eq(
                                    heap@,
                                    evi[y as int],
                                    evj[y as int],
                                    subfuel,
                                ));
                                assert(heap@[i as int].kind == ObjectKindV::Array(evi));
                                assert(heap@[j as int].kind == ObjectKindV::Array(evj));
                                assert(!spec_deep_eq_kind(
                                    heap@,
                                    heap@[i as int].kind,
                                    heap@[j as int].kind,
                                    subfuel,
                                ));
                            }
                            return false;
                        }
                        proof {
                            assert(spec_pair_data_eq(heap@, evi[y as int], evj[y as int], subfuel));
                        }
                    },
                    _ => {
                        proof {
                            assert(!spec_pair_data_eq(heap@, evi[y as int], evj[y as int], subfuel));
                            assert(heap@[i as int].kind == ObjectKindV::Array(evi));
                            assert(heap@[j as int].kind == ObjectKindV::Array(evj));
                            assert(!spec_deep_eq_kind(
                                heap@,
                                heap@[i as int].kind,
                                heap@[j as int].kind,
                                subfuel,
                            ));
                        }
                        return false;
                    },
                }
                y = y + 1;
            }
            proof {
                assert(spec_deep_eq_kind(
                    heap@,
                    heap@[i as int].kind,
                    heap@[j as int].kind,
                    subfuel,
                ));
            }
            true
        },
        _ => false,
    };
    props_ok && kind_ok
}

/// After a scan that found every key of `sp` in `sq` with equal data, equal
/// table sizes force the two key sets to coincide.
proof fn lemma_props_from_scan(
    h: Seq<ObjV>,
    sp: Seq<(Seq<char>, PropertyV)>,
    sq: Seq<(Seq<char>, PropertyV)>,
    fuel: nat,
)
    requires
        pm_unique(sp),
        pm_unique(sq),
        sp.len() == sq.len(),
        forall|x2: int|
            0 <= x2 < sp.len() ==> #[trigger] pm_contains(sq, sp[x2].0) && spec_pair_data_eq(
                h,
                sp[x2].1,
                pm_get(sq, sp[x2].0)->Some_0,
                fuel,
            ),
    ensures
        spec_deep_eq_props(h, sp, sq, fuel),
{
    broadcast use vstd::seq_lib::seq_to_set_is_finite;

    let kp = pm_keys(sp);
    let kq = pm_keys(sq);
    assert(kp.no_duplicates()) by {
        assert(forall|a: int, b: int|
            0 <= a < kp.len() && 0 <= b < kp.len() && a != b ==> kp[a] != kp[b]) by {
            assert(forall|a: int| 0 <= a < kp.len() ==> #[trigger] kp[a] == sp[a].0);
        }
    }
    assert(kq.no_duplicates()) by {
        assert(forall|a: int, b: int|
            0 <= a < kq.len() && 0 <= b < kq.len() && a != b ==> kq[a] != kq[b]) by {
            assert(forall|a: int| 0 <= a < kq.len() ==> #[trigger] kq[a] == sq[a].0);
        }
    }
    kp.unique_seq_to_set();
    kq.unique_seq_to_set();
    assert(kp.to_set().subset_of(kq.to_set())) by {
        assert forall|k: Seq<char>| kp.to_set().contains(k) implies kq.to_set().contains(k) by {
            let a = choose|a: int| 0 <= a < kp.len() && kp[a] == k;
            assert(sp[a].0 == k);
            assert(pm_contains(sq, k));
            lemma_pm_contains_iff_index(sq, k);
            let b = choose|b: int| 0 <= b < sq.len() && sq[b].0 == k;
            assert(kq[b] == k);
        }
    }
    lemma_subset_equality(kp.to_set(), kq.to_set());
    assert(kp.to_set() == kq.to_set());
    assert forall|k: Seq<char>| #[trigger]
        pm_contains(sp, k) <==> #[trigger] pm_contains(sq, k) by {
        lemma_pm_contains_iff_index(sp, k);
        lemma_pm_contains_iff_index(sq, k);
        if pm_contains(sp, k) {
            let a = choose|a: int| 0 <= a < sp.len() && sp[a].0 == k;
            assert(kp[a] == k);
            assert(kp.to_set().contains(k));
        }
        if pm_contains(sq, k) {
            let b = choose|b: int| 0 <= b < sq.len() && sq[b].0 == k;
            assert(kq[b] == k);
            assert(kq.to_set().contains(k));
            assert(kp.to_set().contains(k));
            let a = choose|a: int| 0 <= a < kp.len() && kp[a] == k;
            assert(sp[a].0 == k);
        }
    }
    assert forall|k: Seq<char>| #[trigger] pm_contains(sp, k) implies spec_pair_data_eq(
        h,
        pm_get(sp, k)->Some_0,
        pm_get(sq, k)->Some_0,
        fuel,
    ) by {
        lemma_pm_contains_iff_index(sp, k);
        let a = choose|a: int| 0 <= a < sp.len() && sp[a].0 == k;
        lemma_pm_get_at_index(sp, a);
        assert(pm_contains(sq, sp[a].0));
        assert(pm_get(sp, k)->Some_0 == sp[a].1);
    }
}

/// Law: an array object holding an accessor among its elements is never
/// deep-equal to anything, itself included — the elementwise comparison
/// refuses the accessor slot on either side.
pub proof fn lemma_accessor_element_never_deep_equal(
    h: Seq<ObjV>,
    i: int,
    b: ValueV,
    x: int,
    fuel: nat,
)
    requires
        0 <= i < h.len(),
        h[i].kind matches ObjectKindV::Array(es) && 0 <= x < es.len() && es[x] is Accessor,
    ensures
        !spec_deep_eq(h, ValueV::Object(i), b, fuel),
        !spec_deep_eq(h, b, ValueV::Object(i), fuel),
{
    if fuel > 0 {
        let es = h[i].kind->Array_0;
        match b {
            ValueV::Object(j) => {
                if 0 <= j < h.len() {
                    let sf = (fuel - 1) as nat;
                    match h[j].kind {
                        ObjectKindV::Array(es2) => {
                            if es2.len() == es.len() {
                                assert(!spec_pair_data_eq(h, es[x], es2[x], sf));
                                assert(!spec_pair_data_eq(h, es2[x], es[x], sf));
                                assert(!spec_deep_eq_kind(h, h[i].kind, h[j].kind, sf));
                                assert(!spec_deep_eq_kind(h, h[j].kind, h[i].kind, sf));
                            }
                        },
                        _ => {},
                    }
                }
            },
            _ => {},
        }
    }
}

} // verus!

verus! {

/// Values whose whole reachable data is plain: numbers other than `Nan`,
/// non-object primitives, and Ordinary/Array objects all of whose slots are
/// data properties with such values, to the given depth.
pub open spec fn spec_data_only(h: Seq<ObjV>, a: ValueV, fuel: nat) -> bool
    decreases fuel,
{
    if fuel == 0 {
        false
    } else {
        match a {
            ValueV::Object(i) => {
                &&& 0 <= i < h.len()
                &&& (forall|k: Seq<char>|
                    #[trigger] pm_contains(h[i].property, k) ==> (pm_get(h[i].property, k)->Some_0
                        matches PropertyV::Data(d) && spec_data_only(h, d.val, (fuel - 1) as nat)))
                &&& match h[i].kind {
                    ObjectKindV::Ordinary => true,
                    ObjectKindV::Array(es) => forall|x: int|
                        0 <= x < es.len() ==> (#[trigger] es[x] matches PropertyV::Data(d)
                            && spec_data_only(h, d.val, (fuel - 1) as nat)),
                    ObjectKindV::Function(_) => false,
                }
            },
            ValueV::Number(n) => n != crate::numeric::JsNumber::Nan,
            _ => true,
        }
    }
}

/// Law: deep structural equality is symmetric, for every pair of values and
/// every fuel, accessors and mismatched kinds included.
pub proof fn lemma_deep_eq_symmetric(h: Seq<ObjV>, a: ValueV, b: ValueV, fuel: nat)
    ensures
        spec_deep_eq(h, a, b, fuel) == spec_deep_eq(h, b, a, fuel),
    decreases fuel, 3int,
{
    if fuel > 0 {
        match (a, b) {
            (ValueV::Object(i), ValueV::Object(j)) => {
                if 0 <= i < h.len() && 0 <= j < h.len() {
                    let sf = (fuel - 1) as nat;
                    lemma_props_sym_dir(h, h[i].property, h[j].property, sf);
                    lemma_props_sym_dir(h, h[j].property, h[i].property, sf);
                    lemma_kind_sym_dir(h, h[i].kind, h[j].kind, sf);
                    lemma_kind_sym_dir(h, h[j].kind, h[i].kind, sf);
                }
            },
            _ => {
                crate::value::lemma_strict_eq_symmetric(a, b);
            },
        }
    }
}

proof fn lemma_props_sym_dir(
    h: Seq<ObjV>,
    sp: Seq<(Seq<char>, PropertyV)>,
    sq: Seq<(Seq<char>, PropertyV)>,
    fuel: nat,
)
    ensures
        spec_deep_eq_props(h, sp, sq, fuel) ==> spec_deep_eq_props(h, sq, sp, fuel),
    decreases fuel, 4int,
{
    if spec_deep_eq_props(h, sp, sq, fuel) {
        assert forall|k: Seq<char>| #[trigger] pm_contains(sq, k) implies spec_pair_data_eq(
            h,
            pm_get(sq, k)->Some_0,
            pm_get(sp, k)->Some_0,
            fuel,
        ) by {
            assert(pm_contains(sp, k));
            let p = pm_get(sp, k)->Some_0;
            let q = pm_get(sq, k)->Some_0;
            assert(spec_pair_data_eq(h, p, q, fuel));
            lemma_deep_eq_symmetric(h, p->Data_0.val, q->Data_0.val, fuel);
        }
    }
}

proof fn lemma_kind_sym_dir(h: Seq<ObjV>, kp: ObjectKindV, kq: ObjectKindV, fuel: nat)
    ensures
        spec_deep_eq_kind(h, kp, kq, fuel) ==> spec_deep_eq_kind(h, kq, kp, fuel),
    decreases fuel, 4int,
{
    if spec_deep_eq_kind(h, kp, kq, fuel) {
        match (kp, kq) {
            (ObjectKindV::Array(ep), ObjectKindV::Array(eq2)) => {
                assert forall|x: int| 0 <= x < eq2.len() implies spec_pair_data_eq(
                    h,
                    #[trigger] eq2[x],
                    ep[x],
                    fuel,
                ) by {
                    assert(spec_pair_data_eq(h, ep[x], eq2[x], fuel));
                    lemma_deep_eq_symmetric(h, ep[x]->Data_0.val, eq2[x]->Data_0.val, fuel);
                }
            },
            _ => {},
        }
    }
}

/// Law: deep structural equality is reflexive on values whose reachable data
/// is plain (Ordinary/Array objects holding only data properties, with no
/// `Nan` anywhere below).
pub proof fn lemma_deep_eq_reflexive(h: Seq<ObjV>, a: ValueV, fuel: nat)
    requires
        spec_data_only(h, a, fuel),
    ensures
        spec_deep_eq(h, a, a, fuel),
    decreases fuel,
{
    match a {
        ValueV::Object(i) => {
            let sp = h[i].property;
            let sf = (fuel - 1) as nat;
            assert forall|k: Seq<char>| #[trigger] pm_contains(sp, k) implies spec_pair_data_eq(
                h,
                pm_get(sp, k)->Some_0,
                pm_get(sp, k)->Some_0,
                sf,
            ) by {
                let d = pm_get(sp, k)->Some_0->Data_0;
                lemma_deep_eq_reflexive(h, d.val, sf);
            }
            assert(spec_deep_eq_props(h, sp, sp, sf));
            match h[i].kind {
                ObjectKindV::Array(es) => {
                    assert forall|x: int| 0 <= x < es.len() implies spec_pair_data_eq(
                        h,
                        #[trigger] es[x],
                        es[x],
                        sf,
                    ) by {
                        lemma_deep_eq_reflexive(h, es[x]->Data_0.val, sf);
                    }
                    assert(spec_deep_eq_kind(h, h[i].kind, h[i].kind, sf));
                },
                _ => {},
            }
        },
        _ => {
            crate::value::lemma_strict_eq_reflexive(a);
        },
    }
}

/// Law: an object holding any accessor property is never deep-equal to
/// anything, itself included. This non-reflexivity is intentional: getters
/// are never evaluated during comparison.
pub proof fn lemma_accessor_never_deep_equal(
    h: Seq<ObjV>,
    i: int,
    b: ValueV,
    k: Seq<char>,
    fuel: nat,
)
    requires
        0 <= i < h.len(),
        pm_get(h[i].property, k) matches Some(PropertyV::Accessor(_)),
    ensures
        !spec_deep_eq(h, ValueV::Object(i), b, fuel),
        !spec_deep_eq(h, b, ValueV::Object(i), fuel),
    decreases fuel,
{
    if fuel > 0 {
        assert(pm_contains(h[i].property, k));
        match b {
            ValueV::Object(j) => {
                if 0 <= j < h.len() {
                    let sf = (fuel - 1) as nat;
                    assert(!spec_pair_data_eq(
                        h,
                        pm_get(h[i].property, k)->Some_0,
                        pm_get(h[j].property, k)->Some_0,
                        sf,
                    ));
                    if spec_deep_eq_props(h, h[j].property, h[i].property, sf) {
                        assert(pm_contains(h[j].property, k));
                        assert(!spec_pair_data_eq(
                            h,
                            pm_get(h[j].property, k)->Some_0,
                            pm_get(h[i].property, k)->Some_0,
                            sf,
                        ));
                    }
                }
            },
            _ => {},
        }
    }
}

} // verus!

verus! {

/// The views of a sequence of values.
pub open spec fn vals_view(s: Seq<Value>) -> Seq<ValueV> {
    s.map_values(|v: Value| v@)
}

/// The display line `console.log` produces: the arguments' display images
/// joined with single spaces.
pub open spec fn spec_log_line(vs: Seq<ValueV>) -> Seq<char>
    decreases vs.len(),
{
    if vs.len() == 0 {
        Seq::empty()
    } else if vs.len() == 1 {
        spec_debug_chars(vs[0], false)
    } else {
        spec_log_line(vs.drop_last()) + seq![' '] + spec_debug_chars(vs.last(), false)
    }
}

/// The comparison depth deep equality descends to: one more level than the
/// heap has objects, enough for any acyclic graph.
pub open spec fn spec_deep_fuel(heap_len: nat) -> nat {
    if heap_len < usize::MAX {
        heap_len + 1
    } else {
        heap_len
    }
}

/// The numeric-parsing builtin: coerce the first argument to its display
/// string and read it as a decimal literal, `NaN` on any other shape.
pub fn parse_float(vm: &mut VM, args: &[Value], _cur_frame: &Frame) -> (r: Result<
    (),
    RuntimeError,
>)
    requires
        old(vm).wf(),
    ensures
        final(vm).wf(),
        r is Ok,
        final(vm).memory_allocator@ == old(vm).memory_allocator@,
        final(vm).envs@ == old(vm).envs@,
        final(vm).constant_table@ == old(vm).constant_table@,
        final(vm).global_env == old(vm).global_env,
        final(vm).object_prototypes == old(vm).object_prototypes,
        final(vm).output@ == old(vm).output@,
        final(vm).stack@.len() == old(vm).stack@.len() + 1,
        forall|i: int|
            0 <= i < old(vm).stack@.len() ==> #[trigger] final(vm).stack@[i] == old(vm).stack@[i],
        final(vm).stack@.last()@ == ValueV::Number(
            spec_parse_decimal(
                spec_debug_chars(
                    if args@.len() > 0 {
                        args@[0]@
                    } else {
                        ValueV::Undefined
                    },
                    false,
                ),
            ),
        ),
{
    let arg: Value = if args.len() > 0 {
        args[0].clone()
    } else {
        Value::Undefined
    };
    let text = arg.debug_string(false);
    let cs = crate::value::str_to_chars(text.as_str());
    let n = crate::numeric::parse_decimal_chars(&cs);
    vm.stack.push(Value::Number(n));
    Ok(())
}

/// The deep-equality assertion builtin: exactly two arguments, compared by
/// the deep structural rule against the current heap.
pub fn deep_seq(vm: &mut VM, args: &[Value], _cur_frame: &Frame) -> (r: Result<(), RuntimeError>)
    requires
        old(vm).wf(),
    ensures
        final(vm).wf(),
        final(vm).memory_allocator@ == old(vm).memory_allocator@,
        final(vm).envs@ == old(vm).envs@,
        final(vm).constant_table@ == old(vm).constant_table@,
        final(vm).global_env == old(vm).global_env,
        final(vm).object_prototypes == old(vm).object_prototypes,
        final(vm).output@ == old(vm).output@,
        args@.len() != 2 ==> {
            &&& r matches Err(RuntimeError::General(m)) && m@
                == "__assert_deep_seq():Two arguments are needed."@
            &&& final(vm).stack@ == old(vm).stack@
        },
        args@.len() == 2 ==> {
            &&& r is Ok
            &&& final(vm).stack@.len() == old(vm).stack@.len() + 1
            &&& (forall|i: int|
                0 <= i < old(vm).stack@.len() ==> #[trigger] final(vm).stack@[i] == old(
                    vm,
                ).stack@[i])
            &&& final(vm).stack@.last()@ == ValueV::Bool(
                spec_deep_eq(
                    old(vm).memory_allocator@,
                    args@[0]@,
                    args@[1]@,
                    spec_deep_fuel(old(vm).memory_allocator@.len()),
                ),
            )
        },
{
    if args.len() != 2 {
        return Err(crate::error::general_error("__assert_deep_seq():Two arguments are needed."));
    }
    let lval = &args[0];
    let rval = &args[1];
    let hl = vm.memory_allocator.len();
    let fuel: usize = if hl < usize::MAX {
        hl + 1
    } else {
        hl
    };
    let eq2 = deep_seq_bool(&vm.memory_allocator, lval, rval, fuel);
    vm.stack.push(Value::Bool(eq2));
    Ok(())
}

/// The module-resolution builtin: exactly one string argument, returned
/// unchanged; actual loading belongs to the host layer.
pub fn require(vm: &mut VM, args: &[Value], _cur_frame: &Frame) -> (r: Result<(), RuntimeError>)
    requires
        old(vm).wf(),
    ensures
        final(vm).wf(),
        final(vm).memory_allocator@ == old(vm).memory_allocator@,
        final(vm).envs@ == old(vm).envs@,
        final(vm).constant_table@ == old(vm).constant_table@,
        final(vm).global_env == old(vm).global_env,
        final(vm).object_prototypes == old(vm).object_prototypes,
        final(vm).output@ == old(vm).output@,
        args@.len() == 0 ==> {
            &&& r matches Err(RuntimeError::General(m)) && m@
                == "require():One argument is needed."@
            &&& final(vm).stack@ == old(vm).stack@
        },
        args@.len() > 0 && !(args@[0]@ is String) ==> {
            &&& r matches Err(RuntimeError::Type(m)) && m@
                == "require():An argument should be string."@
            &&& final(vm).stack@ == old(vm).stack@
        },
        args@.len() > 0 && args@[0]@ is String ==> {
            &&& r is Ok
            &&& final(vm).stack@.len() == old(vm).stack@.len() + 1
            &&& (forall|i: int|
                0 <= i < old(vm).stack@.len() ==> #[trigger] final(vm).stack@[i] == old(
                    vm,
                ).stack@[i])
            &&& final(vm).stack@.last()@ == args@[0]@
        },
{
    if args.len() == 0 {
        return Err(crate::error::general_error("require():One argument is needed."));
    }
    let file_name: Value = match &args[0] {
        Value::String(s) => Value::String(s.clone()),
        _ => {
            return Err(crate::error::type_error("require():An argument should be string."));
        },
    };
    vm.stack.push(file_name);
    Ok(())
}

/// The `console.log` builtin: buffer one line joining the arguments'
/// display images, and yield `undefined`.
pub fn builtin_log(vm: &mut VM, args: &[Value], _cur_frame: &Frame) -> (r: Result<
    (),
    RuntimeError,
>)
    requires
        old(vm).wf(),
    ensures
        final(vm).wf(),
        r is Ok,
        final(vm).memory_allocator@ == old(vm).memory_allocator@,
        final(vm).envs@ == old(vm).envs@,
        final(vm).constant_table@ == old(vm).constant_table@,
        final(vm).global_env == old(vm).global_env,
        final(vm).object_prototypes == old(vm).object_prototypes,
        final(vm).output@.len() == old(vm).output@.len() + 1,
        forall|i: int|
            0 <= i < old(vm).output@.len() ==> #[trigger] final(vm).output@[i] == old(
                vm,
            ).output@[i],
        final(vm).output@.last()@ == spec_log_line(vals_view(args@)),
        final(vm).stack@.len() == old(vm).stack@.len() + 1,
        forall|i: int|
            0 <= i < old(vm).stack@.len() ==> #[trigger] final(vm).stack@[i] == old(vm).stack@[i],
        final(vm).stack@.last()@ == ValueV::Undefined,
{
    let mut line = String::new();
    let n = args.len();
    let mut i: usize = 0;
    while i < n
        invariant
            i <= n,
            n == args@.len(),
            line@ == spec_log_line(vals_view(args@).take(i as int)),
        decreases n - i,
    {
        if i > 0 {
            line.append(" ");
        }
        let d = args[i].debug_string(false);
        line.append(d.as_str());
        proof {
            reveal_strlit(" ");
            let vs = vals_view(args@);
            assert(vs.take(i + 1).drop_last() =~= vs.take(i as int));
            assert(vs.take(i + 1).last() == vs[i as int]);
            assert(vs[i as int] == args@[i as int]@);
            assert(line@ =~= spec_log_line(vs.take(i + 1)));
        }
        i = i + 1;
    }
    proof {
        assert(vals_view(args@).take(n as int) =~= vals_view(args@));
    }
    vm.output.push(line);
    vm.stack.push(Value::Undefined);
    Ok(())
}

/// The `Object` constructor as a plain call: a fresh empty object.
pub fn object_constructor(vm: &mut VM, _args: &[Value], _cur_frame: &Frame) -> (r: Result<
    (),
    RuntimeError,
>)
    requires
        old(vm).wf(),
    ensures
        final(vm).wf(),
        r is Ok,
        final(vm).envs@ == old(vm).envs@,
        final(vm).constant_table@ == old(vm).constant_table@,
        final(vm).global_env == old(vm).global_env,
        final(vm).object_prototypes == old(vm).object_prototypes,
        final(vm).output@ == old(vm).output@,
        final(vm).memory_allocator@ == old(vm).memory_allocator@.push(
            crate::object::ObjV {
                kind: crate::object::ObjectKindV::Ordinary,
                prototype: Some(old(vm).object_prototypes.object as int),
                property: Seq::empty(),
            },
        ),
        final(vm).stack@.len() == old(vm).stack@.len() + 1,
        forall|i: int|
            0 <= i < old(vm).stack@.len() ==> #[trigger] final(vm).stack@[i] == old(vm).stack@[i],
        final(vm).stack@.last()@ == ValueV::Object(old(vm).memory_allocator@.len() as int),
{
    let h = vm.memory_allocator.allocate(
        ObjectInfo::ordinary(Some(vm.object_prototypes.object)),
    );
    proof {
        lemma_envs_wf_grow(env_seq(vm.envs@), old(vm).memory_allocator@, vm.memory_allocator@);
    }
    vm.stack.push(Value::Object(h));
    Ok(())
}

} // verus!
