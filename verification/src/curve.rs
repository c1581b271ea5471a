//! Curves: numeric properties that change over the course of a video.

use vstd::prelude::*;
use std::collections::HashMap;
use crate::external_program::{ExternalProgram, ExternalProgramV};

verus! {

/// A number as the project file writes it. Its value is read from this text where
/// the number is used.
pub struct Number {
    pub text: String,
}

impl View for Number {
    type V = Seq<char>;

    open spec fn view(&self) -> Seq<char> {
        self.text@
    }
}

impl Number {
    /// The number written as `text`.
    pub fn from_text(text: &str) -> (r: Number)
        ensures
            r@ == text@,
    {
        Number { text: text.to_string() }
    }

    /// The number written as `text`.
    pub fn new(text: String) -> (r: Number)
        ensures
            r@ == text@,
    {
        Number { text }
    }
}

impl Clone for Number {
    fn clone(&self) -> (r: Number)
        ensures
            r == *self,
    {
        Number { text: self.text.clone() }
    }
}

/// The abstract value of a curve.
pub enum CurveV {
    Owned(CurveDataV),
    Shared(u64, CurveDataV),
}

/// The abstract value of a curve's data.
pub enum CurveDataV {
    Constant(Seq<char>),
    Linear(Box<CurveV>, Box<CurveV>),
    SmoothFlat(Box<CurveV>, Box<CurveV>),
    Chain(Seq<(CurveV, Seq<char>)>),
    Program(ExternalProgramV, CurveExternalProgramMode),
}

/// A curve, either owned by the property that uses it, or a copy of a curve that the
/// project shares between properties under an id.
pub enum Curve {
    Owned(Box<CurveData>),
    Shared(u64, Box<CurveData>),
}

/// How a curve's value is computed from the progress.
pub enum CurveData {
    /// Always has the same value.
    Constant(Number),
    /// Linearly goes from the first curve to the second.
    Linear(Curve, Curve),
    /// Goes smoothly from the first curve to the second, flat at both ends.
    SmoothFlat(Curve, Curve),
    /// Several curves one after another; each number is where its curve starts.
    Chain(Vec<(Curve, Number)>),
    /// Asks an external program for the value.
    Program(ExternalProgram, CurveExternalProgramMode),
}

#[derive(Clone, Copy, PartialEq, Eq, Structural, Debug)]
pub enum CurveExternalProgramMode {
    String,
}

impl View for Curve {
    type V = CurveV;

    open spec fn view(&self) -> CurveV
        decreases self,
    {
        match self {
            Curve::Owned(d) => CurveV::Owned(curve_data_view(d)),
            Curve::Shared(id, d) => CurveV::Shared(*id, curve_data_view(d)),
        }
    }
}

pub open spec fn curve_data_view(d: &CurveData) -> CurveDataV
    decreases d,
{
    match d {
        CurveData::Constant(n) => CurveDataV::Constant(n@),
        CurveData::Linear(a, b) => CurveDataV::Linear(Box::new(a@), Box::new(b@)),
        CurveData::SmoothFlat(a, b) => CurveDataV::SmoothFlat(Box::new(a@), Box::new(b@)),
        CurveData::Chain(v) => CurveDataV::Chain(
            Seq::new(
                v@.len(),
                |i: int|
                    if 0 <= i < v@.len() {
                        (v@[i].0@, v@[i].1@)
                    } else {
                        arbitrary()
                    },
            ),
        ),
        CurveData::Program(p, m) => CurveDataV::Program(p@, *m),
    }
}

impl View for CurveData {
    type V = CurveDataV;

    open spec fn view(&self) -> CurveDataV {
        curve_data_view(self)
    }
}

impl Clone for Curve {
    fn clone(&self) -> (r: Curve)
        ensures
            r@ == self@,
        decreases self,
    {
        match self {
            Curve::Owned(d) => Curve::Owned(Box::new(clone_curve_data(d))),
            Curve::Shared(id, d) => Curve::Shared(*id, Box::new(clone_curve_data(d))),
        }
    }
}

/// A copy of `d`.
#[verifier::loop_isolation(false)]
pub fn clone_curve_data(d: &CurveData) -> (r: CurveData)
    ensures
        r@ == d@,
    decreases d,
{
    match d {
        CurveData::Constant(a) => CurveData::Constant(a.clone()),
        CurveData::Linear(a, b) => CurveData::Linear(a.clone(), b.clone()),
        CurveData::SmoothFlat(a, b) => CurveData::SmoothFlat(a.clone(), b.clone()),
        CurveData::Chain(a) => {
            let mut nvec: Vec<(Curve, Number)> = Vec::with_capacity(a.len());
            let mut i: usize = 0;
            while i < a.len()
                invariant
                    i <= a.len(),
                    nvec@.len() == i,
                    forall|j: int| 0 <= j < i ==> (#[trigger] nvec@[j]).0@ == a@[j].0@ && nvec@[j].1@ == a@[j].1@,
                decreases a.len() - i,
            {
                let b = &a[i];
                assert(decreases_to!(d => a@[i as int].0));
                nvec.push((b.0.clone(), b.1.clone()));
                i = i + 1;
            }
            let r = CurveData::Chain(nvec);
            assert(curve_data_view(&r) == curve_data_view(d)) by {
                assert(nvec@.len() == a@.len());
                let s1 = Seq::new(
                    nvec@.len(),
                    |i: int| if 0 <= i < nvec@.len() { (nvec@[i].0@, nvec@[i].1@) } else { arbitrary() },
                );
                let s2 = Seq::new(
                    a@.len(),
                    |i: int| if 0 <= i < a@.len() { (a@[i].0@, a@[i].1@) } else { arbitrary() },
                );
                assert forall|j: int| 0 <= j < a@.len() implies s1[j] == s2[j] by {
                    assert(nvec@[j].0@ == a@[j].0@ && nvec@[j].1@ == a@[j].1@);
                }
                let v1 = curve_data_view(&r)->Chain_0;
                let v2 = curve_data_view(d)->Chain_0;
                assert(v1.len() == v2.len());
                assert forall|j: int| 0 <= j < v1.len() implies v1[j] == v2[j] by {
                    assert(v1[j] == s1[j]);
                    assert(v2[j] == s2[j]);
                }
                assert(v1 =~= v2);
                assert(Seq::new(
                    nvec@.len(),
                    |i: int| if 0 <= i < nvec@.len() { (nvec@[i].0@, nvec@[i].1@) } else { arbitrary() },
                ) =~= Seq::new(
                    a@.len(),
                    |i: int| if 0 <= i < a@.len() { (a@[i].0@, a@[i].1@) } else { arbitrary() },
                ));
            }
            r
        },
        CurveData::Program(p, m) => CurveData::Program(p.clone(), *m),
    }
}

impl Clone for CurveData {
    fn clone(&self) -> (r: CurveData)
        ensures
            r@ == self@,
    {
        clone_curve_data(self)
    }
}

impl From<CurveData> for Curve {
    fn from(value: CurveData) -> (r: Curve) {
        Curve::Owned(Box::new(value))
    }
}

impl vstd::std_specs::convert::FromSpecImpl<CurveData> for Curve {
    open spec fn obeys_from_spec() -> bool {
        true
    }

    open spec fn from_spec(value: CurveData) -> Curve {
        Curve::Owned(Box::new(value))
    }
}

impl Curve {
    /// A curve that owns `data`.
    pub fn owned(data: CurveData) -> (r: Curve)
        ensures
            r@ == CurveV::Owned(data@),
    {
        Curve::Owned(Box::new(data))
    }

    /// A constant curve with the value written as `text`.
    pub fn constant(text: &str) -> (r: Curve)
        ensures
            r@ == CurveV::Owned(CurveDataV::Constant(text@)),
    {
        Curve::Owned(Box::new(CurveData::Constant(Number::from_text(text))))
    }

    /// Whether the curve is owned by the property that uses it.
    pub fn is_owned(&self) -> (r: bool)
        ensures
            r == (self@ is Owned),
    {
        if let Curve::Owned(_) = self {
            true
        } else {
            false
        }
    }

    /// Replaces the data of a shared curve by the project's current data for its id.
    pub fn update(&mut self, shared_curves: &SharedCurves)
        requires
            old(self)@ matches CurveV::Shared(id, _) ==> shared_curves@.contains_key(id),
        ensures
            match old(self)@ {
                CurveV::Owned(_) => final(self)@ == old(self)@,
                CurveV::Shared(id, _) => final(self)@ == CurveV::Shared(id, shared_curves@[id]),
            },
    {
        if let Curve::Shared(id, data) = self {
            let fresh = shared_curves.get(id);
            match fresh {
                Some(v) => {
                    *data = Box::new(v);
                },
                None => {},
            }
        }
    }

    /// Turns an owned curve into a shared one: its data is added to the shared curves
    /// under a new id. A shared curve stays as it is.
    pub fn to_shared(&mut self, shared_curves: &mut SharedCurves)
        requires
            old(shared_curves).wf(),
            old(shared_curves).ids_used() < u64::MAX,
        ensures
            final(shared_curves).wf(),
            match old(self)@ {
                CurveV::Owned(d) => {
                    &&& final(self)@ matches CurveV::Shared(id, d2)
                    &&& d2 == d
                    &&& !old(shared_curves)@.contains_key(id)
                    &&& final(shared_curves)@ == old(shared_curves)@.insert(id, d)
                },
                CurveV::Shared(_, _) => final(self)@ == old(self)@ && final(shared_curves)@ == old(shared_curves)@,
            },
    {
        let new_self = match self {
            Curve::Owned(curve) => {
                let id = shared_curves.insert(clone_curve_data(curve));
                Some(Curve::Shared(id, Box::new(clone_curve_data(curve))))
            },
            Curve::Shared(_, _) => None,
        };
        if let Some(c) = new_self {
            *self = c;
        }
    }
}

/// The curves that the project shares between properties, each under an id.
pub struct SharedCurves {
    curves: HashMap<u64, CurveData>,
    free_ids: Vec<u64>,
}

impl View for SharedCurves {
    type V = Map<u64, CurveDataV>;

    closed spec fn view(&self) -> Map<u64, CurveDataV> {
        Map::new(|k: u64| self.curves@.contains_key(k), |k: u64| self.curves@[k]@)
    }
}

impl SharedCurves {
    /// The ids in use and the ids kept for reuse together make up `0..n`, and none is both.
    pub closed spec fn wf(&self) -> bool {
        let n = self.curves@.len() + self.free_ids@.len();
        &&& n <= u64::MAX
        &&& forall|k: u64| #[trigger] self.curves@.contains_key(k) ==> k < n
        &&& forall|k: u64| #[trigger] self.curves@.contains_key(k) ==> !self.free_ids@.contains(k)
        &&& forall|i: int| 0 <= i < self.free_ids@.len() ==> (#[trigger] self.free_ids@[i]) < n
        &&& forall|i: int, j: int| 0 <= i < j < self.free_ids@.len() ==> self.free_ids@[i] != self.free_ids@[j]
        &&& forall|k: u64| k < n ==> #[trigger] self.curves@.contains_key(k) || self.free_ids@.contains(k)
    }

    /// How many ids were ever handed out.
    pub closed spec fn ids_used(&self) -> nat {
        self.curves@.len() + self.free_ids@.len()
    }

    /// The ids that were freed and are kept for reuse, the next one to reuse last.
    pub closed spec fn free_ids(&self) -> Seq<u64> {
        self.free_ids@
    }

    /// No shared curves.
    pub fn new() -> (r: SharedCurves)
        ensures
            r.wf(),
            r@ == Map::<u64, CurveDataV>::empty(),
            r.free_ids() == Seq::<u64>::empty(),
    {
        let r = SharedCurves { curves: HashMap::new(), free_ids: Vec::new() };
        assert(r@ =~= Map::<u64, CurveDataV>::empty());
        r
    }

    /// A copy of the curve stored under `id`.
    pub fn get(&self, id: &u64) -> (r: Option<CurveData>)
        ensures
            match r {
                Some(c) => self@.contains_key(*id) && c@ == self@[*id],
                None => !self@.contains_key(*id),
            },
    {
        broadcast use vstd::std_specs::hash::group_hash_axioms;
        match self.curves.get(id) {
            Some(v) => Some(clone_curve_data(v)),
            None => None,
        }
    }

    /// Stores `curve` under an id that was not in use and returns that id. An id kept
    /// for reuse is taken first; otherwise the next id after all the others.
    pub fn insert(&mut self, curve: CurveData) -> (id: u64)
        requires
            old(self).wf(),
            old(self).ids_used() < u64::MAX,
        ensures
            final(self).wf(),
            !old(self)@.contains_key(id),
            final(self)@ == old(self)@.insert(id, curve@),
            old(self).free_ids().len() > 0 ==> id == old(self).free_ids().last()
                && final(self).free_ids() == old(self).free_ids().drop_last(),
            old(self).free_ids().len() == 0 ==> id == old(self)@.len()
                && final(self).free_ids() == old(self).free_ids(),
    {
        broadcast use vstd::std_specs::hash::group_hash_axioms;
        let ghost n = self.curves@.len() + self.free_ids@.len();
        let ghost old_free = self.free_ids@;
        let ghost old_curves = self.curves@;
        let id = match self.free_ids.pop() {
            Some(id) => {
                assert(old_free[old_free.len() - 1] == id);
                assert(old_free.contains(id));
                assert(!old_curves.contains_key(id));
                id
            },
            None => {
                assert(old_free.len() == 0);
                let l = self.curves.len();
                assert(l == old_curves.len());
                assert(old(self)@.dom() =~= old_curves.dom());
                proof {
                    if old_curves.contains_key(l as u64) {
                        assert(old(self).wf());
                        assert(old(self).curves@.contains_key(l as u64));
                        assert((l as u64) < old(self).curves@.len() + old(self).free_ids@.len());
                    }
                }
                l as u64
            },
        };
        assert(!old_curves.contains_key(id));
        self.curves.insert(id, curve);
        assert(self.curves@.dom() =~= old_curves.dom().insert(id));
        assert(self.curves@.len() == old_curves.len() + 1);
        assert(self@ =~= old(self)@.insert(id, curve@));
        assert forall|k: u64| k < n + (if old_free.len() == 0 { 1int } else { 0int }) implies
            self.curves@.contains_key(k) || self.free_ids@.contains(k) by {
            if k != id && k < n {
                if !old_curves.contains_key(k) {
                    assert(old_free.contains(k));
                    let j = choose|j: int| 0 <= j < old_free.len() && old_free[j] == k;
                    assert(j != old_free.len() - 1);
                    assert(self.free_ids@[j] == k);
                }
            }
        }
        assert forall|k: u64| self.curves@.contains_key(k) implies !self.free_ids@.contains(k) by {
            if self.free_ids@.contains(k) {
                let j = choose|j: int| 0 <= j < self.free_ids@.len() && self.free_ids@[j] == k;
                assert(old_free[j] == k);
                if k == id {
                    assert(old_free[old_free.len() - 1] == id);
                }
            }
        }
        id
    }
}

/// What `SharedCurves::insert` stores under an id is what `SharedCurves::get` gives
/// back for it; every other id keeps what it had.
pub proof fn lemma_shared_curves_read_back(before: Map<u64, CurveDataV>, id: u64, d: CurveDataV, other: u64)
    ensures
        before.insert(id, d).contains_key(id),
        before.insert(id, d)[id] == d,
        other != id ==> before.insert(id, d).contains_key(other) == before.contains_key(other),
        other != id && before.contains_key(other) ==> before.insert(id, d)[other] == before[other],
{
}

/// A curve that `Curve::to_shared` made shared (the curve `shared_curve`, the shared
/// curves `after`) meets what `Curve::update` asks and stays as it is when `update`
/// refreshes it from those shared curves.
pub proof fn lemma_update_after_to_shared(
    owned: CurveDataV,
    before: Map<u64, CurveDataV>,
    after: Map<u64, CurveDataV>,
    shared_curve: CurveV,
    id: u64,
)
    requires
        shared_curve == CurveV::Shared(id, owned),
        after == before.insert(id, owned),
    ensures
        after.contains_key(id),
        CurveV::Shared(id, after[id]) == shared_curve,
{
}

} // verus!
