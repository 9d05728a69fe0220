//! The scene: an ordered primitive registry with an emitter count.
//!
//! Primitive indices are stable for the scene's lifetime — a hit names its
//! primitive by index — and the cached emitter count always equals the
//! number of registered primitives whose material is emissive. The
//! closest-hit query selects, among the per-primitive candidate
//! intersections the embedder computed, the one with the smallest ray
//! parameter, breaking exact ties in favor of the earlier primitive.

use crate::hit::HitRecord;
use crate::objects::SceneObject;
use crate::rng::Rng;
use vstd::prelude::*;

verus! {

/// How many primitives of `s` are emissive.
pub open spec fn count_emissive(s: Seq<SceneObject>) -> nat
    decreases s.len(),
{
    if s.len() == 0 {
        0
    } else {
        count_emissive(s.drop_last()) + if s.last().spec_is_emissive() {
            1nat
        } else {
            0nat
        }
    }
}

/// Appending one primitive raises the emissive count by one exactly when
/// the primitive is emissive.
pub proof fn lemma_count_emissive_push(s: Seq<SceneObject>, o: SceneObject)
    ensures
        count_emissive(s.push(o)) == count_emissive(s) + if o.spec_is_emissive() {
            1nat
        } else {
            0nat
        },
{
    assert(s.push(o).drop_last() =~= s);
    assert(s.push(o).last() == o);
}

/// The emissive count never exceeds the number of primitives.
pub proof fn lemma_count_emissive_le_len(s: Seq<SceneObject>)
    ensures
        count_emissive(s) <= s.len(),
    decreases s.len(),
{
    if s.len() > 0 {
        lemma_count_emissive_le_len(s.drop_last());
    }
}

/// Extending a prefix by one element adds that element's contribution.
pub proof fn lemma_count_emissive_take_step(s: Seq<SceneObject>, j: int)
    requires
        0 <= j < s.len(),
    ensures
        count_emissive(s.take(j + 1)) == count_emissive(s.take(j)) + if s[j].spec_is_emissive() {
            1nat
        } else {
            0nat
        },
{
    assert(s.take(j + 1).drop_last() =~= s.take(j));
    assert(s.take(j + 1).last() == s[j]);
}

/// A prefix never holds more emissive primitives than the whole sequence.
pub proof fn lemma_count_emissive_take_le(s: Seq<SceneObject>, j: int)
    requires
        0 <= j <= s.len(),
    ensures
        count_emissive(s.take(j)) <= count_emissive(s),
    decreases s.len() - j,
{
    if j == s.len() {
        assert(s.take(j) =~= s);
    } else {
        lemma_count_emissive_take_step(s, j);
        lemma_count_emissive_take_le(s, j + 1);
    }
}

/// An ordered sequence of primitives plus the cached number of emissive
/// ones among them.
pub struct Scene {
    name: String,
    objects: Vec<SceneObject>,
    light_count: usize,
}

impl Scene {
    /// The registered primitives, in insertion order.
    pub closed spec fn spec_objects(self) -> Seq<SceneObject> {
        self.objects@
    }

    /// The scene's name.
    pub closed spec fn spec_name(self) -> Seq<char> {
        self.name@
    }

    /// The number of emissive primitives.
    pub open spec fn spec_light_count(self) -> nat {
        count_emissive(self.spec_objects())
    }

    /// The cached emitter count agrees with the registry.
    pub closed spec fn wf(self) -> bool {
        self.light_count == count_emissive(self.objects@)
    }

    /// An empty scene with the given name.
    pub fn new(name: String) -> (r: Scene)
        ensures
            r.wf(),
            r.spec_objects() == Seq::<SceneObject>::empty(),
            r.spec_name() == name@,
    {
        Scene { name, objects: Vec::new(), light_count: 0 }
    }

    /// Returns the scene's name.
    pub fn name(&self) -> (n: &String)
        ensures
            n@ == self.spec_name(),
    {
        &self.name
    }

    /// Registers one primitive at the next index, keeping the emitter count
    /// exact.
    pub fn add_object(&mut self, object: SceneObject)
        requires
            old(self).wf(),
            old(self).spec_objects().len() < usize::MAX,
        ensures
            final(self).wf(),
            final(self).spec_objects() == old(self).spec_objects().push(object),
            final(self).spec_name() == old(self).spec_name(),
    {
        proof {
            lemma_count_emissive_le_len(self.objects@);
            lemma_count_emissive_push(self.objects@, object);
        }
        if object.is_emissive() {
            self.light_count = self.light_count + 1;
        }
        self.objects.push(object);
    }

    /// Returns the cached number of emissive primitives.
    pub fn light_count(&self) -> (n: usize)
        requires
            self.wf(),
        ensures
            n == self.spec_light_count(),
    {
        self.light_count
    }

    /// Returns the primitive registry.
    pub fn objects(&self) -> (v: &Vec<SceneObject>)
        ensures
            v@ == self.spec_objects(),
    {
        &self.objects
    }

    /// Selects the `k`-th emissive primitive, in insertion order. Together
    /// with a uniform draw of `k` below the emitter count this is the
    /// uniform emitter selection of next-event estimation. Returns `None`
    /// exactly when fewer than `k + 1` emitters exist.
    pub fn pick_light(&self, k: usize) -> (r: Option<usize>)
        requires
            self.wf(),
        ensures
            r is Some <==> k < self.spec_light_count(),
            r is Some ==> {
                let i = r->Some_0;
                &&& i < self.spec_objects().len()
                &&& self.spec_objects()[i as int].spec_is_emissive()
                &&& count_emissive(self.spec_objects().take(i as int)) == k
            },
    {
        let ghost s = self.objects@;
        let mut i: usize = 0;
        let mut seen: usize = 0;
        while i < self.objects.len()
            invariant
                0 <= i <= s.len(),
                s == self.objects@,
                seen == count_emissive(s.take(i as int)),
                seen <= k,
            decreases s.len() - i,
        {
            proof {
                lemma_count_emissive_take_step(s, i as int);
            }
            if self.objects[i].is_emissive() {
                if seen == k {
                    proof {
                        lemma_count_emissive_take_le(s, i + 1);
                    }
                    return Some(i);
                }
                seen = seen + 1;
            }
            i = i + 1;
        }
        proof {
            assert(s.take(s.len() as int) =~= s);
        }
        None
    }

    /// Selects one emissive primitive uniformly at random from the given
    /// pixel's stream, as next-event estimation requires: one draw is
    /// reduced modulo the emitter count and the emitter of that rank is
    /// returned. Returns `None`, leaving the stream untouched, exactly
    /// when the scene has no emitter.
    pub fn choose_light(&self, rng: &mut Rng) -> (r: Option<usize>)
        requires
            self.wf(),
        ensures
            r is Some <==> self.spec_light_count() > 0,
            self.spec_light_count() == 0 ==> final(rng).spec_state() == old(rng).spec_state(),
            self.spec_light_count() > 0 ==> {
                let drawn = vstd::wrapping::u64_specs::wrapping_add(
                    old(rng).spec_state(),
                    crate::rng::GOLDEN_GAMMA,
                );
                let k = crate::rng::spec_mix64(drawn) % (self.spec_light_count() as u64);
                let i = r->Some_0;
                &&& final(rng).spec_state() == drawn
                &&& i < self.spec_objects().len()
                &&& self.spec_objects()[i as int].spec_is_emissive()
                &&& count_emissive(self.spec_objects().take(i as int)) == k
            },
    {
        let n = self.light_count();
        if n == 0 {
            return None;
        }
        let k = rng.next_below(n as u64);
        self.pick_light(k as usize)
    }

    /// Closest-hit selection. `candidates[i]` is the embedder's
    /// intersection of the ray with primitive `i` over the full `t` range,
    /// or `None` where the primitive is missed. The result is the candidate
    /// with the smallest ray parameter; on an exact tie the earlier
    /// primitive wins. Since every candidate's `t` is a positive finite
    /// float pattern, the unsigned order used here is exactly the float
    /// order (`fbits::lemma_lt_pos_finite_is_bit_lt`).
    pub fn hit(&self, candidates: &Vec<Option<HitRecord>>) -> (r: Option<HitRecord>)
        requires
            candidates@.len() == self.spec_objects().len(),
            forall|i: int|
                0 <= i < candidates@.len() && candidates@[i] is Some ==> (#[trigger] candidates@[i])->Some_0.wf()
                    && candidates@[i]->Some_0.object_index == i,
        ensures
            (r is None) <==> (forall|i: int| 0 <= i < candidates@.len() ==> candidates@[i] is None),
            r is Some ==> {
                let h = r->Some_0;
                &&& h.wf()
                &&& h.object_index < candidates@.len()
                &&& candidates@[h.object_index as int] == Some(h)
                &&& forall|j: int|
                    0 <= j < candidates@.len() && candidates@[j] is Some ==> h.t <= (
                    #[trigger] candidates@[j])->Some_0.t
                &&& forall|j: int|
                    0 <= j < h.object_index && candidates@[j] is Some ==> h.t < (
                    #[trigger] candidates@[j])->Some_0.t
            },
    {
        let mut best: Option<HitRecord> = None;
        let mut idx: usize = 0;
        while idx < candidates.len()
            invariant
                0 <= idx <= candidates@.len(),
                forall|i: int|
                    0 <= i < candidates@.len() && candidates@[i] is Some ==> (
                    #[trigger] candidates@[i])->Some_0.wf() && candidates@[i]->Some_0.object_index
                        == i,
                (best is None) <==> (forall|i: int| 0 <= i < idx ==> candidates@[i] is None),
                best is Some ==> {
                    let h = best->Some_0;
                    &&& h.object_index < idx
                    &&& candidates@[h.object_index as int] == Some(h)
                    &&& forall|j: int|
                        0 <= j < idx && candidates@[j] is Some ==> h.t <= (
                        #[trigger] candidates@[j])->Some_0.t
                    &&& forall|j: int|
                        0 <= j < h.object_index && candidates@[j] is Some ==> h.t < (
                        #[trigger] candidates@[j])->Some_0.t
                },
            decreases candidates@.len() - idx,
        {
            if let Some(h) = candidates[idx] {
                let take_it = match &best {
                    None => true,
                    Some(b) => h.t < b.t,
                };
                if take_it {
                    best = Some(h);
                }
            }
            idx = idx + 1;
        }
        best
    }
}

} // verus!
