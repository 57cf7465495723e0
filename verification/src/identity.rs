//! Runtime identities of scene entities.

use vstd::prelude::*;
use std::collections::HashSet;
use crate::source::Document;

verus! {

/// An opaque, globally unique token naming one entity of a resident scene.
/// It says nothing of where the entity came from.
pub type Identity = u128;

/// Bits of an identity that tell the kind of token.
pub const IDENTITY_KIND_MASK: u128 = 0x0000_0000_0000_f000_c000_0000_0000_0000;

/// Value of those bits in every identity that is drawn at random.
pub const IDENTITY_KIND_RANDOM: u128 = 0x0000_0000_0000_4000_8000_0000_0000_0000;

/// Draws a fresh identity.
///
/// Trusted: calls `uuid::Uuid::new_v4`, which takes 128 bits from the
/// operating system's random source, overwrites six of them to mark the
/// token as a random one, and is read back here with `Uuid::as_u128`. Only
/// those six bits are claimed; of the others two calls may return anything.
/// The call fails, with a panic, only where the operating system has no
/// random source to give.
#[verifier::external_body]
pub(crate) fn fresh_identity() -> (id: Identity)
    ensures
        id & IDENTITY_KIND_MASK == IDENTITY_KIND_RANDOM,
{
    uuid::Uuid::new_v4().as_u128()
}

/// Whether every identity of the sequence is marked as drawn at random.
pub open spec fn all_random(ids: Seq<Identity>) -> bool {
    forall|i: int|
        0 <= i < ids.len() ==> #[trigger] ids[i] & IDENTITY_KIND_MASK == IDENTITY_KIND_RANDOM
}

/// Draws `n` fresh identities.
pub fn fresh_identities(n: usize) -> (ids: Vec<Identity>)
    ensures
        ids@.len() == n,
        all_random(ids@),
{
    let mut ids: Vec<Identity> = Vec::new();
    let mut i: usize = 0;
    while i < n
        invariant
            i <= n,
            ids@.len() == i,
            all_random(ids@),
        decreases n - i,
    {
        ids.push(fresh_identity());
        i = i + 1;
    }
    ids
}

/// The identities among the first `n` of `ids`.
pub open spec fn drawn(ids: Seq<Identity>, n: int) -> Set<Identity> {
    Set::new(|id: Identity| exists|j: int| 0 <= j < n && #[trigger] ids[j] == id)
}

/// Taking one more identity adds it to the set.
pub proof fn lemma_drawn_step(ids: Seq<Identity>, n: int)
    requires
        0 <= n < ids.len(),
    ensures
        drawn(ids, n + 1) == drawn(ids, n).insert(ids[n]),
{
    assert forall|id: Identity| drawn(ids, n + 1).contains(id) implies drawn(ids, n).insert(
        ids[n],
    ).contains(id) by {
        let j = choose|j: int| 0 <= j < n + 1 && #[trigger] ids[j] == id;
        if j < n {
            assert(drawn(ids, n).contains(ids[j]));
        }
    }
    assert forall|id: Identity| drawn(ids, n).insert(ids[n]).contains(id) implies drawn(
        ids,
        n + 1,
    ).contains(id) by {
        if id == ids[n] {
            assert(drawn(ids, n + 1).contains(ids[n]));
        } else {
            let j = choose|j: int| 0 <= j < n && #[trigger] ids[j] == id;
            assert(drawn(ids, n + 1).contains(ids[j]));
        }
    }
    assert(drawn(ids, n + 1) =~= drawn(ids, n).insert(ids[n]));
}

/// The identities of a sequence that is made one longer are those of the
/// sequence and the new one.
pub proof fn lemma_drawn_push(ids: Seq<Identity>, id: Identity)
    ensures
        drawn(ids.push(id), ids.len() as int + 1) == drawn(ids, ids.len() as int).insert(id),
{
    let longer = ids.push(id);
    lemma_drawn_step(longer, ids.len() as int);
    assert forall|other: Identity| drawn(longer, ids.len() as int).contains(other) implies drawn(
        ids,
        ids.len() as int,
    ).contains(other) by {
        let j = choose|j: int| 0 <= j < ids.len() && #[trigger] longer[j] == other;
        assert(ids[j] == other);
    }
    assert forall|other: Identity| drawn(ids, ids.len() as int).contains(other) implies drawn(
        longer,
        ids.len() as int,
    ).contains(other) by {
        let j = choose|j: int| 0 <= j < ids.len() && #[trigger] ids[j] == other;
        assert(longer[j] == other);
    }
    assert(drawn(longer, ids.len() as int) =~= drawn(ids, ids.len() as int));
}

/// Whether no identity occurs twice in the sequence.
pub open spec fn all_distinct(ids: Seq<Identity>) -> bool {
    forall|i: int, j: int| 0 <= i < j < ids.len() ==> #[trigger] ids[i] != #[trigger] ids[j]
}

/// An identity that occurs twice in a sequence occurs twice in every
/// sequence that begins with it.
pub proof fn lemma_duplicate_extends(a: Seq<Identity>, b: Seq<Identity>)
    requires
        !all_distinct(a),
    ensures
        !all_distinct(a + b),
{
    let (i, j) = choose|i: int, j: int| 0 <= i < j < a.len() && #[trigger] a[i] == #[trigger] a[j];
    assert((a + b)[i] == a[i] && (a + b)[j] == a[j]);
}

/// The parts of a sequence without repetition are without repetition.
pub proof fn lemma_distinct_parts(a: Seq<Identity>, b: Seq<Identity>)
    requires
        all_distinct(a + b),
    ensures
        all_distinct(a),
        all_distinct(b),
{
    assert forall|i: int, j: int| 0 <= i < j < a.len() implies #[trigger] a[i]
        != #[trigger] a[j] by {
        assert((a + b)[i] == a[i] && (a + b)[j] == a[j]);
    }
    assert forall|i: int, j: int| 0 <= i < j < b.len() implies #[trigger] b[i]
        != #[trigger] b[j] by {
        assert((a + b)[a.len() + i] == b[i] && (a + b)[a.len() + j] == b[j]);
    }
}

/// The first `n` of a sequence of lists, one after the other.
pub open spec fn flattened(lists: Seq<Vec<Identity>>, n: nat) -> Seq<Identity>
    decreases n,
{
    if n == 0 {
        Seq::empty()
    } else {
        flattened(lists, (n - 1) as nat) + lists[n - 1]@
    }
}

/// The first lists, one after the other, begin all the lists, one after
/// the other: what follows them is returned.
pub proof fn lemma_flattened_begins(lists: Seq<Vec<Identity>>, m: nat, n: nat) -> (rest: Seq<
    Identity,
>)
    requires
        m <= n,
    ensures
        flattened(lists, n) == flattened(lists, m) + rest,
    decreases n - m,
{
    if m == n {
        assert(flattened(lists, n) =~= flattened(lists, m) + Seq::empty());
        Seq::empty()
    } else {
        let before = lemma_flattened_begins(lists, m, (n - 1) as nat);
        let rest = before + lists[n - 1]@;
        assert(flattened(lists, n) =~= flattened(lists, m) + rest);
        rest
    }
}

/// Takes the identities of `ids` into the set of those in use, and tells
/// whether all of them were new: whether `before`, the identities in use,
/// and `ids` together hold no identity twice.
fn take_all(
    used: &mut HashSet<Identity>,
    ids: &Vec<Identity>,
    Ghost(before): Ghost<Seq<Identity>>,
) -> (fresh: bool)
    requires
        old(used)@ == drawn(before, before.len() as int),
        all_distinct(before),
    ensures
        fresh == all_distinct(before + ids@),
        fresh ==> final(used)@ == drawn(before + ids@, (before + ids@).len() as int),
{
    broadcast use vstd::std_specs::hash::group_hash_axioms;

    let ghost mut so_far = before;
    let mut k: usize = 0;
    proof {
        assert(so_far =~= before + ids@.take(0));
    }
    while k < ids.len()
        invariant
            k <= ids@.len(),
            so_far == before + ids@.take(k as int),
            all_distinct(so_far),
            used@ == drawn(so_far, so_far.len() as int),
        decreases ids@.len() - k,
    {
        let id = ids[k];
        let ghost longer = so_far.push(id);
        proof {
            assert(longer =~= before + ids@.take(k + 1));
            lemma_drawn_push(so_far, id);
        }
        if used.contains(&id) {
            proof {
                let j = choose|j: int| 0 <= j < so_far.len() && #[trigger] so_far[j] == id;
                assert(longer[j] == longer[so_far.len() as int]);
                assert(before + ids@ =~= longer + ids@.skip(k + 1));
                lemma_duplicate_extends(longer, ids@.skip(k + 1));
            }
            return false;
        }
        used.insert(id);
        proof {
            assert forall|i: int, j: int| 0 <= i < j < longer.len() implies #[trigger] longer[i]
                != #[trigger] longer[j] by {
                if j < so_far.len() {
                    assert(longer[i] == so_far[i] && longer[j] == so_far[j]);
                } else {
                    assert(longer[i] == so_far[i]);
                    assert(drawn(so_far, so_far.len() as int).contains(so_far[i]));
                }
            }
            so_far = longer;
        }
        k = k + 1;
    }
    proof {
        assert(ids@.take(ids@.len() as int) =~= ids@);
    }
    true
}

/// The identities that the entities of one document are to be given:
/// one per material, mesh, primitive, node and scene, in document order.
#[derive(Clone, Debug)]
pub struct IdentityPlan {
    pub materials: Vec<Identity>,
    pub meshes: Vec<Identity>,
    /// For each mesh, the identities of its primitives.
    pub primitives: Vec<Vec<Identity>>,
    pub nodes: Vec<Identity>,
    pub scenes: Vec<Identity>,
}

impl IdentityPlan {
    /// Whether the plan holds exactly one identity per entity of `doc`.
    pub open spec fn fits(self, doc: Document) -> bool {
        &&& self.materials@.len() == doc.materials@.len()
        &&& self.meshes@.len() == doc.meshes@.len()
        &&& self.primitives@.len() == doc.meshes@.len()
        &&& forall|i: int|
            0 <= i < doc.meshes@.len() ==> (#[trigger] self.primitives@[i])@.len()
                == doc.meshes@[i].primitives@.len()
        &&& self.nodes@.len() == doc.nodes@.len()
        &&& self.scenes@.len() == doc.scenes@.len()
    }

    /// Tells whether the plan holds exactly one identity per entity of `doc`.
    pub fn is_fit(&self, doc: &Document) -> (fit: bool)
        ensures
            fit == self.fits(*doc),
    {
        if self.materials.len() != doc.materials.len() || self.meshes.len() != doc.meshes.len()
            || self.primitives.len() != doc.meshes.len() || self.nodes.len() != doc.nodes.len()
            || self.scenes.len() != doc.scenes.len() {
            return false;
        }
        let mut i: usize = 0;
        while i < doc.meshes.len()
            invariant
                i <= doc.meshes@.len(),
                self.primitives@.len() == doc.meshes@.len(),
                forall|j: int|
                    0 <= j < i ==> (#[trigger] self.primitives@[j])@.len()
                        == doc.meshes@[j].primitives@.len(),
            decreases doc.meshes@.len() - i,
        {
            if self.primitives[i].len() != doc.meshes[i].primitives.len() {
                return false;
            }
            i = i + 1;
        }
        true
    }

    /// All identities of the plan, kind after kind.
    pub open spec fn identities(self) -> Seq<Identity> {
        self.materials@ + self.meshes@ + flattened(self.primitives@, self.primitives@.len())
            + self.nodes@ + self.scenes@
    }

    /// Whether the plan gives no identity twice, be it to two entities of
    /// one kind or of two kinds: identities are unique in the whole scene.
    pub open spec fn distinct(self) -> bool {
        all_distinct(self.identities())
    }

    /// The identities of each kind are distinct where all are.
    pub proof fn lemma_kinds_distinct(self)
        requires
            self.distinct(),
        ensures
            all_distinct(self.materials@),
            all_distinct(self.meshes@),
            all_distinct(flattened(self.primitives@, self.primitives@.len())),
            all_distinct(self.nodes@),
            all_distinct(self.scenes@),
    {
        let flat = flattened(self.primitives@, self.primitives@.len());
        lemma_distinct_parts(self.materials@ + self.meshes@ + flat + self.nodes@, self.scenes@);
        lemma_distinct_parts(self.materials@ + self.meshes@ + flat, self.nodes@);
        lemma_distinct_parts(self.materials@ + self.meshes@, flat);
        lemma_distinct_parts(self.materials@, self.meshes@);
    }

    /// Tells whether the plan gives no identity twice.
    pub fn is_distinct(&self) -> (distinct: bool)
        ensures
            distinct == self.distinct(),
    {
        let ghost flat = flattened(self.primitives@, self.primitives@.len());
        let ghost first = self.materials@;
        let ghost second = first + self.meshes@;
        let ghost third = second + flat;
        let ghost fourth = third + self.nodes@;
        let mut used: HashSet<Identity> = HashSet::new();
        proof {
            assert(used@ =~= drawn(Seq::empty(), 0));
            assert(Seq::<Identity>::empty() + self.materials@ =~= first);
        }
        if !take_all(&mut used, &self.materials, Ghost(Seq::empty())) {
            proof {
                lemma_duplicate_extends(first, self.meshes@);
                lemma_duplicate_extends(second, flat);
                lemma_duplicate_extends(third, self.nodes@);
                lemma_duplicate_extends(fourth, self.scenes@);
            }
            return false;
        }
        if !take_all(&mut used, &self.meshes, Ghost(first)) {
            proof {
                lemma_duplicate_extends(second, flat);
                lemma_duplicate_extends(third, self.nodes@);
                lemma_duplicate_extends(fourth, self.scenes@);
            }
            return false;
        }
        let mut m: usize = 0;
        proof {
            assert(second + flattened(self.primitives@, 0) =~= second);
        }
        while m < self.primitives.len()
            invariant
                m <= self.primitives@.len(),
                flat == flattened(self.primitives@, self.primitives@.len()),
                second == self.materials@ + self.meshes@,
                third == second + flat,
                fourth == third + self.nodes@,
                all_distinct(second + flattened(self.primitives@, m as nat)),
                used@ == drawn(
                    second + flattened(self.primitives@, m as nat),
                    (second + flattened(self.primitives@, m as nat)).len() as int,
                ),
            decreases self.primitives@.len() - m,
        {
            let ghost before = second + flattened(self.primitives@, m as nat);
            let ghost after = second + flattened(self.primitives@, (m + 1) as nat);
            proof {
                assert(before + self.primitives@[m as int]@ =~= after);
            }
            if !take_all(&mut used, &self.primitives[m], Ghost(before)) {
                proof {
                    let rest = lemma_flattened_begins(
                        self.primitives@,
                        (m + 1) as nat,
                        self.primitives@.len(),
                    );
                    assert(third =~= after + rest);
                    lemma_duplicate_extends(after, rest);
                    lemma_duplicate_extends(third, self.nodes@);
                    lemma_duplicate_extends(fourth, self.scenes@);
                }
                return false;
            }
            m = m + 1;
        }
        if !take_all(&mut used, &self.nodes, Ghost(third)) {
            proof {
                lemma_duplicate_extends(fourth, self.scenes@);
            }
            return false;
        }
        take_all(&mut used, &self.scenes, Ghost(fourth))
    }

    /// Whether every identity of the plan is marked as drawn at random.
    pub open spec fn random(self) -> bool {
        &&& all_random(self.materials@)
        &&& all_random(self.meshes@)
        &&& forall|i: int|
            0 <= i < self.primitives@.len() ==> all_random((#[trigger] self.primitives@[i])@)
        &&& all_random(self.nodes@)
        &&& all_random(self.scenes@)
    }

    /// Draws a plan for `doc` at random.
    pub fn draw(doc: &Document) -> (plan: IdentityPlan)
        ensures
            plan.fits(*doc),
            plan.random(),
    {
        let materials = fresh_identities(doc.materials.len());
        let meshes = fresh_identities(doc.meshes.len());
        let mut primitives: Vec<Vec<Identity>> = Vec::new();
        let mut i: usize = 0;
        while i < doc.meshes.len()
            invariant
                i <= doc.meshes@.len(),
                primitives@.len() == i,
                forall|j: int|
                    0 <= j < i ==> (#[trigger] primitives@[j])@.len()
                        == doc.meshes@[j].primitives@.len(),
                forall|j: int| 0 <= j < i ==> all_random((#[trigger] primitives@[j])@),
            decreases doc.meshes@.len() - i,
        {
            primitives.push(fresh_identities(doc.meshes[i].primitives.len()));
            i = i + 1;
        }
        let nodes = fresh_identities(doc.nodes.len());
        let scenes = fresh_identities(doc.scenes.len());
        IdentityPlan { materials, meshes, primitives, nodes, scenes }
    }
}

} // verus!
