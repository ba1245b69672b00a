//! Model of the consumed scene-graph and asset-store interfaces: a flat
//! store of entity records with a closed set of role tags, and append-only
//! stores of mesh and material descriptions.
//!
//! The host owns the real scene; this subsystem works against these records:
//! it creates and destroys the overlay subtree, looks cameras up by role tag
//! (with the single-match convention: zero or several matches yield no
//! value), and writes the overlay root's local transform. Finalized world
//! transforms are written into the records by the host's propagation phase
//! before the sync operation runs.

use vstd::prelude::*;

use crate::math::{Mat4Bits, QuatBits, Vec3Bits};

verus! {

/// Marks the overlay subtree's root entity.
#[derive(Clone, Copy, PartialEq, Eq, Structural, Debug)]
pub struct WorldAxesTag;

/// Marks the camera whose viewport anchors the overlay's position.
#[derive(Clone, Copy, PartialEq, Eq, Structural, Debug)]
pub struct WorldAxesPositionTag;

/// Marks the camera whose orientation the overlay counter-rotates against.
#[derive(Clone, Copy, PartialEq, Eq, Structural, Debug)]
pub struct WorldAxesRotationTag;

/// A local transform: translation, rotation and a per-axis scale.
#[derive(Clone, Copy, PartialEq, Eq, Structural, Debug)]
pub struct Transform3 {
    pub translation: Vec3Bits,
    pub rotation: QuatBits,
    pub scale: Vec3Bits,
}

/// One entity of the modeled scene graph.
#[derive(Clone, Copy, Debug)]
pub struct EntityRecord {
    /// Identity, unique within a scene and never reused.
    pub id: u64,
    /// The owning entity, for subtree destruction.
    pub parent: Option<u64>,
    /// Local transform, the part this subsystem writes.
    pub transform: Transform3,
    /// Finalized world matrix (camera-to-world for cameras), written by the
    /// host's transform propagation.
    pub global_matrix: Mat4Bits,
    /// Finalized world rotation, written by the host's transform propagation.
    pub global_rotation: QuatBits,
    /// Projection matrix; present exactly on camera entities.
    pub projection: Option<Mat4Bits>,
    /// Handle into the mesh store.
    pub mesh: Option<usize>,
    /// Handle into the material store.
    pub material: Option<usize>,
    pub overlay_tag: Option<WorldAxesTag>,
    pub position_tag: Option<WorldAxesPositionTag>,
    pub rotation_tag: Option<WorldAxesRotationTag>,
}

/// A camera that supplies the overlay's screen anchor: a tagged camera.
pub open spec fn is_position_source(e: EntityRecord) -> bool {
    e.projection is Some && e.position_tag is Some
}

/// A camera that supplies the overlay's counter-rotation: a tagged camera.
pub open spec fn is_rotation_source(e: EntityRecord) -> bool {
    e.projection is Some && e.rotation_tag is Some
}

/// The overlay root itself: a tagged non-camera entity.
pub open spec fn is_overlay_target(e: EntityRecord) -> bool {
    e.projection is None && e.overlay_tag is Some
}

/// Membership in the subtree rooted at `root`, for a scene that nests at
/// most one level deep below `root`.
pub open spec fn in_subtree(root: u64, e: EntityRecord) -> bool {
    e.id == root || e.parent == Some(root)
}

/// The predicate that keeps an entity when the subtree at `root` is
/// destroyed.
pub open spec fn survives(root: u64) -> spec_fn(EntityRecord) -> bool {
    |e: EntityRecord| !in_subtree(root, e)
}

/// How many records of `s` satisfy `pred`.
pub open spec fn count_matches(s: Seq<EntityRecord>, pred: spec_fn(EntityRecord) -> bool) -> nat
    decreases s.len(),
{
    if s.len() == 0 {
        0
    } else {
        count_matches(s.drop_last(), pred) + if pred(s.last()) {
            1nat
        } else {
            0nat
        }
    }
}

/// A sequence with a matching record has at least one match.
pub proof fn lemma_match_count_one(
    s: Seq<EntityRecord>,
    pred: spec_fn(EntityRecord) -> bool,
    a: int,
)
    requires
        0 <= a < s.len(),
        pred(s[a]),
    ensures
        count_matches(s, pred) >= 1,
    decreases s.len(),
{
    if a < s.len() - 1 {
        lemma_match_count_one(s.drop_last(), pred, a);
    }
}

/// A sequence with two distinct matching records has at least two matches.
pub proof fn lemma_two_matches(
    s: Seq<EntityRecord>,
    pred: spec_fn(EntityRecord) -> bool,
    a: int,
    b: int,
)
    requires
        0 <= a < b < s.len(),
        pred(s[a]),
        pred(s[b]),
    ensures
        count_matches(s, pred) >= 2,
    decreases s.len(),
{
    if b == s.len() - 1 {
        lemma_match_count_one(s.drop_last(), pred, a);
    } else {
        lemma_two_matches(s.drop_last(), pred, a, b);
    }
}

/// With exactly one match, any two matching indices coincide.
pub proof fn lemma_single_match(
    s: Seq<EntityRecord>,
    pred: spec_fn(EntityRecord) -> bool,
    a: int,
    b: int,
)
    requires
        count_matches(s, pred) == 1,
        0 <= a < s.len(),
        0 <= b < s.len(),
        pred(s[a]),
        pred(s[b]),
    ensures
        a == b,
{
    if a < b {
        lemma_two_matches(s, pred, a, b);
    } else if b < a {
        lemma_two_matches(s, pred, b, a);
    }
}

/// The position-source predicate as a value, so contracts and callers speak
/// of one and the same function.
pub open spec fn position_source_pred() -> spec_fn(EntityRecord) -> bool {
    |e: EntityRecord| is_position_source(e)
}

/// The rotation-source predicate as a value.
pub open spec fn rotation_source_pred() -> spec_fn(EntityRecord) -> bool {
    |e: EntityRecord| is_rotation_source(e)
}

/// The overlay-target predicate as a value.
pub open spec fn overlay_target_pred() -> spec_fn(EntityRecord) -> bool {
    |e: EntityRecord| is_overlay_target(e)
}

/// The camera and overlay roles an entity can be looked up by.
#[derive(Clone, Copy, PartialEq, Eq, Structural, Debug)]
pub enum Role {
    PositionSource,
    RotationSource,
    OverlayTarget,
}

/// The predicate a role stands for.
pub open spec fn role_pred(role: Role) -> spec_fn(EntityRecord) -> bool {
    match role {
        Role::PositionSource => position_source_pred(),
        Role::RotationSource => rotation_source_pred(),
        Role::OverlayTarget => overlay_target_pred(),
    }
}

/// The modeled scene graph: records in creation order, and the next fresh
/// identity.
pub struct SceneWorld {
    pub entities: Vec<EntityRecord>,
    pub next_id: u64,
}

impl SceneWorld {
    /// Well-formedness: identities strictly increase in creation order (so
    /// they are unique), stay below the next fresh one, and every parent is
    /// an earlier entity.
    pub open spec fn wf(self) -> bool {
        let s = self.entities@;
        &&& forall|i: int, j: int|
            0 <= i < j < s.len() ==> #[trigger] s[i].id < #[trigger] s[j].id
        &&& forall|i: int| 0 <= i < s.len() ==> #[trigger] s[i].id < self.next_id
        &&& forall|i: int|
            0 <= i < s.len() && #[trigger] s[i].parent is Some ==> exists|j: int|
                0 <= j < i && #[trigger] s[j].id == s[i].parent->0
    }

    /// An empty scene.
    pub fn new() -> (r: SceneWorld)
        ensures
            r.wf(),
            r.entities@ =~= Seq::<EntityRecord>::empty(),
            r.next_id == 0,
    {
        SceneWorld { entities: Vec::new(), next_id: 0 }
    }

    /// Creates an entity from `e` under a fresh identity and returns that
    /// identity. The record's own `id` field is ignored and replaced.
    pub fn spawn(&mut self, e: EntityRecord) -> (id: u64)
        requires
            old(self).wf(),
            old(self).next_id < u64::MAX,
            e.parent is Some ==> exists|j: int|
                0 <= j < old(self).entities@.len() && #[trigger] old(self).entities@[j].id
                    == e.parent->0,
        ensures
            final(self).wf(),
            id == old(self).next_id,
            final(self).next_id == old(self).next_id + 1,
            final(self).entities@ == old(self).entities@.push(
                EntityRecord { id: old(self).next_id, ..e },
            ),
    {
        let id = self.next_id;
        let rec = EntityRecord { id, ..e };
        self.entities.push(rec);
        self.next_id = self.next_id + 1;
        proof {
            let s = old(self).entities@;
            let s2 = self.entities@;
            assert forall|i: int, j: int| 0 <= i < j < s2.len() implies #[trigger] s2[i].id
                < #[trigger] s2[j].id by {
                if j < s.len() as int {
                } else {
                    assert(s2[j].id == old(self).next_id);
                }
            }
            assert forall|i: int|
                0 <= i < s2.len() && #[trigger] s2[i].parent is Some implies exists|j: int|
                0 <= j < i && #[trigger] s2[j].id == s2[i].parent->0 by {
                if i < s.len() {
                    let j = choose|j: int| 0 <= j < i && #[trigger] s[j].id == s[i].parent->0;
                    assert(s2[j].id == s2[i].parent->0);
                } else {
                    let j = choose|j: int|
                        0 <= j < s.len() && #[trigger] s[j].id == e.parent->0;
                    assert(s2[j].id == s2[i].parent->0);
                }
            }
        }
        id
    }

    /// Looks up the entity carrying `role`, under the single-match
    /// convention: when zero or several entities carry the role, the lookup
    /// yields no value.
    pub fn find_single(&self, role: Role) -> (r: Option<usize>)
        ensures
            (r is Some) <==> count_matches(self.entities@, role_pred(role)) == 1,
            r matches Some(i) ==> i < self.entities@.len() && role_pred(role)(
                self.entities@[i as int],
            ),
    {
        let ghost s = self.entities@;
        let mut found: usize = 0;
        let mut n: usize = 0;
        let mut i: usize = 0;
        while i < self.entities.len()
            invariant
                i <= s.len(),
                n <= i,
                self.entities@ == s,
                n == count_matches(s.take(i as int), role_pred(role)),
                n > 0 ==> found < i && role_pred(role)(s[found as int]),
            decreases s.len() - i,
        {
            let e = &self.entities[i];
            let m = match role {
                Role::PositionSource => e.projection.is_some() && e.position_tag.is_some(),
                Role::RotationSource => e.projection.is_some() && e.rotation_tag.is_some(),
                Role::OverlayTarget => e.projection.is_none() && e.overlay_tag.is_some(),
            };
            proof {
                assert(s.take(i + 1).drop_last() =~= s.take(i as int));
                assert(s.take(i + 1).last() == s[i as int]);
                assert(m == role_pred(role)(s[i as int]));
            }
            if m {
                if n == 0 {
                    found = i;
                }
                n = n + 1;
            }
            i = i + 1;
        }
        proof {
            assert(s.take(s.len() as int) =~= s);
        }
        if n == 1 {
            Some(found)
        } else {
            None
        }
    }

    /// Destroys the entity `root` and all its descendants, leaving every
    /// other record as it was, in order. The scene may nest at most one
    /// level below `root`: nothing may be parented to a child of `root`.
    pub fn despawn_recursive(&mut self, root: u64)
        requires
            old(self).wf(),
            forall|i: int, j: int|
                0 <= i < old(self).entities@.len() && 0 <= j < old(self).entities@.len()
                    && #[trigger] old(self).entities@[i].parent == Some(root) ==> #[trigger] old(
                    self,
                ).entities@[j].parent != Some(old(self).entities@[i].id),
        ensures
            final(self).wf(),
            final(self).next_id == old(self).next_id,
            final(self).entities@ == old(self).entities@.filter(survives(root)),
    {
        let ghost s0 = self.entities@;
        let mut kept: Vec<EntityRecord> = Vec::new();
        let mut i: usize = 0;
        while i < self.entities.len()
            invariant
                0 <= i <= s0.len(),
                self.entities@ == s0,
                kept@ == s0.take(i as int).filter(survives(root)),
            decreases s0.len() - i,
        {
            let e = self.entities[i];
            let keep = match e.parent {
                Option::Some(p) => e.id != root && p != root,
                Option::None => e.id != root,
            };
            proof {
                assert(s0.take(i + 1).drop_last() =~= s0.take(i as int));
                assert(s0.take(i + 1).last() == s0[i as int]);
                reveal_with_fuel(Seq::filter, 2);
                assert(keep == (survives(root))(s0[i as int]));
            }
            if keep {
                kept.push(e);
            }
            i = i + 1;
        }
        proof {
            assert(s0.take(s0.len() as int) =~= s0);
        }
        self.entities = kept;
        proof {
            let s2 = self.entities@;
            let pred = survives(root);
            assert forall|a: int, b: int| 0 <= a < b < s2.len() implies #[trigger] s2[a].id
                < #[trigger] s2[b].id by {
                lemma_filter_keeps_order(s0, pred, a, b);
            }
            assert forall|a: int| 0 <= a < s2.len() implies #[trigger] s2[a].id < self.next_id by {
                assert(s2.contains(s2[a]));
                s0.lemma_filter_contains_rev(pred, s2[a]);
                let oi = choose|oi: int| 0 <= oi < s0.len() && s0[oi] == s2[a];
                assert(s0[oi].id < old(self).next_id);
            }
            assert forall|a: int|
                0 <= a < s2.len() && #[trigger] s2[a].parent is Some implies exists|b: int|
                0 <= b < a && #[trigger] s2[b].id == s2[a].parent->0 by {
                assert(s2.contains(s2[a]));
                s0.lemma_filter_contains_rev(pred, s2[a]);
                let orig = choose|oi: int| 0 <= oi < s0.len() && s0[oi] == s2[a];
                let p = s2[a].parent->0;
                let pj = choose|pj: int| 0 <= pj < orig && #[trigger] s0[pj].id == p;
                // The parent survives: it is not the root (the record at `a`
                // survives, so its parent differs from the root), and nothing
                // is parented to a child of the root.
                assert(pred(s0[pj]));
                s0.lemma_filter_contains(pred, pj);
                let b = choose|b: int| 0 <= b < s2.len() && s2[b] == s0[pj];
                assert(s2[b].id == p);
                if b == a {
                    // A record would be its own parent; but its parent is an
                    // earlier record, with a strictly smaller id.
                    assert(s0[pj].id < s0[orig].id);
                    assert(false);
                } else if b > a {
                    // The filtered order would put the parent's larger id
                    // first, against the order both sequences share.
                    lemma_filter_keeps_order(s0, pred, a, b);
                    assert(s0[pj].id < s0[orig].id);
                    assert(false);
                }
            }
        }
    }
}

/// Filtering keeps the strict id order of a well-formed scene.
pub proof fn lemma_filter_keeps_order(
    s: Seq<EntityRecord>,
    pred: spec_fn(EntityRecord) -> bool,
    a: int,
    b: int,
)
    requires
        forall|i: int, j: int| 0 <= i < j < s.len() ==> #[trigger] s[i].id < #[trigger] s[j].id,
        0 <= a < b < s.filter(pred).len(),
    ensures
        s.filter(pred)[a].id < s.filter(pred)[b].id,
    decreases s.len(),
{
    reveal(Seq::filter);
    if s.len() > 0 {
        let f = s.filter(pred);
        let fd = s.drop_last().filter(pred);
        if pred(s.last()) {
            assert(f == fd.push(s.last()));
        } else {
            assert(f == fd);
        }
        if b < fd.len() {
            lemma_filter_keeps_order(s.drop_last(), pred, a, b);
        } else {
            // `b` indexes the final record of `s`; `a` comes from the prefix.
            assert(f[b] == s.last());
            assert(f[a] == fd[a]);
            assert(fd.contains(fd[a]));
            s.drop_last().lemma_filter_contains_rev(pred, fd[a]);
            let oi = choose|oi: int|
                0 <= oi < s.drop_last().len() && s.drop_last()[oi] == fd[a];
            assert(s[oi].id < s[s.len() - 1].id);
        }
    }
}

/// A capsule primitive, described by its radius; the length is the store's
/// default.
#[derive(Clone, Copy, PartialEq, Eq, Structural, Debug)]
pub struct Capsule {
    pub radius: u32,
}

/// A solid color, four single-precision channel bit patterns.
#[derive(Clone, Copy, PartialEq, Eq, Structural, Debug)]
pub struct Rgba {
    pub red: u32,
    pub green: u32,
    pub blue: u32,
    pub alpha: u32,
}

/// The mesh half of the asset store: append-only, shared by handle (the
/// index of registration), never deduplicating by content.
pub struct MeshAssets {
    pub meshes: Vec<Capsule>,
}

/// The material half of the asset store.
pub struct MaterialAssets {
    pub materials: Vec<Rgba>,
}

impl MeshAssets {
    /// An empty store.
    pub fn new() -> (r: MeshAssets)
        ensures
            r.meshes@ =~= Seq::<Capsule>::empty(),
    {
        MeshAssets { meshes: Vec::new() }
    }

    /// Registers a mesh description and returns its fresh handle.
    pub fn add(&mut self, c: Capsule) -> (h: usize)
        ensures
            final(self).meshes@ == old(self).meshes@.push(c),
            h == old(self).meshes@.len(),
    {
        let h = self.meshes.len();
        self.meshes.push(c);
        h
    }
}

impl MaterialAssets {
    /// An empty store.
    pub fn new() -> (r: MaterialAssets)
        ensures
            r.materials@ =~= Seq::<Rgba>::empty(),
    {
        MaterialAssets { materials: Vec::new() }
    }

    /// Registers a material and returns its fresh handle.
    pub fn add(&mut self, m: Rgba) -> (h: usize)
        ensures
            final(self).materials@ == old(self).materials@.push(m),
            h == old(self).materials@.len(),
    {
        let h = self.materials.len();
        self.materials.push(m);
        h
    }
}

} // verus!
