//! The world-axes overlay: configuration, spawner, per-frame lifecycle
//! reconciliation and per-frame transform synchronisation.
//!
//! Scheduling contract for the host: run [`world_axes_setup_system`] once at
//! startup, [`world_axes_toggle_system`] every frame, and
//! [`world_axes_system`] every frame strictly after the host's transform
//! propagation has finalized the cameras' world transforms. Because the sync
//! writes the overlay root's local transform after propagation already ran,
//! its effect becomes visible one frame later, which is acceptable for this
//! navigation aid.

use vstd::prelude::*;

use crate::math::{quat_conjugate_bits, quat_inverse, spec_unproject, unproject_anchor, Mat4Bits,
    QuatBits, Vec3Bits, ONE_BITS, ZERO_BITS};
use crate::scene::{count_matches, is_overlay_target, is_position_source, is_rotation_source,
    lemma_single_match, overlay_target_pred, position_source_pred, role_pred,
    rotation_source_pred, survives, Capsule, EntityRecord, MaterialAssets, MeshAssets, Rgba, Role,
    SceneWorld, Transform3, WorldAxesTag};

verus! {

/// Bits of the default anchor's first clip-space coordinate, toward the
/// right edge of the viewport.
pub const ANCHOR_X_BITS: u32 = 0x3F3A_FEAA;

/// Bits of the default anchor's second clip-space coordinate, toward the
/// bottom edge of the viewport.
pub const ANCHOR_Y_BITS: u32 = 0xBF18_E85E;

/// Bits of the default anchor's third clip-space coordinate, the depth
/// plane the overlay is placed on.
pub const ANCHOR_Z_BITS: u32 = 0x3E6D_6283;

/// Bits of the default uniform scale, one tenth.
pub const DEFAULT_SCALE_BITS: u32 = 0x3DCC_CCCD;

/// Bits of the capsule radius used for the axis meshes, three hundredths.
pub const CAPSULE_RADIUS_BITS: u32 = 0x3CF5_C28F;

/// Bits of one half, the offset of each axis child along its axis.
pub const HALF_BITS: u32 = 0x3F00_0000;

/// Bits of the sine (equally, cosine) of half a quarter turn, the
/// components of a quarter-turn rotation quaternion.
pub const QUARTER_TURN_SIN_BITS: u32 = 0x3F35_04F3;

/// The same sine with its sign bit set: the corresponding component of a
/// quarter turn the other way round.
pub const QUARTER_TURN_SIN_NEG_BITS: u32 = 0xBF35_04F3;

/// The configuration and cached resources of the overlay. A single instance
/// is owned by the embedding application and passed into the systems below;
/// external callers may only set `enabled`.
pub struct WorldAxes {
    /// Desired visibility; reconciled against the spawned state each frame.
    pub enabled: bool,
    /// Clip-space point of the position-source camera at which the overlay
    /// is anchored.
    pub clip_space_position: Vec3Bits,
    /// Uniform scale of the overlay root, as single-precision bits.
    pub scale: u32,
    /// The spawned subtree's root, or nothing; the single source of truth
    /// for whether the overlay is currently spawned.
    pub axes_entity: Option<u64>,
    /// Cached capsule mesh handle, registered at most once.
    pub axis_mesh: Option<usize>,
    /// Cached material handles, in axis order; empty until first use, then
    /// exactly three.
    pub standard_materials: Vec<usize>,
}

/// The default anchor, near the lower-right corner of a typical viewport.
pub open spec fn spec_default_anchor() -> Vec3Bits {
    Vec3Bits { x: ANCHOR_X_BITS, y: ANCHOR_Y_BITS, z: ANCHOR_Z_BITS }
}

impl Default for WorldAxes {
    /// The startup configuration: enabled, default anchor and scale, nothing
    /// spawned and nothing cached yet.
    fn default() -> (r: WorldAxes)
        ensures
            r.enabled,
            r.clip_space_position == spec_default_anchor(),
            r.scale == DEFAULT_SCALE_BITS,
            r.axes_entity is None,
            r.axis_mesh is None,
            r.standard_materials@ =~= Seq::<usize>::empty(),
    {
        WorldAxes {
            enabled: true,
            clip_space_position: Vec3Bits {
                x: ANCHOR_X_BITS,
                y: ANCHOR_Y_BITS,
                z: ANCHOR_Z_BITS,
            },
            scale: DEFAULT_SCALE_BITS,
            axes_entity: None,
            axis_mesh: None,
            standard_materials: Vec::new(),
        }
    }
}

/// Cached handles, when present, point into the stores, and the material
/// cache is either untouched or complete.
pub open spec fn assets_cached_wf(
    wa: WorldAxes,
    meshes: MeshAssets,
    materials: MaterialAssets,
) -> bool {
    &&& wa.axis_mesh matches Some(h) ==> h < meshes.meshes@.len()
    &&& wa.standard_materials@.len() == 0 || wa.standard_materials@.len() == 3
    &&& forall|k: int|
        0 <= k < wa.standard_materials@.len() ==> #[trigger] wa.standard_materials@[k]
            < materials.materials@.len()
}

/// The coupling invariant between the configuration and the scene: the
/// presence of `axes_entity` matches the presence of the overlay subtree.
/// With a root spawned, it is the only overlay-tagged entity, it is a
/// non-camera without a parent, and nothing is parented to its children (the
/// subtree nests exactly one level).
pub open spec fn coupled(wa: WorldAxes, scene: SceneWorld) -> bool {
    let s = scene.entities@;
    match wa.axes_entity {
        Option::None => forall|i: int| 0 <= i < s.len() ==> (#[trigger] s[i]).overlay_tag is None,
        Option::Some(root) => {
            &&& exists|i: int|
                0 <= i < s.len() && (#[trigger] s[i]).id == root && s[i].overlay_tag is Some
                    && s[i].projection is None && s[i].parent is None
            &&& forall|i: int|
                0 <= i < s.len() && (#[trigger] s[i]).overlay_tag is Some ==> s[i].id == root
            &&& forall|i: int, j: int|
                0 <= i < s.len() && 0 <= j < s.len() && (#[trigger] s[i]).parent == Some(root)
                    ==> (#[trigger] s[j]).parent != Some(s[i].id)
        },
    }
}

/// The solid red material.
pub open spec fn spec_red() -> Rgba {
    Rgba { red: ONE_BITS, green: ZERO_BITS, blue: ZERO_BITS, alpha: ONE_BITS }
}

/// The solid green material.
pub open spec fn spec_green() -> Rgba {
    Rgba { red: ZERO_BITS, green: ONE_BITS, blue: ZERO_BITS, alpha: ONE_BITS }
}

/// The solid blue material.
pub open spec fn spec_blue() -> Rgba {
    Rgba { red: ZERO_BITS, green: ZERO_BITS, blue: ONE_BITS, alpha: ONE_BITS }
}

/// A quarter turn about the third axis, the negative way round: the X-axis
/// child's orientation.
pub open spec fn spec_x_axis_rotation() -> QuatBits {
    QuatBits { x: ZERO_BITS, y: ZERO_BITS, z: QUARTER_TURN_SIN_NEG_BITS, w: QUARTER_TURN_SIN_BITS }
}

/// The identity rotation: the Y-axis child's orientation.
pub open spec fn spec_identity_rotation() -> QuatBits {
    QuatBits { x: ZERO_BITS, y: ZERO_BITS, z: ZERO_BITS, w: ONE_BITS }
}

/// A quarter turn about the first axis, the positive way round: the Z-axis
/// child's orientation.
pub open spec fn spec_z_axis_rotation() -> QuatBits {
    QuatBits { x: QUARTER_TURN_SIN_BITS, y: ZERO_BITS, z: ZERO_BITS, w: QUARTER_TURN_SIN_BITS }
}

/// Offset of the X-axis child: half a unit along the first axis.
pub open spec fn spec_x_axis_translation() -> Vec3Bits {
    Vec3Bits { x: HALF_BITS, y: ZERO_BITS, z: ZERO_BITS }
}

/// Offset of the Y-axis child: half a unit along the second axis.
pub open spec fn spec_y_axis_translation() -> Vec3Bits {
    Vec3Bits { x: ZERO_BITS, y: HALF_BITS, z: ZERO_BITS }
}

/// Offset of the Z-axis child: half a unit along the third axis.
pub open spec fn spec_z_axis_translation() -> Vec3Bits {
    Vec3Bits { x: ZERO_BITS, y: ZERO_BITS, z: HALF_BITS }
}

/// The sixteen entries of the identity matrix, column-major.
pub open spec fn spec_identity_matrix_bits() -> Seq<u32> {
    seq![
        ONE_BITS, ZERO_BITS, ZERO_BITS, ZERO_BITS,
        ZERO_BITS, ONE_BITS, ZERO_BITS, ZERO_BITS,
        ZERO_BITS, ZERO_BITS, ONE_BITS, ZERO_BITS,
        ZERO_BITS, ZERO_BITS, ZERO_BITS, ONE_BITS,
    ]
}

/// The overlay root as spawned: identity transform scaled uniformly by
/// `scale`, tagged as the overlay root, not a camera, without mesh or
/// material of its own.
pub open spec fn is_overlay_root_record(e: EntityRecord, id: u64, scale: u32) -> bool {
    &&& e.id == id
    &&& e.parent is None
    &&& e.transform.translation == (Vec3Bits { x: ZERO_BITS, y: ZERO_BITS, z: ZERO_BITS })
    &&& e.transform.rotation == spec_identity_rotation()
    &&& e.transform.scale == (Vec3Bits { x: scale, y: scale, z: scale })
    &&& e.global_matrix@ == spec_identity_matrix_bits()
    &&& e.global_rotation == spec_identity_rotation()
    &&& e.projection is None
    &&& e.mesh is None
    &&& e.material is None
    &&& e.overlay_tag is Some
    &&& e.position_tag is None
    &&& e.rotation_tag is None
}

/// An axis child as spawned: owned by the root, carrying the cached capsule
/// mesh and one cached material, offset and rotated to lie along its axis,
/// at unit scale, untagged.
pub open spec fn is_axis_child_record(
    e: EntityRecord,
    id: int,
    root: u64,
    mesh: usize,
    material: usize,
    rotation: QuatBits,
    translation: Vec3Bits,
) -> bool {
    &&& e.id == id
    &&& e.parent == Some(root)
    &&& e.transform.translation == translation
    &&& e.transform.rotation == rotation
    &&& e.transform.scale == (Vec3Bits { x: ONE_BITS, y: ONE_BITS, z: ONE_BITS })
    &&& e.global_matrix@ == spec_identity_matrix_bits()
    &&& e.global_rotation == spec_identity_rotation()
    &&& e.projection is None
    &&& e.mesh == Some(mesh)
    &&& e.material == Some(material)
    &&& e.overlay_tag is None
    &&& e.position_tag is None
    &&& e.rotation_tag is None
}

/// The scene after a spawn: the old records unchanged, then the root under
/// the first fresh identity and the three axis children under the next
/// three, referencing the cached mesh and the red, green and blue materials
/// in axis order.
pub open spec fn spawn_scene_post(
    s: Seq<EntityRecord>,
    next0: u64,
    scale: u32,
    mesh: usize,
    mats: Seq<usize>,
    s2: Seq<EntityRecord>,
) -> bool {
    &&& s2.len() == s.len() + 4
    &&& forall|k: int| 0 <= k < s.len() ==> #[trigger] s2[k] == s[k]
    &&& is_overlay_root_record(s2[s.len() as int], next0, scale)
    &&& is_axis_child_record(
        s2[s.len() as int + 1],
        next0 + 1,
        next0,
        mesh,
        mats[0],
        spec_x_axis_rotation(),
        spec_x_axis_translation(),
    )
    &&& is_axis_child_record(
        s2[s.len() as int + 2],
        next0 + 2,
        next0,
        mesh,
        mats[1],
        spec_identity_rotation(),
        spec_y_axis_translation(),
    )
    &&& is_axis_child_record(
        s2[s.len() as int + 3],
        next0 + 3,
        next0,
        mesh,
        mats[2],
        spec_z_axis_rotation(),
        spec_z_axis_translation(),
    )
}

/// Lazy asset registration as `spawn_world_axes` performs it: a cached
/// handle is reused and its store left alone; an absent one is registered
/// once and cached.
pub open spec fn lazy_assets_post(
    wa0: WorldAxes,
    meshes0: MeshAssets,
    materials0: MaterialAssets,
    wa: WorldAxes,
    meshes: MeshAssets,
    materials: MaterialAssets,
) -> bool {
    &&& wa.axis_mesh is Some
    &&& wa0.axis_mesh is Some ==> wa.axis_mesh == wa0.axis_mesh && meshes.meshes@
        == meshes0.meshes@
    &&& wa0.axis_mesh is None ==> meshes.meshes@ == meshes0.meshes@.push(
        Capsule { radius: CAPSULE_RADIUS_BITS },
    ) && wa.axis_mesh == Some(meshes0.meshes@.len() as usize)
    &&& wa.standard_materials@.len() == 3
    &&& wa0.standard_materials@.len() == 3 ==> wa.standard_materials@ == wa0.standard_materials@
        && materials.materials@ == materials0.materials@
    &&& wa0.standard_materials@.len() == 0 ==> materials.materials@ == materials0.materials@
        + seq![spec_red(), spec_green(), spec_blue()] && wa.standard_materials@[0]
        == materials0.materials@.len() && wa.standard_materials@[1] == materials0.materials@.len()
        + 1 && wa.standard_materials@[2] == materials0.materials@.len() + 2
}

/// Creates the overlay subtree, registering and caching the capsule mesh
/// and the three solid materials first if they are not cached yet. Callers
/// guarantee that no subtree exists.
pub fn spawn_world_axes(
    scene: &mut SceneWorld,
    meshes: &mut MeshAssets,
    materials: &mut MaterialAssets,
    world_axes: &mut WorldAxes,
)
    requires
        old(scene).wf(),
        old(world_axes).axes_entity is None,
        coupled(*old(world_axes), *old(scene)),
        assets_cached_wf(*old(world_axes), *old(meshes), *old(materials)),
        old(scene).next_id + 4 <= u64::MAX,
    ensures
        final(scene).wf(),
        coupled(*final(world_axes), *final(scene)),
        assets_cached_wf(*final(world_axes), *final(meshes), *final(materials)),
        final(world_axes).enabled == old(world_axes).enabled,
        final(world_axes).clip_space_position == old(world_axes).clip_space_position,
        final(world_axes).scale == old(world_axes).scale,
        final(world_axes).axes_entity == Some(old(scene).next_id),
        final(scene).next_id == old(scene).next_id + 4,
        lazy_assets_post(
            *old(world_axes),
            *old(meshes),
            *old(materials),
            *final(world_axes),
            *final(meshes),
            *final(materials),
        ),
        spawn_scene_post(
            old(scene).entities@,
            old(scene).next_id,
            old(world_axes).scale,
            final(world_axes).axis_mesh->0,
            final(world_axes).standard_materials@,
            final(scene).entities@,
        ),
{
    if world_axes.axis_mesh.is_none() {
        let h = meshes.add(Capsule { radius: CAPSULE_RADIUS_BITS });
        world_axes.axis_mesh = Some(h);
    }
    if world_axes.standard_materials.len() == 0 {
        let red = materials.add(
            Rgba { red: ONE_BITS, green: ZERO_BITS, blue: ZERO_BITS, alpha: ONE_BITS },
        );
        world_axes.standard_materials.push(red);
        let green = materials.add(
            Rgba { red: ZERO_BITS, green: ONE_BITS, blue: ZERO_BITS, alpha: ONE_BITS },
        );
        world_axes.standard_materials.push(green);
        let blue = materials.add(
            Rgba { red: ZERO_BITS, green: ZERO_BITS, blue: ONE_BITS, alpha: ONE_BITS },
        );
        world_axes.standard_materials.push(blue);
    }
    let axis_mesh = match world_axes.axis_mesh {
        Some(h) => h,
        None => 0,  // unreachable: the cache was just filled
    };
    let identity_transform = Transform3 {
        translation: Vec3Bits { x: ZERO_BITS, y: ZERO_BITS, z: ZERO_BITS },
        rotation: QuatBits { x: ZERO_BITS, y: ZERO_BITS, z: ZERO_BITS, w: ONE_BITS },
        scale: Vec3Bits { x: ONE_BITS, y: ONE_BITS, z: ONE_BITS },
    };
    let identity_matrix = Mat4Bits {
        cols: [
            ONE_BITS, ZERO_BITS, ZERO_BITS, ZERO_BITS,
            ZERO_BITS, ONE_BITS, ZERO_BITS, ZERO_BITS,
            ZERO_BITS, ZERO_BITS, ONE_BITS, ZERO_BITS,
            ZERO_BITS, ZERO_BITS, ZERO_BITS, ONE_BITS,
        ],
    };
    proof {
        assert(identity_matrix@ =~= spec_identity_matrix_bits());
    }
    let root_record = EntityRecord {
        id: 0,
        parent: None,
        transform: Transform3 {
            translation: Vec3Bits { x: ZERO_BITS, y: ZERO_BITS, z: ZERO_BITS },
            rotation: QuatBits { x: ZERO_BITS, y: ZERO_BITS, z: ZERO_BITS, w: ONE_BITS },
            scale: Vec3Bits { x: world_axes.scale, y: world_axes.scale, z: world_axes.scale },
        },
        global_matrix: identity_matrix,
        global_rotation: QuatBits { x: ZERO_BITS, y: ZERO_BITS, z: ZERO_BITS, w: ONE_BITS },
        projection: None,
        mesh: None,
        material: None,
        overlay_tag: Some(WorldAxesTag),
        position_tag: None,
        rotation_tag: None,
    };
    let root = scene.spawn(root_record);
    proof {
        assert(scene.entities@[old(scene).entities@.len() as int].id == root);
    }
    let x_child = EntityRecord {
        id: 0,
        parent: Some(root),
        transform: Transform3 {
            translation: Vec3Bits { x: HALF_BITS, y: ZERO_BITS, z: ZERO_BITS },
            rotation: QuatBits {
                x: ZERO_BITS,
                y: ZERO_BITS,
                z: QUARTER_TURN_SIN_NEG_BITS,
                w: QUARTER_TURN_SIN_BITS,
            },
            ..identity_transform
        },
        global_matrix: identity_matrix,
        global_rotation: QuatBits { x: ZERO_BITS, y: ZERO_BITS, z: ZERO_BITS, w: ONE_BITS },
        projection: None,
        mesh: Some(axis_mesh),
        material: Some(world_axes.standard_materials[0]),
        overlay_tag: None,
        position_tag: None,
        rotation_tag: None,
    };
    proof {
        assert(scene.entities@[old(scene).entities@.len() as int].id == root);
    }
    scene.spawn(x_child);
    let y_child = EntityRecord {
        transform: Transform3 {
            translation: Vec3Bits { x: ZERO_BITS, y: HALF_BITS, z: ZERO_BITS },
            ..identity_transform
        },
        material: Some(world_axes.standard_materials[1]),
        ..x_child
    };
    proof {
        assert(scene.entities@[old(scene).entities@.len() as int].id == root);
    }
    scene.spawn(y_child);
    let z_child = EntityRecord {
        transform: Transform3 {
            translation: Vec3Bits { x: ZERO_BITS, y: ZERO_BITS, z: HALF_BITS },
            rotation: QuatBits {
                x: QUARTER_TURN_SIN_BITS,
                y: ZERO_BITS,
                z: ZERO_BITS,
                w: QUARTER_TURN_SIN_BITS,
            },
            ..identity_transform
        },
        material: Some(world_axes.standard_materials[2]),
        ..x_child
    };
    proof {
        assert(scene.entities@[old(scene).entities@.len() as int].id == root);
    }
    scene.spawn(z_child);
    world_axes.axes_entity = Some(root);
    proof {
        let s = old(scene).entities@;
        let s2 = scene.entities@;
        let oldlen = s.len() as int;
        if old(world_axes).standard_materials@.len() == 0 {
            assert(materials.materials@ =~= old(materials).materials@ + seq![
                spec_red(),
                spec_green(),
                spec_blue(),
            ]);
            assert(world_axes.standard_materials@[0] == old(materials).materials@.len());
        }
        assert(is_overlay_root_record(s2[oldlen], old(scene).next_id, old(world_axes).scale));
        assert(is_axis_child_record(
            s2[oldlen + 1],
            old(scene).next_id + 1,
            root,
            axis_mesh,
            world_axes.standard_materials@[0],
            spec_x_axis_rotation(),
            spec_x_axis_translation(),
        ));
        assert(is_axis_child_record(
            s2[oldlen + 2],
            old(scene).next_id + 2,
            root,
            axis_mesh,
            world_axes.standard_materials@[1],
            spec_identity_rotation(),
            spec_y_axis_translation(),
        ));
        assert(is_axis_child_record(
            s2[oldlen + 3],
            old(scene).next_id + 3,
            root,
            axis_mesh,
            world_axes.standard_materials@[2],
            spec_z_axis_rotation(),
            spec_z_axis_translation(),
        ));
        assert forall|k: int| 0 <= k < s.len() implies #[trigger] s2[k] == s[k] by {}
        assert forall|i: int|
            0 <= i < s2.len() && (#[trigger] s2[i]).overlay_tag is Some implies s2[i].id == root
            by {
            if i < s.len() {
                assert(s2[i] == s[i]);
            }
        }
        assert forall|i: int, j: int|
            0 <= i < s2.len() && 0 <= j < s2.len() && (#[trigger] s2[i]).parent == Some(root)
            implies (#[trigger] s2[j]).parent != Some(s2[i].id) by {
            assert(s2[i].id > root);
            if j < s.len() {
                if s2[j].parent is Some {
                    let pj = choose|pj: int|
                        0 <= pj < j && #[trigger] s[pj].id == s[j].parent->0;
                    assert(s[pj].id < old(scene).next_id);
                }
            }
        }
        assert forall|i: int|
            0 <= i < s2.len() && (#[trigger] s2[i]).parent == Some(root) implies i >= s.len() by {
            if i < s.len() {
                let pj = choose|pj: int| 0 <= pj < i && #[trigger] s[pj].id == s[i].parent->0;
                assert(s[pj].id < old(scene).next_id);
            }
        }
    }
}

/// The scene and configuration after a despawn: the subtree filtered out,
/// everything else in place, the reference cleared, the caches and stores
/// untouched.
pub open spec fn despawn_post(
    scene0: SceneWorld,
    wa0: WorldAxes,
    scene: SceneWorld,
    wa: WorldAxes,
) -> bool {
    &&& scene.entities@ == scene0.entities@.filter(survives(wa0.axes_entity->0))
    &&& scene.next_id == scene0.next_id
    &&& wa.axes_entity is None
    &&& forall|i: int| 0 <= i < scene.entities@.len() ==> (#[trigger] scene.entities@[i]).overlay_tag is None
    &&& wa.enabled == wa0.enabled
    &&& wa.clip_space_position == wa0.clip_space_position
    &&& wa.scale == wa0.scale
    &&& wa.axis_mesh == wa0.axis_mesh
    &&& wa.standard_materials@ == wa0.standard_materials@
}

/// Destroys the overlay subtree, root and descendants, and clears the
/// reference; does nothing when no subtree exists. The cached mesh and
/// material handles and their stores are never touched.
pub fn despawn_world_axes(scene: &mut SceneWorld, world_axes: &mut WorldAxes)
    requires
        old(scene).wf(),
        coupled(*old(world_axes), *old(scene)),
    ensures
        final(scene).wf(),
        coupled(*final(world_axes), *final(scene)),
        final(world_axes).enabled == old(world_axes).enabled,
        final(world_axes).clip_space_position == old(world_axes).clip_space_position,
        final(world_axes).scale == old(world_axes).scale,
        final(world_axes).axes_entity is None,
        final(world_axes).axis_mesh == old(world_axes).axis_mesh,
        final(world_axes).standard_materials@ == old(world_axes).standard_materials@,
        old(world_axes).axes_entity is Some ==> despawn_post(
            *old(scene),
            *old(world_axes),
            *final(scene),
            *final(world_axes),
        ),
        old(world_axes).axes_entity is None ==> *final(scene) == *old(scene)
            && *final(world_axes) == *old(world_axes),
{
    match world_axes.axes_entity {
        Some(root) => {
            scene.despawn_recursive(root);
            world_axes.axes_entity = None;
            proof {
                let s0 = old(scene).entities@;
                let s2 = scene.entities@;
                let pred = survives(root);
                assert forall|i: int|
                    0 <= i < s2.len() implies (#[trigger] s2[i]).overlay_tag is None by {
                    assert(s2.contains(s2[i]));
                    s0.lemma_filter_contains_rev(pred, s2[i]);
                    let oi = choose|oi: int| 0 <= oi < s0.len() && s0[oi] == s2[i];
                    if s0[oi].overlay_tag is Some {
                        assert(s0[oi].id == root);
                        assert(!pred(s0[oi]));
                    }
                }
            }
        },
        None => {},
    }
}

/// Per-frame reconciliation of the desired visibility against the spawned
/// state: spawns the subtree when enabled and absent, destroys it when
/// disabled and present, and otherwise does nothing observable. This is the
/// only writer of the subtree's presence.
pub fn world_axes_toggle_system(
    scene: &mut SceneWorld,
    meshes: &mut MeshAssets,
    materials: &mut MaterialAssets,
    world_axes: &mut WorldAxes,
)
    requires
        old(scene).wf(),
        coupled(*old(world_axes), *old(scene)),
        assets_cached_wf(*old(world_axes), *old(meshes), *old(materials)),
        old(scene).next_id + 4 <= u64::MAX,
    ensures
        final(scene).wf(),
        coupled(*final(world_axes), *final(scene)),
        assets_cached_wf(*final(world_axes), *final(meshes), *final(materials)),
        final(world_axes).enabled == old(world_axes).enabled,
        final(world_axes).clip_space_position == old(world_axes).clip_space_position,
        final(world_axes).scale == old(world_axes).scale,
        (final(world_axes).axes_entity is Some) == old(world_axes).enabled,
        old(world_axes).enabled && old(world_axes).axes_entity is None ==> {
            &&& final(world_axes).axes_entity == Some(old(scene).next_id)
            &&& lazy_assets_post(
                *old(world_axes),
                *old(meshes),
                *old(materials),
                *final(world_axes),
                *final(meshes),
                *final(materials),
            )
            &&& spawn_scene_post(
                old(scene).entities@,
                old(scene).next_id,
                old(world_axes).scale,
                final(world_axes).axis_mesh->0,
                final(world_axes).standard_materials@,
                final(scene).entities@,
            )
        },
        !old(world_axes).enabled && old(world_axes).axes_entity is Some ==> {
            &&& despawn_post(*old(scene), *old(world_axes), *final(scene), *final(world_axes))
            &&& *final(meshes) == *old(meshes)
            &&& *final(materials) == *old(materials)
        },
        (old(world_axes).enabled == (old(world_axes).axes_entity is Some)) ==> {
            &&& *final(scene) == *old(scene)
            &&& *final(world_axes) == *old(world_axes)
            &&& *final(meshes) == *old(meshes)
            &&& *final(materials) == *old(materials)
        },
{
    if world_axes.enabled {
        if world_axes.axes_entity.is_none() {
            spawn_world_axes(scene, meshes, materials, world_axes);
        }
    } else if world_axes.axes_entity.is_some() {
        despawn_world_axes(scene, world_axes);
    }
}

/// Builds the startup configuration and performs the first reconciliation:
/// with the default configuration enabled, the overlay is spawned at once.
pub fn world_axes_setup_system(
    scene: &mut SceneWorld,
    meshes: &mut MeshAssets,
    materials: &mut MaterialAssets,
) -> (world_axes: WorldAxes)
    requires
        old(scene).wf(),
        forall|i: int|
            0 <= i < old(scene).entities@.len() ==> (#[trigger] old(
                scene,
            ).entities@[i]).overlay_tag is None,
        old(scene).next_id + 4 <= u64::MAX,
    ensures
        final(scene).wf(),
        coupled(world_axes, *final(scene)),
        assets_cached_wf(world_axes, *final(meshes), *final(materials)),
        world_axes.enabled,
        world_axes.clip_space_position == spec_default_anchor(),
        world_axes.scale == DEFAULT_SCALE_BITS,
        world_axes.axes_entity == Some(old(scene).next_id),
        final(meshes).meshes@ == old(meshes).meshes@.push(Capsule { radius: CAPSULE_RADIUS_BITS }),
        world_axes.axis_mesh == Some(old(meshes).meshes@.len() as usize),
        final(materials).materials@ == old(materials).materials@ + seq![
            spec_red(),
            spec_green(),
            spec_blue(),
        ],
        world_axes.standard_materials@.len() == 3,
        world_axes.standard_materials@[0] == old(materials).materials@.len(),
        world_axes.standard_materials@[1] == old(materials).materials@.len() + 1,
        world_axes.standard_materials@[2] == old(materials).materials@.len() + 2,
        spawn_scene_post(
            old(scene).entities@,
            old(scene).next_id,
            DEFAULT_SCALE_BITS,
            world_axes.axis_mesh->0,
            world_axes.standard_materials@,
            final(scene).entities@,
        ),
{
    let mut world_axes = WorldAxes::default();
    world_axes_toggle_system(scene, meshes, materials, &mut world_axes);
    world_axes
}

/// What the transform sync writes into the overlay root when it runs: all
/// fields but the local translation and rotation keep their values; the
/// translation becomes the unprojected anchor of the single position-source
/// camera, if there is exactly one, and the rotation becomes the inverse of
/// the single rotation-source camera's world rotation, if there is exactly
/// one; a missing or ambiguous source leaves the respective value unchanged.
pub open spec fn synced_target(
    wa: WorldAxes,
    s: Seq<EntityRecord>,
    e: EntityRecord,
    e2: EntityRecord,
) -> bool {
    let pos_one = count_matches(s, position_source_pred()) == 1;
    let rot_one = count_matches(s, rotation_source_pred()) == 1;
    &&& e2.id == e.id
    &&& e2.parent == e.parent
    &&& e2.transform.scale == e.transform.scale
    &&& e2.global_matrix == e.global_matrix
    &&& e2.global_rotation == e.global_rotation
    &&& e2.projection == e.projection
    &&& e2.mesh == e.mesh
    &&& e2.material == e.material
    &&& e2.overlay_tag == e.overlay_tag
    &&& e2.position_tag == e.position_tag
    &&& e2.rotation_tag == e.rotation_tag
    &&& pos_one ==> forall|p: int|
        0 <= p < s.len() && is_position_source(#[trigger] s[p]) ==> e2.transform.translation@
            == spec_unproject(s[p].projection->0@, s[p].global_matrix@, wa.clip_space_position@)
    &&& !pos_one ==> e2.transform.translation == e.transform.translation
    &&& rot_one ==> forall|r: int|
        0 <= r < s.len() && is_rotation_source(#[trigger] s[r]) ==> e2.transform.rotation@
            == quat_conjugate_bits(s[r].global_rotation@)
    &&& !rot_one ==> e2.transform.rotation == e.transform.rotation
}

/// Per-frame transform synchronisation, to run after the host's transform
/// propagation: computes the overlay root's new world position from the
/// position-source camera and its counter-rotation from the rotation-source
/// camera, and writes them into the overlay root's local transform. Does
/// nothing when the overlay is disabled or absent; skips either write when
/// its camera role has no single match this frame.
pub fn world_axes_system(world_axes: &WorldAxes, scene: &mut SceneWorld)
    requires
        old(scene).wf(),
    ensures
        final(scene).wf(),
        final(scene).next_id == old(scene).next_id,
        final(scene).entities@.len() == old(scene).entities@.len(),
        !(world_axes.enabled && world_axes.axes_entity is Some) ==> final(scene).entities@ == old(
            scene,
        ).entities@,
        forall|i: int|
            0 <= i < old(scene).entities@.len() && !is_overlay_target(
                #[trigger] old(scene).entities@[i],
            ) ==> final(scene).entities@[i] == old(scene).entities@[i],
        world_axes.enabled && world_axes.axes_entity is Some && count_matches(
            old(scene).entities@,
            overlay_target_pred(),
        ) != 1 ==> final(scene).entities@ == old(scene).entities@,
        world_axes.enabled && world_axes.axes_entity is Some && count_matches(
            old(scene).entities@,
            overlay_target_pred(),
        ) == 1 ==> forall|i: int|
            0 <= i < old(scene).entities@.len() && is_overlay_target(
                #[trigger] old(scene).entities@[i],
            ) ==> synced_target(
                *world_axes,
                old(scene).entities@,
                old(scene).entities@[i],
                final(scene).entities@[i],
            ),
{
    let ghost s = scene.entities@;
    if !world_axes.enabled || world_axes.axes_entity.is_none() {
        return ;
    }
    let mut translation: Option<Vec3Bits> = None;
    match scene.find_single(Role::PositionSource) {
        Some(p) => {
            let cam = &scene.entities[p];
            let projection = match &cam.projection {
                Some(m) => m,
                None => &cam.global_matrix,  // unreachable: a position source is a camera
            };
            translation = Some(
                unproject_anchor(projection, &cam.global_matrix, &world_axes.clip_space_position),
            );
            proof {
                assert(role_pred(Role::PositionSource)(s[p as int]));
                assert(is_position_source(s[p as int]));
                assert forall|q: int|
                    0 <= q < s.len() && is_position_source(#[trigger] s[q]) implies translation->0@
                    == spec_unproject(
                    s[q].projection->0@,
                    s[q].global_matrix@,
                    world_axes.clip_space_position@,
                ) by {
                    assert(position_source_pred()(s[q]));
                    lemma_single_match(s, position_source_pred(), q, p as int);
                }
            }
        },
        None => {},
    }
    let mut rotation: Option<QuatBits> = None;
    match scene.find_single(Role::RotationSource) {
        Some(r) => {
            let cam = &scene.entities[r];
            rotation = Some(quat_inverse(&cam.global_rotation));
            proof {
                assert(role_pred(Role::RotationSource)(s[r as int]));
                assert(is_rotation_source(s[r as int]));
                assert forall|q: int|
                    0 <= q < s.len() && is_rotation_source(#[trigger] s[q]) implies rotation->0@
                    == quat_conjugate_bits(s[q].global_rotation@) by {
                    assert(rotation_source_pred()(s[q]));
                    lemma_single_match(s, rotation_source_pred(), q, r as int);
                }
            }
        },
        None => {},
    }
    match scene.find_single(Role::OverlayTarget) {
        Some(t) => {
            let mut rec = scene.entities[t];
            match translation {
                Some(v) => {
                    rec.transform.translation = v;
                },
                None => {},
            }
            match rotation {
                Some(q) => {
                    rec.transform.rotation = q;
                },
                None => {},
            }
            scene.entities[t] = rec;
            proof {
                assert(role_pred(Role::OverlayTarget)(s[t as int]));
                assert(is_overlay_target(s[t as int]));
                assert forall|i: int|
                    0 <= i < s.len() && is_overlay_target(#[trigger] s[i]) implies i == t as int by {
                    assert(overlay_target_pred()(s[i]));
                    lemma_single_match(s, overlay_target_pred(), i, t as int);
                }
                let s2 = scene.entities@;
                assert(s2 =~= s.update(t as int, s2[t as int]));
                assert forall|i: int, j: int| 0 <= i < j < s2.len() implies #[trigger] s2[i].id
                    < #[trigger] s2[j].id by {}
                assert forall|i: int|
                    0 <= i < s2.len() && #[trigger] s2[i].parent is Some implies exists|j: int|
                    0 <= j < i && #[trigger] s2[j].id == s2[i].parent->0 by {
                    let j = choose|j: int| 0 <= j < i && #[trigger] s[j].id == s[i].parent->0;
                    assert(s2[j].id == s2[i].parent->0);
                }
            }
        },
        None => {},
    }
}

/// The subsystem as a registerable unit. The host wires its three
/// operations into its schedule: setup at startup, the toggle reconciliation
/// every frame, and the transform sync every frame after transform
/// propagation.
pub struct WorldAxesPlugin;

} // verus!

