use world_axes::{
    despawn_world_axes, world_axes_setup_system, world_axes_system, world_axes_toggle_system,
    EntityRecord, MaterialAssets, Mat4Bits, MeshAssets, QuatBits, SceneWorld, Transform3,
    Vec3Bits, WorldAxes, WorldAxesPositionTag, WorldAxesRotationTag,
};

fn mat_bits(m: glam::Mat4) -> Mat4Bits {
    Mat4Bits { cols: m.to_cols_array().map(f32::to_bits) }
}

fn perspective(vertical_fov: f32, aspect: f32, near: f32, far: f32) -> glam::Mat4 {
    glam::camera::rh::proj::directx::perspective(vertical_fov, aspect, near, far)
}

fn orthographic(l: f32, r: f32, b: f32, t: f32, near: f32, far: f32) -> glam::Mat4 {
    glam::camera::rh::proj::directx::orthographic(l, r, b, t, near, far)
}

fn quat_bits(q: glam::Quat) -> QuatBits {
    let [x, y, z, w] = q.to_array().map(f32::to_bits);
    QuatBits { x, y, z, w }
}

fn vec3_bits(v: glam::Vec3) -> Vec3Bits {
    Vec3Bits { x: v.x.to_bits(), y: v.y.to_bits(), z: v.z.to_bits() }
}

fn identity_transform() -> Transform3 {
    Transform3 {
        translation: vec3_bits(glam::Vec3::ZERO),
        rotation: quat_bits(glam::Quat::IDENTITY),
        scale: vec3_bits(glam::Vec3::ONE),
    }
}

fn camera_record(
    projection: glam::Mat4,
    world: glam::Mat4,
    rotation: glam::Quat,
    pos_tag: bool,
    rot_tag: bool,
) -> EntityRecord {
    EntityRecord {
        id: 0,
        parent: None,
        transform: identity_transform(),
        global_matrix: mat_bits(world),
        global_rotation: quat_bits(rotation),
        projection: Some(mat_bits(projection)),
        mesh: None,
        material: None,
        overlay_tag: None,
        position_tag: if pos_tag { Some(WorldAxesPositionTag) } else { None },
        rotation_tag: if rot_tag { Some(WorldAxesRotationTag) } else { None },
    }
}

fn fresh() -> (SceneWorld, MeshAssets, MaterialAssets, WorldAxes) {
    let mut scene = SceneWorld::new();
    let mut meshes = MeshAssets::new();
    let mut materials = MaterialAssets::new();
    let world_axes = world_axes_setup_system(&mut scene, &mut meshes, &mut materials);
    (scene, meshes, materials, world_axes)
}

fn root_translation(scene: &SceneWorld) -> Vec3Bits {
    let root = scene
        .entities
        .iter()
        .find(|e| e.overlay_tag.is_some())
        .expect("overlay root present");
    root.transform.translation
}

fn root_rotation(scene: &SceneWorld) -> QuatBits {
    let root = scene
        .entities
        .iter()
        .find(|e| e.overlay_tag.is_some())
        .expect("overlay root present");
    root.transform.rotation
}

fn expected_unprojection(p: glam::Mat4, v: glam::Mat4, anchor: glam::Vec3) -> Vec3Bits {
    let w = v.mul_mat4(&p.inverse()).mul_vec4(anchor.extend(1.0));
    let d = w / w.w;
    Vec3Bits { x: d.x.to_bits(), y: d.y.to_bits(), z: d.z.to_bits() }
}

#[test]
fn default_configuration_matches_expected_values() {
    let wa = WorldAxes::default();
    assert!(wa.enabled);
    assert_eq!(wa.clip_space_position.x, 0.73044837f32.to_bits());
    assert_eq!(wa.clip_space_position.y, (-0.59729564f32).to_bits());
    assert_eq!(wa.clip_space_position.z, 0.2318211f32.to_bits());
    assert_eq!(wa.scale, 0.1f32.to_bits());
    assert!(wa.axes_entity.is_none());
    assert!(wa.axis_mesh.is_none());
    assert!(wa.standard_materials.is_empty());
}

#[test]
fn setup_spawns_one_root_with_three_children() {
    let (scene, meshes, materials, wa) = fresh();
    assert_eq!(wa.axes_entity, Some(0));
    assert_eq!(scene.entities.len(), 4);
    assert_eq!(meshes.meshes.len(), 1);
    assert_eq!(meshes.meshes[0].radius, 0.03f32.to_bits());
    assert_eq!(materials.materials.len(), 3);
    assert_eq!(materials.materials[0].red, 1.0f32.to_bits());
    assert_eq!(materials.materials[1].green, 1.0f32.to_bits());
    assert_eq!(materials.materials[2].blue, 1.0f32.to_bits());

    let root = &scene.entities[0];
    assert!(root.overlay_tag.is_some());
    assert!(root.parent.is_none());
    assert!(root.projection.is_none());
    assert_eq!(root.transform.scale, vec3_bits(glam::Vec3::splat(0.1)));
    assert_eq!(root.transform.rotation, quat_bits(glam::Quat::IDENTITY));

    let children: Vec<&EntityRecord> =
        scene.entities.iter().filter(|e| e.parent == Some(0)).collect();
    assert_eq!(children.len(), 3);
    for (k, child) in children.iter().enumerate() {
        assert_eq!(child.mesh, Some(0));
        assert_eq!(child.material, Some(k));
        assert!(child.overlay_tag.is_none());
    }
    // Each child lies half a unit along its axis, rotated onto it.
    let half_pi = std::f32::consts::FRAC_PI_2;
    assert_eq!(children[0].transform.translation, vec3_bits(glam::Vec3::new(0.5, 0.0, 0.0)));
    assert_eq!(children[0].transform.rotation, quat_bits(glam::Quat::from_rotation_z(-half_pi)));
    assert_eq!(children[1].transform.translation, vec3_bits(glam::Vec3::new(0.0, 0.5, 0.0)));
    assert_eq!(children[1].transform.rotation, quat_bits(glam::Quat::IDENTITY));
    assert_eq!(children[2].transform.translation, vec3_bits(glam::Vec3::new(0.0, 0.0, 0.5)));
    assert_eq!(children[2].transform.rotation, quat_bits(glam::Quat::from_rotation_x(half_pi)));
}

#[test]
fn toggling_off_despawns_and_on_respawns() {
    let (mut scene, mut meshes, mut materials, mut wa) = fresh();
    wa.enabled = false;
    world_axes_toggle_system(&mut scene, &mut meshes, &mut materials, &mut wa);
    assert!(wa.axes_entity.is_none());
    assert_eq!(scene.entities.len(), 0);
    assert!(scene.entities.iter().all(|e| e.overlay_tag.is_none()));

    wa.enabled = true;
    world_axes_toggle_system(&mut scene, &mut meshes, &mut materials, &mut wa);
    assert_eq!(wa.axes_entity, Some(4));
    assert_eq!(scene.entities.len(), 4);
    let roots: Vec<&EntityRecord> =
        scene.entities.iter().filter(|e| e.overlay_tag.is_some()).collect();
    assert_eq!(roots.len(), 1);
    assert_eq!(scene.entities.iter().filter(|e| e.parent == Some(4)).count(), 3);
}

#[test]
fn toggling_never_registers_new_assets_after_first_spawn() {
    let (mut scene, mut meshes, mut materials, mut wa) = fresh();
    let mesh_handle = wa.axis_mesh;
    let material_handles = wa.standard_materials.clone();
    for _ in 0..5 {
        wa.enabled = false;
        world_axes_toggle_system(&mut scene, &mut meshes, &mut materials, &mut wa);
        wa.enabled = true;
        world_axes_toggle_system(&mut scene, &mut meshes, &mut materials, &mut wa);
        assert_eq!(meshes.meshes.len(), 1);
        assert_eq!(materials.materials.len(), 3);
        assert_eq!(wa.axis_mesh, mesh_handle);
        assert_eq!(wa.standard_materials, material_handles);
    }
}

#[test]
fn toggle_is_idempotent_when_states_agree() {
    let (mut scene, mut meshes, mut materials, mut wa) = fresh();
    let before: Vec<u64> = scene.entities.iter().map(|e| e.id).collect();
    world_axes_toggle_system(&mut scene, &mut meshes, &mut materials, &mut wa);
    let after: Vec<u64> = scene.entities.iter().map(|e| e.id).collect();
    assert_eq!(before, after);
    assert_eq!(wa.axes_entity, Some(0));
}

#[test]
fn orthographic_unprojection_matches_closed_form() {
    let (mut scene, _meshes, _materials, mut wa) = fresh();
    wa.clip_space_position = vec3_bits(glam::Vec3::ZERO);
    let projection = orthographic(-2.0, 2.0, -2.0, 2.0, 0.1, 100.0);
    let world = glam::Mat4::IDENTITY;
    scene.spawn(camera_record(projection, world, glam::Quat::IDENTITY, true, false));

    world_axes_system(&wa, &mut scene);

    let expected = expected_unprojection(projection, world, glam::Vec3::ZERO);
    assert_eq!(root_translation(&scene), expected);
}

#[test]
fn perspective_end_to_end_matches_closed_form() {
    let (mut scene, _meshes, _materials, mut wa) = fresh();
    assert!(wa.enabled);
    wa.clip_space_position = vec3_bits(glam::Vec3::ZERO);
    let projection =
        perspective(60.0f32.to_radians(), 1.0, 0.1, 100.0);
    let world = glam::Mat4::IDENTITY;
    scene.spawn(camera_record(projection, world, glam::Quat::IDENTITY, true, false));

    world_axes_system(&wa, &mut scene);

    let expected = expected_unprojection(projection, world, glam::Vec3::ZERO);
    assert_eq!(root_translation(&scene), expected);
    assert_eq!(scene.entities.iter().filter(|e| e.parent == Some(0)).count(), 3);
}

#[test]
fn overlay_rotation_is_inverse_of_rotation_source() {
    // A deterministic pseudo-random walk over orientations.
    let mut state: u64 = 0x9E3779B97F4A7C15;
    let mut next = move || {
        state = state
            .wrapping_mul(6364136223846793005)
            .wrapping_add(1442695040888963407);
        ((state >> 33) as f32) / ((1u64 << 31) as f32)
    };
    for _ in 0..16 {
        let axis = glam::Vec3::new(next() - 0.5, next() - 0.5, next() - 0.5);
        if axis.length() < 1.0e-3 {
            continue;
        }
        let angle = next() * std::f32::consts::TAU;
        let q = glam::Quat::from_axis_angle(axis.normalize(), angle);

        let (mut scene, _meshes, _materials, wa) = fresh();
        let projection = perspective(1.0, 1.0, 0.1, 100.0);
        scene.spawn(camera_record(projection, glam::Mat4::IDENTITY, q, false, true));
        world_axes_system(&wa, &mut scene);

        // The written rotation is exactly the inverse of the source's.
        assert_eq!(root_rotation(&scene), quat_bits(q.inverse()));

        // Composing it with the source yields the identity rotation, within
        // floating-point tolerance.
        let r = root_rotation(&scene);
        let written = glam::Quat::from_xyzw(
            f32::from_bits(r.x),
            f32::from_bits(r.y),
            f32::from_bits(r.z),
            f32::from_bits(r.w),
        );
        let composed = written * q;
        assert!(composed.w.abs() > 1.0 - 1.0e-5);
        assert!(composed.x.abs() < 1.0e-5);
        assert!(composed.y.abs() < 1.0e-5);
        assert!(composed.z.abs() < 1.0e-5);
    }
}

#[test]
fn missing_position_source_skips_the_write() {
    let (mut scene, _meshes, _materials, wa) = fresh();
    let before = root_translation(&scene);
    world_axes_system(&wa, &mut scene);
    assert_eq!(root_translation(&scene), before);
}

#[test]
fn ambiguous_position_source_skips_the_write() {
    let (mut scene, _meshes, _materials, wa) = fresh();
    let projection = perspective(1.0, 1.0, 0.1, 100.0);
    let world = glam::Mat4::from_translation(glam::Vec3::new(1.0, 2.0, 3.0));
    scene.spawn(camera_record(projection, world, glam::Quat::IDENTITY, true, false));
    scene.spawn(camera_record(projection, world, glam::Quat::IDENTITY, true, false));
    let before = root_translation(&scene);
    world_axes_system(&wa, &mut scene);
    assert_eq!(root_translation(&scene), before);
}

#[test]
fn ambiguous_rotation_source_skips_the_write() {
    let (mut scene, _meshes, _materials, wa) = fresh();
    let projection = perspective(1.0, 1.0, 0.1, 100.0);
    let q = glam::Quat::from_rotation_y(0.5);
    scene.spawn(camera_record(projection, glam::Mat4::IDENTITY, q, false, true));
    scene.spawn(camera_record(projection, glam::Mat4::IDENTITY, q, false, true));
    let before = root_rotation(&scene);
    world_axes_system(&wa, &mut scene);
    assert_eq!(root_rotation(&scene), before);
}

#[test]
fn disabled_overlay_is_left_alone_by_the_sync() {
    let (mut scene, mut meshes, mut materials, mut wa) = fresh();
    let projection = perspective(1.0, 1.0, 0.1, 100.0);
    scene.spawn(camera_record(projection, glam::Mat4::IDENTITY, glam::Quat::IDENTITY, true, true));
    wa.enabled = false;
    world_axes_toggle_system(&mut scene, &mut meshes, &mut materials, &mut wa);
    let ids: Vec<u64> = scene.entities.iter().map(|e| e.id).collect();
    world_axes_system(&wa, &mut scene);
    let ids_after: Vec<u64> = scene.entities.iter().map(|e| e.id).collect();
    assert_eq!(ids, ids_after);
    assert!(scene.entities.iter().all(|e| e.overlay_tag.is_none()));
}

#[test]
fn position_and_rotation_sources_may_be_different_cameras() {
    let (mut scene, _meshes, _materials, wa) = fresh();
    let projection = orthographic(-1.0, 1.0, -1.0, 1.0, 0.1, 10.0);
    let world = glam::Mat4::from_translation(glam::Vec3::new(0.0, 5.0, 0.0));
    scene.spawn(camera_record(projection, world, glam::Quat::IDENTITY, true, false));
    let q = glam::Quat::from_rotation_x(1.25);
    let nav_projection = perspective(1.0, 1.0, 0.1, 100.0);
    scene.spawn(camera_record(nav_projection, glam::Mat4::IDENTITY, q, false, true));

    world_axes_system(&wa, &mut scene);

    let anchor = glam::Vec3::new(
        f32::from_bits(wa.clip_space_position.x),
        f32::from_bits(wa.clip_space_position.y),
        f32::from_bits(wa.clip_space_position.z),
    );
    assert_eq!(root_translation(&scene), expected_unprojection(projection, world, anchor));
    assert_eq!(root_rotation(&scene), quat_bits(q.inverse()));
}

#[test]
fn despawn_without_subtree_is_a_no_op() {
    let (mut scene, mut meshes, mut materials, mut wa) = fresh();
    wa.enabled = false;
    world_axes_toggle_system(&mut scene, &mut meshes, &mut materials, &mut wa);
    assert!(wa.axes_entity.is_none());
    let len = scene.entities.len();
    despawn_world_axes(&mut scene, &mut wa);
    assert!(wa.axes_entity.is_none());
    assert_eq!(scene.entities.len(), len);
}

#[test]
fn despawn_removes_root_and_children_only() {
    let (mut scene, _meshes, _materials, mut wa) = fresh();
    let projection = perspective(1.0, 1.0, 0.1, 100.0);
    let camera = scene.spawn(camera_record(projection, glam::Mat4::IDENTITY, glam::Quat::IDENTITY, true, true));
    despawn_world_axes(&mut scene, &mut wa);
    assert!(wa.axes_entity.is_none());
    assert_eq!(scene.entities.len(), 1);
    assert_eq!(scene.entities[0].id, camera);
}
