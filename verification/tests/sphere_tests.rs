use hexasphere::shapes::CubeSphere;
use hexasphere::shapes::IcoSphere;
use noisy_shapes::mesh::MeshBuildError;
use noisy_shapes::sphere::sphere_indices;
use noisy_shapes::sphere::sphere_mesh_buffers;
use noisy_shapes::sphere::sphere_point_count;
use noisy_shapes::NoisySphereKind;

#[test]
fn undivided_cube_topology_has_eight_corner_points() {
    let kind = NoisySphereKind::Cubed { subdivisions: 0 };
    assert_eq!(sphere_point_count(&kind), 8);
}

#[test]
fn undivided_ico_topology_has_twelve_points() {
    let kind = NoisySphereKind::Ico { subdivisions: 0 };
    assert_eq!(sphere_point_count(&kind), 12);
}

#[test]
fn undivided_cube_indices_are_twelve_faces_of_one_triangle() {
    let kind = NoisySphereKind::Cubed { subdivisions: 0 };
    let indices = sphere_indices(&kind);
    assert_eq!(indices.len(), 36);
    assert_eq!(indices.len() % 3, 0);
    assert!(indices.iter().all(|&i| i < 8));
    for corner in 0..8u32 {
        assert!(indices.contains(&corner));
    }
}

#[test]
fn undivided_ico_indices_are_twenty_faces_of_one_triangle() {
    let kind = NoisySphereKind::Ico { subdivisions: 0 };
    let indices = sphere_indices(&kind);
    assert_eq!(indices.len(), 60);
    assert!(indices.iter().all(|&i| i < 12));
}

#[test]
fn cube_indices_match_the_base_topology_collaborator() {
    for level in [0u32, 1, 2] {
        let kind = NoisySphereKind::Cubed { subdivisions: level };
        let ours = sphere_indices(&kind);
        let base: CubeSphere<()> = CubeSphere::new(level as usize, |_| ());
        assert_eq!(ours, base.get_all_indices());
        assert_eq!(sphere_point_count(&kind), base.raw_points().len());
    }
}

#[test]
fn ico_indices_match_the_base_topology_collaborator() {
    for level in [0u32, 1, 3] {
        let kind = NoisySphereKind::Ico { subdivisions: level };
        let ours = sphere_indices(&kind);
        let base: IcoSphere<()> = IcoSphere::new(level as usize, |_| ());
        assert_eq!(ours, base.get_all_indices());
        assert_eq!(sphere_point_count(&kind), base.raw_points().len());
    }
}

#[test]
fn sphere_index_count_is_faces_times_per_face_block() {
    for (kind, faces) in [
        (NoisySphereKind::Cubed { subdivisions: 2 }, 12usize),
        (NoisySphereKind::Ico { subdivisions: 2 }, 20usize),
    ] {
        let indices = sphere_indices(&kind);
        assert_eq!(indices.len() % faces, 0);
        let per_face = indices.len() / faces;
        assert_eq!(indices.len(), faces * per_face);
        assert_eq!(per_face % 3, 0);
        let count = sphere_point_count(&kind) as u32;
        assert!(indices.iter().all(|&i| i < count));
    }
}

#[test]
fn sphere_structure_ignores_everything_but_the_kind() {
    // Two builds with the same topology kind share points and indices, so a
    // configuration change that leaves the kind alone (offset, sampler,
    // radius, colors) cannot alter the structure.
    let kind = NoisySphereKind::Cubed { subdivisions: 1 };
    assert_eq!(sphere_indices(&kind), sphere_indices(&kind));
    assert_eq!(sphere_point_count(&kind), sphere_point_count(&kind));
    let first: CubeSphere<()> = CubeSphere::new(1, |_| ());
    let second: CubeSphere<()> = CubeSphere::new(1, |_| ());
    assert_eq!(first.raw_points(), second.raw_points());
}

#[test]
fn undivided_cube_raw_points_lie_on_the_unit_sphere() {
    // The displaced radius of a raw point under the "none" sampler is the
    // configured radius exactly, because every raw point has length one.
    let base: CubeSphere<()> = CubeSphere::new(0, |_| ());
    for p in base.raw_points() {
        assert!((p.length() - 1.0).abs() < 1.0e-6);
    }
}

fn sphere_attributes(count: usize) -> (Vec<[f32; 3]>, Vec<[f32; 2]>, Vec<[f32; 4]>) {
    let positions = (0..count).map(|i| [i as f32, 0.0, 0.0]).collect();
    let uvs = (0..count).map(|i| [i as f32, 1.0]).collect();
    let colors = (0..count).map(|_| [0.0, 1.0, 0.0, 1.0]).collect();
    (positions, uvs, colors)
}

#[test]
fn sphere_assembly_accepts_parallel_arrays() {
    let kind = NoisySphereKind::Cubed { subdivisions: 0 };
    let (positions, uvs, colors) = sphere_attributes(8);
    let buffers = sphere_mesh_buffers(&kind, true, positions.clone(), uvs, Some(colors))
        .expect("parallel arrays fit the topology");
    assert_eq!(buffers.positions, positions);
    assert!(buffers.colors.is_some());
    assert_eq!(buffers.indices, sphere_indices(&kind));
}

#[test]
fn sphere_assembly_rejects_mismatched_arrays() {
    let kind = NoisySphereKind::Cubed { subdivisions: 0 };
    let (positions, uvs, colors) = sphere_attributes(7);
    let r = sphere_mesh_buffers(&kind, true, positions, uvs, Some(colors));
    assert_eq!(r.unwrap_err(), MeshBuildError::PositionCount);

    let (positions, _, _) = sphere_attributes(8);
    let (_, uvs, _) = sphere_attributes(3);
    let r = sphere_mesh_buffers::<[f32; 3], [f32; 2], [f32; 4]>(&kind, false, positions, uvs, None);
    assert_eq!(r.unwrap_err(), MeshBuildError::UvCount);

    let (positions, uvs, _) = sphere_attributes(8);
    let r = sphere_mesh_buffers::<[f32; 3], [f32; 2], [f32; 4]>(&kind, true, positions, uvs, None);
    assert_eq!(r.unwrap_err(), MeshBuildError::ColorPresence);
}

#[test]
fn sphere_kind_reports_faces_and_subdivisions() {
    let cubed = NoisySphereKind::Cubed { subdivisions: 3 };
    let ico = NoisySphereKind::Ico { subdivisions: 4 };
    assert_eq!(cubed.faces(), 12);
    assert_eq!(ico.faces(), 20);
    assert_eq!(cubed.subdivisions(), 3);
    assert_eq!(ico.subdivisions(), 4);
    assert_eq!(
        NoisySphereKind::default(),
        NoisySphereKind::Cubed { subdivisions: 5 }
    );
}
