use furnace::mesh::{check_indices, Mesh, MeshError, PrimitiveKind};

fn square_vertices() -> Vec<[f32; 4]> {
    vec![
        [-1.0, -1.0, 0.0, 1.0],
        [1.0, -1.0, 0.0, 1.0],
        [-1.0, 1.0, 0.0, 1.0],
        [1.0, 1.0, 0.0, 1.0],
    ]
}

#[test]
fn mesh_keeps_geometry() {
    let m = Mesh::new(square_vertices(), PrimitiveKind::TriangleStrip, vec![0, 1, 2, 3]).unwrap();
    assert_eq!(m.vertices(), &square_vertices());
    assert_eq!(m.kind(), PrimitiveKind::TriangleStrip);
    assert_eq!(m.indices(), &vec![0u16, 1, 2, 3]);
}

#[test]
fn mesh_accepts_empty_index_list() {
    let m = Mesh::new(Vec::<[f32; 4]>::new(), PrimitiveKind::TrianglesList, vec![]).unwrap();
    assert!(m.indices().is_empty());
}

#[test]
fn mesh_accepts_last_vertex_index() {
    let m = Mesh::new(square_vertices(), PrimitiveKind::TrianglesList, vec![3, 3, 3]);
    assert!(m.is_ok());
}

#[test]
fn mesh_rejects_index_equal_to_vertex_count() {
    let m = Mesh::new(square_vertices(), PrimitiveKind::TriangleStrip, vec![0, 1, 4, 2]);
    assert_eq!(m.err(), Some(MeshError::MeshIndexOutOfRange { position: 2, index: 4 }));
}

#[test]
fn mesh_reports_first_bad_index() {
    let m = Mesh::new(square_vertices(), PrimitiveKind::TrianglesList, vec![0, 9, 1, 7, 2, 3]);
    assert_eq!(m.err(), Some(MeshError::MeshIndexOutOfRange { position: 1, index: 9 }));
}

#[test]
fn mesh_without_vertices_rejects_any_index() {
    let m = Mesh::new(Vec::<[f32; 4]>::new(), PrimitiveKind::TrianglesList, vec![0]);
    assert_eq!(m.err(), Some(MeshError::MeshIndexOutOfRange { position: 0, index: 0 }));
}

#[test]
fn check_indices_on_cube_faces() {
    let cube: Vec<u16> = vec![
        0, 2, 1, 3, 1, 2, 2, 6, 3, 7, 3, 6, 4, 5, 6, 7, 6, 5, 0, 1, 4, 5, 4, 1, 1, 3, 5, 7, 5, 3,
        0, 4, 2, 6, 2, 4,
    ];
    assert_eq!(check_indices(&cube, 8), Ok(()));
    assert_eq!(
        check_indices(&cube, 7),
        Err(MeshError::MeshIndexOutOfRange { position: 9, index: 7 })
    );
}

#[test]
fn check_indices_largest_index() {
    assert_eq!(check_indices(&vec![u16::MAX], 65536), Ok(()));
    assert_eq!(
        check_indices(&vec![u16::MAX], 65535),
        Err(MeshError::MeshIndexOutOfRange { position: 0, index: u16::MAX })
    );
}
