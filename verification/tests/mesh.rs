use pentagon::vertex::{
    vertices, Vertex, VertexAttribute, VertexFormat, VertexStepMode, COMPONENT_SIZE, INDICES,
    TRIANGLE_COUNT, VERTEX_COMPONENTS, VERTEX_COUNT, VERTEX_DATA, VERTEX_SIZE,
};

fn floats(vertex: &Vertex) -> ([f32; 3], [f32; 2]) {
    (
        [
            f32::from_bits(vertex.position[0]),
            f32::from_bits(vertex.position[1]),
            f32::from_bits(vertex.position[2]),
        ],
        [f32::from_bits(vertex.tex_coords[0]), f32::from_bits(vertex.tex_coords[1])],
    )
}

#[test]
fn mesh_has_five_vertices() {
    assert_eq!(vertices().len(), 5);
    assert_eq!(VERTEX_COUNT, 5);
}

#[test]
fn vertices_hold_the_corners_of_the_pentagon() {
    let mesh = vertices();
    assert_eq!(floats(&mesh[0]), ([-0.0868241, 0.49240386, 0.0], [0.4131759, 0.00759614]));
    assert_eq!(floats(&mesh[1]), ([-0.49513406, 0.06958647, 0.0], [0.0048659444, 0.43041354]));
    assert_eq!(floats(&mesh[2]), ([-0.21918549, -0.44939706, 0.0], [0.28081453, 0.949397]));
    assert_eq!(floats(&mesh[3]), ([0.35966998, -0.3473291, 0.0], [0.85967, 0.84732914]));
    assert_eq!(floats(&mesh[4]), ([0.44147372, 0.2347359, 0.0], [0.9414737, 0.2652641]));
}

#[test]
fn vertices_are_the_rows_of_the_table() {
    let mesh = vertices();
    assert_eq!(mesh.len(), VERTEX_DATA.len());
    for (vertex, row) in mesh.iter().zip(VERTEX_DATA.iter()) {
        assert_eq!(vertex.position, [row[0], row[1], row[2]]);
        assert_eq!(vertex.tex_coords, [row[3], row[4]]);
    }
}

#[test]
fn from_components_takes_position_then_tex_coords() {
    assert_eq!(
        Vertex::from_components([1, 2, 3, 4, 5]),
        Vertex { position: [1, 2, 3], tex_coords: [4, 5] }
    );
}

#[test]
fn texture_coordinates_follow_the_positions() {
    for vertex in vertices() {
        let (position, tex_coords) = floats(&vertex);
        assert!((tex_coords[0] - (position[0] + 0.5)).abs() < 1e-6);
        assert!((tex_coords[1] - (0.5 - position[1])).abs() < 1e-6);
        assert_eq!(position[2], 0.0);
    }
}

#[test]
fn indices_are_the_fan() {
    assert_eq!(INDICES, [0, 1, 4, 1, 2, 4, 2, 3, 4]);
}

#[test]
fn indices_reference_vertices() {
    let count = vertices().len();
    for index in INDICES {
        assert!((index as usize) < count);
        assert!(index <= 4);
    }
}

#[test]
fn indices_make_three_triangles() {
    assert_eq!(TRIANGLE_COUNT, 3);
    assert_eq!(INDICES.len(), 3 * TRIANGLE_COUNT);
    assert_eq!(INDICES.len() % 3, 0);
    for corners in INDICES.chunks(3) {
        assert_ne!(corners[0], corners[1]);
        assert_ne!(corners[1], corners[2]);
        assert_ne!(corners[0], corners[2]);
    }
}

#[test]
fn every_vertex_is_drawn() {
    for vertex in 0..VERTEX_COUNT {
        assert!(INDICES.iter().any(|index| *index as usize == vertex));
    }
}

#[test]
fn format_sizes() {
    assert_eq!(VertexFormat::Float32x2.size(), 8);
    assert_eq!(VertexFormat::Float32x3.size(), 12);
    assert_eq!(COMPONENT_SIZE, std::mem::size_of::<f32>() as u64);
}

#[test]
fn desc_describes_position_then_tex_coords() {
    let layout = Vertex::desc();
    assert_eq!(layout.array_stride, 20);
    assert_eq!(layout.step_mode, VertexStepMode::Vertex);
    assert_eq!(
        layout.attributes,
        vec![
            VertexAttribute { format: VertexFormat::Float32x3, offset: 0, shader_location: 0 },
            VertexAttribute { format: VertexFormat::Float32x2, offset: 12, shader_location: 1 },
        ]
    );
}

#[test]
fn desc_matches_the_size_of_a_vertex() {
    let layout = Vertex::desc();
    assert_eq!(layout.array_stride, std::mem::size_of::<Vertex>() as u64);
    assert_eq!(layout.array_stride, VERTEX_SIZE);
    assert_eq!(VERTEX_SIZE, VERTEX_COMPONENTS as u64 * COMPONENT_SIZE);
    assert_eq!(layout.attributes[1].offset, std::mem::size_of::<[f32; 3]>() as u64);
}

#[test]
fn desc_is_packed() {
    let layout = Vertex::desc();
    let mut end = 0;
    for (location, attribute) in layout.attributes.iter().enumerate() {
        assert_eq!(attribute.offset, end);
        assert_eq!(attribute.shader_location as usize, location);
        end += attribute.format.size();
    }
    assert_eq!(end, layout.array_stride);
}
