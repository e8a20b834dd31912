use pentagon::buffer::{
    components_of, index_buffer, index_buffer_contents, vertex_buffer, vertex_buffer_contents,
    BufferUsage,
};
use pentagon::vertex::{vertices, Vertex, INDICES};

#[test]
fn index_buffer_holds_the_indices() {
    let bytes = index_buffer_contents();
    assert_eq!(bytes.len(), 18);
    let decoded: Vec<u16> =
        bytes.chunks(2).map(|pair| u16::from_ne_bytes([pair[0], pair[1]])).collect();
    assert_eq!(decoded, INDICES.to_vec());
}

#[test]
fn index_buffer_is_the_cast_of_the_indices() {
    let expected: &[u8] = bytemuck::cast_slice(&INDICES);
    assert_eq!(index_buffer_contents(), expected.to_vec());
}

#[test]
fn vertex_buffer_holds_the_vertices() {
    let bytes = vertex_buffer_contents();
    assert_eq!(bytes.len(), 100);
    let word = |at: usize| {
        u32::from_ne_bytes([bytes[at], bytes[at + 1], bytes[at + 2], bytes[at + 3]])
    };
    for (k, vertex) in vertices().iter().enumerate() {
        for c in 0..3 {
            assert_eq!(word(k * 20 + 4 * c), vertex.position[c]);
        }
        for c in 0..2 {
            assert_eq!(word(k * 20 + 12 + 4 * c), vertex.tex_coords[c]);
        }
    }
}

#[test]
fn vertex_buffer_is_the_cast_of_the_coordinates() {
    let coordinates: [[f32; 5]; 5] = [
        [-0.0868241, 0.49240386, 0.0, 0.4131759, 0.00759614],
        [-0.49513406, 0.06958647, 0.0, 0.0048659444, 0.43041354],
        [-0.21918549, -0.44939706, 0.0, 0.28081453, 0.949397],
        [0.35966998, -0.3473291, 0.0, 0.85967, 0.84732914],
        [0.44147372, 0.2347359, 0.0, 0.9414737, 0.2652641],
    ];
    let expected: &[u8] = bytemuck::cast_slice(&coordinates);
    assert_eq!(vertex_buffer_contents(), expected.to_vec());
}

#[test]
fn first_position_reads_back_as_a_number() {
    let bytes = vertex_buffer_contents();
    let x = f32::from_ne_bytes([bytes[0], bytes[1], bytes[2], bytes[3]]);
    assert_eq!(x, -0.0868241);
}

#[test]
fn components_go_position_first() {
    let mesh = vec![
        Vertex { position: [1, 2, 3], tex_coords: [4, 5] },
        Vertex { position: [6, 7, 8], tex_coords: [9, 10] },
    ];
    assert_eq!(components_of(&mesh), vec![1, 2, 3, 4, 5, 6, 7, 8, 9, 10]);
}

#[test]
fn components_of_no_vertices() {
    assert_eq!(components_of(&Vec::new()), Vec::<u32>::new());
}

#[test]
fn vertex_buffer_is_unlabelled_and_bound_as_vertices() {
    let buffer = vertex_buffer();
    assert_eq!(buffer.label, None);
    assert_eq!(buffer.usage, BufferUsage::Vertex);
    assert_eq!(buffer.contents, vertex_buffer_contents());
}

#[test]
fn index_buffer_is_labelled_and_bound_as_indices() {
    let buffer = index_buffer();
    assert_eq!(buffer.label, Some("Index Buffer"));
    assert_eq!(buffer.usage, BufferUsage::Index);
    assert_eq!(buffer.contents, index_buffer_contents());
}
