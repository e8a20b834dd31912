//! What the vertex buffer and the index buffer are created with: the bytes
//! of the mesh as they lie in memory, and the use each buffer is put to.

use crate::vertex::{
    mesh_vertices, vertices, Vertex, COMPONENT_SIZE, INDICES, VERTEX_COMPONENTS, VERTEX_DATA,
    VERTEX_SIZE,
};
use vstd::prelude::*;
use vstd::slice::slice_to_vec;

verus! {

/// The order in which the bytes of a word lie in memory.
#[derive(Clone, Copy, Debug, PartialEq, Eq, Structural)]
pub enum ByteOrder {
    /// Least significant byte first.
    LittleEndian,
    /// Most significant byte first.
    BigEndian,
}

/// What a buffer is bound as.
#[derive(Clone, Copy, Debug, PartialEq, Eq, Structural)]
pub enum BufferUsage {
    Vertex,
    Index,
}

/// A buffer to create on the device, filled from the start.
#[derive(Debug, PartialEq, Eq)]
pub struct BufferInit {
    pub label: Option<&'static str>,
    pub contents: Vec<u8>,
    pub usage: BufferUsage,
}

/// The two bytes of `word`, least significant first.
pub open spec fn le_bytes_u16(word: u16) -> Seq<u8> {
    seq![(word % 256) as u8, (word / 256) as u8]
}

/// The four bytes of `word`, least significant first.
pub open spec fn le_bytes_u32(word: u32) -> Seq<u8> {
    seq![
        (word % 256) as u8,
        (word / 256 % 256) as u8,
        (word / 65536 % 256) as u8,
        (word / 16777216) as u8,
    ]
}

/// The two bytes of `word` in the given order.
pub open spec fn bytes_of_u16(word: u16, order: ByteOrder) -> Seq<u8> {
    match order {
        ByteOrder::LittleEndian => le_bytes_u16(word),
        ByteOrder::BigEndian => le_bytes_u16(word).reverse(),
    }
}

/// The four bytes of `word` in the given order.
pub open spec fn bytes_of_u32(word: u32, order: ByteOrder) -> Seq<u8> {
    match order {
        ByteOrder::LittleEndian => le_bytes_u32(word),
        ByteOrder::BigEndian => le_bytes_u32(word).reverse(),
    }
}

/// `bytes` holds the 16-bit `words` one after the other, each in the given
/// byte order.
pub open spec fn encodes_u16s(bytes: Seq<u8>, words: Seq<u16>, order: ByteOrder) -> bool {
    &&& bytes.len() == 2 * words.len()
    &&& forall|i: int|
        0 <= i < words.len() ==> bytes.subrange(2 * i, 2 * i + 2) == bytes_of_u16(
            #[trigger] words[i],
            order,
        )
}

/// `bytes` holds the 32-bit `words` one after the other, each in the given
/// byte order.
pub open spec fn encodes_u32s(bytes: Seq<u8>, words: Seq<u32>, order: ByteOrder) -> bool {
    &&& bytes.len() == 4 * words.len()
    &&& forall|i: int|
        0 <= i < words.len() ==> bytes.subrange(4 * i, 4 * i + 4) == bytes_of_u32(
            #[trigger] words[i],
            order,
        )
}

/// `bytes` is how the 16-bit `words` lie in memory, in one of the two byte
/// orders a machine can have.
pub open spec fn in_memory_u16s(bytes: Seq<u8>, words: Seq<u16>) -> bool {
    exists|order: ByteOrder| encodes_u16s(bytes, words, order)
}

/// `bytes` is how the 32-bit `words` lie in memory, in one of the two byte
/// orders a machine can have.
pub open spec fn in_memory_u32s(bytes: Seq<u8>, words: Seq<u32>) -> bool {
    exists|order: ByteOrder| encodes_u32s(bytes, words, order)
}

/// The components of all vertices of `mesh` in buffer order, vertex after
/// vertex.
pub open spec fn flat_components(mesh: Seq<Vertex>) -> Seq<u32> {
    Seq::new(mesh.len() * VERTEX_COMPONENTS as nat, |i: int| mesh[i / 5].component(i % 5))
}

/// Views a slice of 16-bit words as the bytes it occupies.
///
/// Calls `bytemuck::cast_slice` from `u16` to `u8`. Not proved: that the
/// result has two bytes for each word, which are that word's bytes at its
/// place in the slice, in the byte order of the machine. The cast cannot
/// fail: bytes have no alignment, and any length is a whole number of bytes.
#[verifier::external_body]
fn cast_u16s<'a>(words: &'a [u16]) -> (bytes: &'a [u8])
    ensures
        in_memory_u16s(bytes@, words@),
{
    bytemuck::cast_slice(words)
}

/// Views a slice of 32-bit words as the bytes it occupies.
///
/// Calls `bytemuck::cast_slice` from `u32` to `u8`. Not proved: that the
/// result has four bytes for each word, which are that word's bytes at its
/// place in the slice, in the byte order of the machine. The cast cannot
/// fail: bytes have no alignment, and any length is a whole number of bytes.
#[verifier::external_body]
fn cast_u32s<'a>(words: &'a [u32]) -> (bytes: &'a [u8])
    ensures
        in_memory_u32s(bytes@, words@),
{
    bytemuck::cast_slice(words)
}

/// Lays the components of the vertices of `mesh` out in buffer order.
pub fn components_of(mesh: &Vec<Vertex>) -> (words: Vec<u32>)
    ensures
        words@ == flat_components(mesh@),
{
    let mut words: Vec<u32> = Vec::new();
    let mut i: usize = 0;
    while i < mesh.len()
        invariant
            i <= mesh.len(),
            words@.len() == i * 5,
            forall|j: int| 0 <= j < i * 5 ==> words@[j] == mesh@[j / 5].component(j % 5),
        decreases mesh.len() - i,
    {
        let vertex = &mesh[i];
        words.push(vertex.position[0]);
        words.push(vertex.position[1]);
        words.push(vertex.position[2]);
        words.push(vertex.tex_coords[0]);
        words.push(vertex.tex_coords[1]);
        i += 1;
    }
    assert(words@ =~= flat_components(mesh@));
    words
}

/// The bytes the vertex buffer is created with: the vertices of the mesh,
/// 20 bytes each, as they lie in memory.
pub fn vertex_buffer_contents() -> (bytes: Vec<u8>)
    ensures
        in_memory_u32s(bytes@, flat_components(mesh_vertices())),
        bytes@.len() == mesh_vertices().len() * VERTEX_SIZE,
{
    let mesh = vertices();
    let words = components_of(&mesh);
    slice_to_vec(cast_u32s(words.as_slice()))
}

/// The bytes the index buffer is created with: the indices of the mesh, two
/// bytes each, as they lie in memory.
pub fn index_buffer_contents() -> (bytes: Vec<u8>)
    ensures
        in_memory_u16s(bytes@, INDICES@),
        bytes@.len() == 2 * INDICES@.len(),
{
    slice_to_vec(cast_u16s(INDICES.as_slice()))
}

/// The vertex buffer, to be created on the device.
pub fn vertex_buffer() -> (buffer: BufferInit)
    ensures
        buffer.label.is_none(),
        buffer.usage == BufferUsage::Vertex,
        in_memory_u32s(buffer.contents@, flat_components(mesh_vertices())),
{
    BufferInit { label: None, contents: vertex_buffer_contents(), usage: BufferUsage::Vertex }
}

/// The index buffer, to be created on the device.
pub fn index_buffer() -> (buffer: BufferInit)
    ensures
        buffer.label matches Some(label) && label@ == "Index Buffer"@,
        buffer.usage == BufferUsage::Index,
        in_memory_u16s(buffer.contents@, INDICES@),
{
    BufferInit {
        label: Some("Index Buffer"),
        contents: index_buffer_contents(),
        usage: BufferUsage::Index,
    }
}

/// The components of the mesh in buffer order are the rows of the vertex
/// table, one after the other.
pub proof fn lemma_mesh_components_are_the_table()
    ensures
        flat_components(mesh_vertices()).len() == 25,
        forall|k: int, c: int|
            0 <= k < 5 && 0 <= c < 5 ==> flat_components(mesh_vertices())[5 * k + c] == (
            #[trigger] VERTEX_DATA@[k]@[c]),
{
    assert forall|k: int, c: int| 0 <= k < 5 && 0 <= c < 5 implies flat_components(
        mesh_vertices(),
    )[5 * k + c] == (#[trigger] VERTEX_DATA@[k]@[c]) by {
        let i = 5 * k + c;
        assert(i / 5 == k && i % 5 == c);
        assert(mesh_vertices()[k] == Vertex::spec_from_components(VERTEX_DATA@[k]));
    }
}

/// In a vertex buffer that holds `mesh`, component `c` of vertex `k` lies
/// `c` components into the vertex, and the vertex lies `k` strides into the
/// buffer: the position of a vertex starts at offset 0 within it, and its
/// texture coordinates right after the three components of the position.
pub proof fn lemma_buffer_follows_layout(
    bytes: Seq<u8>,
    mesh: Seq<Vertex>,
    order: ByteOrder,
    k: int,
    c: int,
)
    requires
        encodes_u32s(bytes, flat_components(mesh), order),
        0 <= k < mesh.len(),
    ensures
        0 <= c < 3 ==> bytes.subrange(
            k * VERTEX_SIZE + Vertex::spec_desc().attributes[0].offset + c * COMPONENT_SIZE,
            k * VERTEX_SIZE + Vertex::spec_desc().attributes[0].offset + c * COMPONENT_SIZE + 4,
        ) == bytes_of_u32(mesh[k].position@[c], order),
        0 <= c < 2 ==> bytes.subrange(
            k * VERTEX_SIZE + Vertex::spec_desc().attributes[1].offset + c * COMPONENT_SIZE,
            k * VERTEX_SIZE + Vertex::spec_desc().attributes[1].offset + c * COMPONENT_SIZE + 4,
        ) == bytes_of_u32(mesh[k].tex_coords@[c], order),
{
    let words = flat_components(mesh);
    if 0 <= c < 3 {
        let i = 5 * k + c;
        assert(words[i] == mesh[i / 5].component(i % 5));
        assert(4 * i == k * 20 + 0 + c * 4);
    }
    if 0 <= c < 2 {
        let i = 5 * k + 3 + c;
        assert(words[i] == mesh[i / 5].component(i % 5));
        assert(4 * i == k * 20 + 12 + c * 4);
    }
}

} // verus!
