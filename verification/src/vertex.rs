//! The pentagon mesh: its vertices, its triangles, and how one vertex is
//! laid out for the vertex stage.
//!
//! Coordinates are held as IEEE-754 single-precision bit patterns. The
//! library never computes with them; it only places them in the vertex
//! buffer, where the GPU reads them as numbers.

use vstd::prelude::*;

verus! {

/// Bytes taken by one component of a vertex attribute.
pub const COMPONENT_SIZE: u64 = 4;

/// Components of a vertex, position first: three of the position, two of the
/// texture coordinates.
pub const VERTEX_COMPONENTS: usize = 5;

/// Bytes taken by one vertex in the vertex buffer.
pub const VERTEX_SIZE: u64 = 20;

/// Vertices of the mesh.
pub const VERTEX_COUNT: usize = 5;

/// Triangles of the mesh.
pub const TRIANGLE_COUNT: usize = 3;

/// The triangles, three corners each, as positions in the vertex array: a fan
/// around the last vertex that covers the pentagon.
pub const INDICES: [u16; 9] = [0, 1, 4, 1, 2, 4, 2, 3, 4];

/// The components of the vertices, one row each: the position x, y, z in clip
/// space, then the texture coordinates u, v. The rows go counter-clockwise
/// from the top of the pentagon.
pub const VERTEX_DATA: [[u32; 5]; 5] = [
    // -0.0868241, 0.49240386, 0.0; 0.4131759, 0.00759614
    [0xBDB1D0D5, 0x3EFC1C5C, 0x00000000, 0x3ED38BCB, 0x3BF8E90A],
    // -0.49513406, 0.06958647, 0.0; 0.0048659444, 0.43041354
    [0xBEFD8236, 0x3D8E835A, 0x00000000, 0x3B9F7280, 0x3EDC5F2A],
    // -0.21918549, -0.44939706, 0.0; 0.28081453, 0.949397
    [0xBE607229, 0xBEE6175F, 0x00000000, 0x3E8FC6EC, 0x3F730BAF],
    // 0.35966998, -0.3473291, 0.0; 0.85967, 0.84732914
    [0x3EB826AA, 0xBEB1D51F, 0x00000000, 0x3F5C1355, 0x3F58EA90],
    // 0.44147372, 0.2347359, 0.0; 0.9414737, 0.2652641
    [0x3EE208D8, 0x3E705E9C, 0x00000000, 0x3F71046C, 0x3E87D0B2],
];

/// One corner of the mesh.
#[derive(Clone, Copy, Debug, PartialEq, Eq)]
pub struct Vertex {
    /// x, y, z in clip space, as bit patterns.
    pub position: [u32; 3],
    /// u, v in the texture, as bit patterns.
    pub tex_coords: [u32; 2],
}

/// The format of one vertex attribute.
#[derive(Clone, Copy, Debug, PartialEq, Eq, Structural)]
pub enum VertexFormat {
    /// Two single-precision components.
    Float32x2,
    /// Three single-precision components.
    Float32x3,
}

/// Whether a vertex buffer advances per vertex or per instance.
#[derive(Clone, Copy, Debug, PartialEq, Eq, Structural)]
pub enum VertexStepMode {
    Vertex,
    Instance,
}

/// One input of the vertex stage: where it starts within a vertex, what it
/// holds, and the shader location that receives it.
#[derive(Clone, Copy, Debug, PartialEq, Eq, Structural)]
pub struct VertexAttribute {
    pub format: VertexFormat,
    pub offset: u64,
    pub shader_location: u32,
}

/// How the vertex stage reads a vertex buffer.
#[derive(Debug, PartialEq, Eq)]
pub struct VertexBufferLayout {
    /// Bytes from one vertex to the next.
    pub array_stride: u64,
    pub step_mode: VertexStepMode,
    pub attributes: Vec<VertexAttribute>,
}

/// A `VertexBufferLayout` as a mathematical value.
pub struct VertexBufferLayoutView {
    pub array_stride: u64,
    pub step_mode: VertexStepMode,
    pub attributes: Seq<VertexAttribute>,
}

impl VertexFormat {
    /// Components of an attribute of this format.
    pub open spec fn components(self) -> nat {
        match self {
            VertexFormat::Float32x2 => 2,
            VertexFormat::Float32x3 => 3,
        }
    }

    /// Bytes taken by an attribute of this format.
    pub open spec fn spec_size(self) -> u64 {
        match self {
            VertexFormat::Float32x2 => 8,
            VertexFormat::Float32x3 => 12,
        }
    }

    /// Bytes taken by an attribute of this format.
    #[verifier::when_used_as_spec(spec_size)]
    pub fn size(self) -> (bytes: u64)
        ensures
            bytes == self.spec_size(),
            bytes == self.components() * COMPONENT_SIZE,
    {
        match self {
            VertexFormat::Float32x2 => 8,
            VertexFormat::Float32x3 => 12,
        }
    }
}

impl VertexAttribute {
    /// The offset just past this attribute.
    pub open spec fn end(self) -> int {
        self.offset + self.format.spec_size()
    }
}

impl View for VertexBufferLayout {
    type V = VertexBufferLayoutView;

    open spec fn view(&self) -> VertexBufferLayoutView {
        VertexBufferLayoutView {
            array_stride: self.array_stride,
            step_mode: self.step_mode,
            attributes: self.attributes@,
        }
    }
}

impl VertexBufferLayoutView {
    /// The attributes lie back to back from offset 0 to the stride, and take
    /// the shader locations 0, 1, 2, ... in that order: every byte of a
    /// vertex belongs to exactly one attribute.
    pub open spec fn packed(self) -> bool {
        &&& self.attributes.len() > 0
        &&& self.attributes[0].offset == 0
        &&& forall|i: int|
            0 < i < self.attributes.len() ==> (#[trigger] self.attributes[i]).offset
                == self.attributes[i - 1].end()
        &&& self.attributes.last().end() == self.array_stride
        &&& forall|i: int|
            0 <= i < self.attributes.len() ==> (#[trigger] self.attributes[i]).shader_location == i
    }

    /// Components of a vertex under this layout.
    pub open spec fn components(self) -> nat {
        self.attributes.fold_left(0nat, |n: nat, a: VertexAttribute| n + a.format.components())
    }
}

impl Vertex {
    /// The layout of a `Vertex` in the vertex buffer.
    pub open spec fn spec_desc() -> VertexBufferLayoutView {
        VertexBufferLayoutView {
            array_stride: VERTEX_SIZE,
            step_mode: VertexStepMode::Vertex,
            attributes: seq![
                VertexAttribute { format: VertexFormat::Float32x3, offset: 0, shader_location: 0 },
                VertexAttribute { format: VertexFormat::Float32x2, offset: 12, shader_location: 1 },
            ],
        }
    }

    /// The vertex with the given components: the position, then the texture
    /// coordinates.
    pub open spec fn spec_from_components(components: [u32; 5]) -> Vertex {
        Vertex {
            position: [components@[0], components@[1], components@[2]],
            tex_coords: [components@[3], components@[4]],
        }
    }

    /// The vertex with the given components: the position, then the texture
    /// coordinates.
    #[verifier::when_used_as_spec(spec_from_components)]
    pub fn from_components(components: [u32; 5]) -> (vertex: Vertex)
        ensures
            vertex == Vertex::spec_from_components(components),
            forall|i: int| 0 <= i < 5 ==> vertex.component(i) == components@[i],
    {
        Vertex {
            position: [components[0], components[1], components[2]],
            tex_coords: [components[3], components[4]],
        }
    }

    /// Component `i` of the vertex in buffer order: the position, then the
    /// texture coordinates.
    pub open spec fn component(self, i: int) -> u32 {
        if i < 3 {
            self.position@[i]
        } else {
            self.tex_coords@[i - 3]
        }
    }

    /// Describes how the vertex stage reads a buffer of `Vertex` values: the
    /// position at shader location 0, the texture coordinates at location 1.
    pub fn desc() -> (layout: VertexBufferLayout)
        ensures
            layout@ == Vertex::spec_desc(),
            layout@.packed(),
    {
        let position = VertexAttribute {
            format: VertexFormat::Float32x3,
            offset: 0,
            shader_location: 0,
        };
        let tex_coords = VertexAttribute {
            format: VertexFormat::Float32x2,
            offset: position.format.size(),
            shader_location: 1,
        };
        let mut attributes: Vec<VertexAttribute> = Vec::new();
        attributes.push(position);
        attributes.push(tex_coords);
        let layout = VertexBufferLayout {
            array_stride: VERTEX_SIZE,
            step_mode: VertexStepMode::Vertex,
            attributes,
        };
        proof {
            assert(layout@.attributes =~= Vertex::spec_desc().attributes);
            lemma_desc_packed();
        }
        layout
    }
}

/// The vertices of the pentagon.
pub open spec fn mesh_vertices() -> Seq<Vertex> {
    Seq::new(VERTEX_COUNT as nat, |k: int| Vertex::spec_from_components(VERTEX_DATA@[k]))
}

/// The vertices of the pentagon.
pub fn vertices() -> (mesh: Vec<Vertex>)
    ensures
        mesh@ == mesh_vertices(),
        mesh@.len() == VERTEX_COUNT,
{
    let mut mesh: Vec<Vertex> = Vec::new();
    let mut k: usize = 0;
    while k < VERTEX_COUNT
        invariant
            k <= VERTEX_COUNT,
            mesh@.len() == k,
            forall|j: int|
                0 <= j < k ==> mesh@[j] == Vertex::spec_from_components(#[trigger] VERTEX_DATA@[j]),
        decreases VERTEX_COUNT - k,
    {
        mesh.push(Vertex::from_components(VERTEX_DATA[k]));
        k += 1;
    }
    assert(mesh@ =~= mesh_vertices());
    mesh
}

/// The corners of triangle `t` of the mesh, as positions in the vertex array.
pub open spec fn triangle(t: int) -> (int, int, int) {
    (INDICES@[3 * t] as int, INDICES@[3 * t + 1] as int, INDICES@[3 * t + 2] as int)
}

/// The layout that `Vertex::desc` describes is packed, its stride is the
/// size of a vertex, and it reads as many components as a vertex has.
pub proof fn lemma_desc_packed()
    ensures
        Vertex::spec_desc().packed(),
        Vertex::spec_desc().array_stride == VERTEX_COMPONENTS * COMPONENT_SIZE,
        Vertex::spec_desc().components() == VERTEX_COMPONENTS,
{
    let layout = Vertex::spec_desc();
    let count = |n: nat, a: VertexAttribute| n + a.format.components();
    assert(layout.attributes.len() == 2);
    assert(layout.attributes.last() == layout.attributes[1]);
    assert(layout.attributes.drop_last() =~= seq![layout.attributes[0]]);
    assert(layout.attributes.drop_last().drop_last() =~= Seq::<VertexAttribute>::empty());
    reveal_with_fuel(Seq::fold_left, 3);
    assert(layout.attributes.fold_left(0nat, count) == 5);
}

/// The index array is made of whole triangles, `TRIANGLE_COUNT` of them, and
/// every index in it is the position of a vertex of the mesh.
pub proof fn lemma_indices_reference_vertices()
    ensures
        INDICES@.len() == 3 * TRIANGLE_COUNT,
        mesh_vertices().len() == VERTEX_COUNT,
        forall|i: int| 0 <= i < INDICES@.len() ==> 0 <= #[trigger] INDICES@[i] < VERTEX_COUNT,
{
}

/// No triangle of the mesh is degenerate: its three corners are three
/// different vertices. All triangles meet in the last vertex.
pub proof fn lemma_triangles_form_fan()
    ensures
        forall|t: int|
            0 <= t < TRIANGLE_COUNT ==> {
                let (a, b, c) = #[trigger] triangle(t);
                &&& a != b
                &&& b != c
                &&& a != c
                &&& c == VERTEX_COUNT - 1
                &&& b == a + 1
            },
{
    assert forall|t: int| 0 <= t < TRIANGLE_COUNT implies {
        let (a, b, c) = #[trigger] triangle(t);
        &&& a != b
        &&& b != c
        &&& a != c
        &&& c == VERTEX_COUNT - 1
        &&& b == a + 1
    } by {
        assert(t == 0 || t == 1 || t == 2);
    }
}

} // verus!
