//! The graphics context as far as it is decided here: the size the surface
//! is configured with, what one frame draws, and everything that is created
//! on the device when the context is set up.

use crate::binding::{
    diffuse_bind_group, is_diffuse_bind_group, is_texture_layout, texture_bind_group_layout,
    BindGroupDescriptor,
};
use crate::buffer::{
    encodes_u16s, flat_components, in_memory_u16s, in_memory_u32s, index_buffer, vertex_buffer,
    BufferInit, BufferUsage, ByteOrder,
};
use crate::pipeline::{
    create_pipeline, entry_point_check, is_render_pipeline, PipelineDescriptor, PipelineError,
};
use crate::shader::{wgsl_entry_points, SHADER_SOURCE};
use crate::vertex::{mesh_vertices, INDICES, VERTEX_COUNT};
use vstd::prelude::*;

verus! {

/// A size in physical pixels.
#[derive(Clone, Copy, Debug, PartialEq, Eq, Structural)]
pub struct PhysicalSize {
    pub width: u32,
    pub height: u32,
}

/// The type of the indices in an index buffer.
#[derive(Clone, Copy, Debug, PartialEq, Eq, Structural)]
pub enum IndexFormat {
    Uint16,
    Uint32,
}

/// One indexed draw call, and the bindings it is issued under.
#[derive(Clone, Copy, Debug, PartialEq, Eq, Structural)]
pub struct DrawCall {
    /// The index at which the texture's bind group is set.
    pub bind_group_index: u32,
    /// The slot at which the vertex buffer is set.
    pub vertex_buffer_slot: u32,
    pub index_format: IndexFormat,
    /// The first index read from the index buffer.
    pub first_index: u32,
    /// How many indices are read.
    pub index_count: u32,
    /// Added to each index before the vertex is fetched.
    pub base_vertex: i32,
    pub first_instance: u32,
    pub instance_count: u32,
}

/// What a render pass does with its target before it draws.
#[derive(Clone, Copy, Debug, PartialEq, Eq, Structural)]
pub enum LoadOp {
    /// Fill it with the clear color.
    Clear,
    /// Keep what it holds.
    Load,
}

/// What a render pass does with what it drew.
#[derive(Clone, Copy, Debug, PartialEq, Eq, Structural)]
pub enum StoreOp {
    Store,
    Discard,
}

/// One frame: a single render pass over the surface, with one draw call.
#[derive(Clone, Copy, Debug, PartialEq, Eq, Structural)]
pub struct Frame {
    pub load: LoadOp,
    pub store: StoreOp,
    pub draw: DrawCall,
}

/// The graphics context: the size its surface is configured with. Neither
/// dimension is ever 0.
#[derive(Debug, PartialEq, Eq)]
pub struct Graphics {
    width: u32,
    height: u32,
}

/// What setting up the graphics context creates on the device.
#[derive(Debug, PartialEq, Eq)]
pub struct GraphicsSetup {
    pub graphics: Graphics,
    pub bind_group: BindGroupDescriptor,
    /// The pipeline; its only bind group layout is the one `bind_group` is
    /// created under.
    pub pipeline: PipelineDescriptor,
    pub vertex_buffer: BufferInit,
    pub index_buffer: BufferInit,
}

impl PhysicalSize {
    /// The size with each dimension raised to 1 where it is 0.
    pub open spec fn clamped(self) -> PhysicalSize {
        PhysicalSize {
            width: if self.width < 1 {
                1
            } else {
                self.width
            },
            height: if self.height < 1 {
                1
            } else {
                self.height
            },
        }
    }

    /// Raises each dimension to 1 where it is 0.
    pub fn clamp(self) -> (size: PhysicalSize)
        ensures
            size == self.clamped(),
    {
        PhysicalSize {
            width: if self.width < 1 {
                1
            } else {
                self.width
            },
            height: if self.height < 1 {
                1
            } else {
                self.height
            },
        }
    }
}

impl IndexFormat {
    /// Bytes taken by one index of this format.
    pub open spec fn size(self) -> nat {
        match self {
            IndexFormat::Uint16 => 2,
            IndexFormat::Uint32 => 4,
        }
    }
}

impl View for Graphics {
    type V = PhysicalSize;

    /// The size the surface is configured with.
    closed spec fn view(&self) -> PhysicalSize {
        PhysicalSize { width: self.width, height: self.height }
    }
}

impl Graphics {
    #[verifier::type_invariant]
    spec fn configurable(self) -> bool {
        self.width >= 1 && self.height >= 1
    }

    /// The context for a window of the given inner size: the surface takes
    /// the size of the window, but at least 1 by 1.
    pub fn new(inner_size: PhysicalSize) -> (graphics: Graphics)
        ensures
            graphics@ == inner_size.clamped(),
    {
        let size = inner_size.clamp();
        Graphics { width: size.width, height: size.height }
    }

    /// The size the surface is configured with.
    pub fn size(&self) -> (size: PhysicalSize)
        ensures
            size == self@,
            size.width >= 1,
            size.height >= 1,
    {
        proof {
            use_type_invariant(self);
        }
        PhysicalSize { width: self.width, height: self.height }
    }

    /// The width the surface is configured with.
    pub fn width(&self) -> (width: u32)
        ensures
            width == self@.width,
            width >= 1,
    {
        proof {
            use_type_invariant(self);
        }
        self.width
    }

    /// The height the surface is configured with.
    pub fn height(&self) -> (height: u32)
        ensures
            height == self@.height,
            height >= 1,
    {
        proof {
            use_type_invariant(self);
        }
        self.height
    }

    /// Takes a new size for the surface: the size asked for, but at least 1
    /// by 1. The surface is to be configured anew with it.
    pub fn resize(&mut self, new_size: PhysicalSize)
        ensures
            final(self)@ == new_size.clamped(),
    {
        let size = new_size.clamp();
        *self = Graphics { width: size.width, height: size.height };
    }

    /// What one frame records: the surface is cleared to the current color,
    /// the whole index buffer is drawn once, and the result is stored.
    pub fn draw(&self) -> (frame: Frame)
        ensures
            frame == next_frame(),
    {
        Frame {
            load: LoadOp::Clear,
            store: StoreOp::Store,
            draw: DrawCall {
                bind_group_index: 0,
                vertex_buffer_slot: 0,
                index_format: IndexFormat::Uint16,
                first_index: 0,
                index_count: INDICES.as_slice().len() as u32,
                base_vertex: 0,
                first_instance: 0,
                instance_count: 1,
            },
        }
    }
}

/// The draw call of a frame: all indices of the mesh, one instance, with the
/// texture's bind group at index 0 and the vertex buffer at slot 0.
pub open spec fn frame_draw_call() -> DrawCall {
    DrawCall {
        bind_group_index: 0,
        vertex_buffer_slot: 0,
        index_format: IndexFormat::Uint16,
        first_index: 0,
        index_count: INDICES@.len() as u32,
        base_vertex: 0,
        first_instance: 0,
        instance_count: 1,
    }
}

/// A frame: clear, draw the mesh, store.
pub open spec fn next_frame() -> Frame {
    Frame { load: LoadOp::Clear, store: StoreOp::Store, draw: frame_draw_call() }
}

/// `setup` is what the context of a window of size `inner_size` is set up
/// with.
pub open spec fn is_setup(setup: GraphicsSetup, inner_size: PhysicalSize) -> bool {
    &&& setup.graphics@ == inner_size.clamped()
    &&& is_diffuse_bind_group(setup.bind_group)
    &&& setup.pipeline.bind_group_layouts@.len() == 1
    &&& is_texture_layout(setup.pipeline.bind_group_layouts@[0])
    &&& is_render_pipeline(setup.pipeline, setup.pipeline.bind_group_layouts@[0])
    &&& setup.vertex_buffer.label is None
    &&& setup.vertex_buffer.usage == BufferUsage::Vertex
    &&& in_memory_u32s(setup.vertex_buffer.contents@, flat_components(mesh_vertices()))
    &&& setup.index_buffer.label matches Some(label) && label@ == "Index Buffer"@
    &&& setup.index_buffer.usage == BufferUsage::Index
    &&& in_memory_u16s(setup.index_buffer.contents@, INDICES@)
}

/// Sets up the graphics context for a window of the given inner size: the
/// size of the surface, the texture's bind group and its layout, the
/// pipeline, and the two buffers of the mesh. Fails, with nothing set up,
/// exactly if the bundled shader cannot back the pipeline.
pub fn create_graphics(inner_size: PhysicalSize) -> (created: Result<GraphicsSetup, PipelineError>)
    ensures
        match created {
            Ok(setup) => {
                &&& entry_point_check(wgsl_entry_points(SHADER_SOURCE@)) is Ok
                &&& is_setup(setup, inner_size)
            },
            Err(error) => entry_point_check(wgsl_entry_points(SHADER_SOURCE@)) == Err::<
                (),
                PipelineError,
            >(error),
        },
{
    let graphics = Graphics::new(inner_size);
    let bind_group = diffuse_bind_group();
    match create_pipeline(texture_bind_group_layout()) {
        Ok(pipeline) => Ok(
            GraphicsSetup {
                graphics,
                bind_group,
                pipeline,
                vertex_buffer: vertex_buffer(),
                index_buffer: index_buffer(),
            },
        ),
        Err(error) => Err(error),
    }
}

/// A clamped size has no dimension below 1, and differs from the size asked
/// for only where that has a dimension of 0. Clamping twice changes nothing
/// more.
pub proof fn lemma_clamped_at_least_one(size: PhysicalSize)
    ensures
        size.clamped().width >= 1,
        size.clamped().height >= 1,
        size.width >= 1 ==> size.clamped().width == size.width,
        size.height >= 1 ==> size.clamped().height == size.height,
        size.width == 0 ==> size.clamped().width == 1,
        size.height == 0 ==> size.clamped().height == 1,
        size.clamped().clamped() == size.clamped(),
{
}

/// The draw call of a frame reads the index buffer from its first byte to
/// its last, in indices of the width the buffer holds, and every index it
/// reads leads to a vertex of the mesh.
pub proof fn lemma_draw_stays_within_mesh(index_bytes: Seq<u8>)
    requires
        in_memory_u16s(index_bytes, INDICES@),
    ensures
        frame_draw_call().first_index == 0,
        frame_draw_call().first_index + frame_draw_call().index_count == INDICES@.len(),
        (frame_draw_call().first_index + frame_draw_call().index_count)
            * frame_draw_call().index_format.size() == index_bytes.len(),
        forall|i: int|
            frame_draw_call().first_index <= i < frame_draw_call().first_index
                + frame_draw_call().index_count ==> 0 <= frame_draw_call().base_vertex
                + #[trigger] INDICES@[i] < VERTEX_COUNT,
{
    let order = choose|order: ByteOrder| encodes_u16s(index_bytes, INDICES@, order);
    assert(encodes_u16s(index_bytes, INDICES@, order));
}

/// The draw call of a frame sets only what the pipeline declares: its bind
/// group index is that of a bind group layout of the pipeline, and its vertex
/// buffer slot that of a vertex buffer layout.
pub proof fn lemma_draw_matches_pipeline(pipeline: PipelineDescriptor)
    requires
        pipeline.bind_group_layouts@.len() == 1,
        is_render_pipeline(pipeline, pipeline.bind_group_layouts@[0]),
    ensures
        frame_draw_call().bind_group_index < pipeline.bind_group_layouts@.len(),
        frame_draw_call().vertex_buffer_slot < pipeline.vertex_buffers@.len(),
{
}

} // verus!
