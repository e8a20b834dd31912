//! The render pipeline: which entry points of the shader it runs, how it
//! reads the vertex buffer, and which bind groups it expects. A pipeline is
//! only described for a shader that declares both entry points.

use crate::binding::BindGroupLayoutDescriptor;
use crate::shader::{
    bundled_entry_points, declares, parsed_views, wgsl_entry_points, EntryPoint, EntryPointView,
    ShaderStage, FRAGMENT_ENTRY_POINT, SHADER_SOURCE, VERTEX_ENTRY_POINT,
};
use crate::vertex::{Vertex, VertexBufferLayout};
use vstd::prelude::*;

verus! {

/// Why no pipeline can be built from a shader.
#[derive(Clone, Copy, Debug, PartialEq, Eq, Structural)]
pub enum PipelineError {
    /// The shader does not parse.
    ShaderRejected,
    /// The shader declares no vertex stage entry point named `vs_main`.
    MissingVertexEntryPoint,
    /// The shader declares no fragment stage entry point named `fs_main`.
    MissingFragmentEntryPoint,
}

/// A render pipeline to create on the device. Its one color target takes the
/// format of the surface; everything not named here is left at its default.
#[derive(Debug, PartialEq, Eq)]
pub struct PipelineDescriptor {
    pub label: Option<&'static str>,
    /// The layouts of the bind groups that a draw call has to set, by index.
    pub bind_group_layouts: Vec<BindGroupLayoutDescriptor>,
    pub vertex_entry_point: &'static str,
    /// The layouts of the vertex buffers that a draw call has to set, by slot.
    pub vertex_buffers: Vec<VertexBufferLayout>,
    pub fragment_entry_point: &'static str,
}

/// The entry point that the vertex stage runs.
pub open spec fn vertex_entry() -> EntryPointView {
    EntryPointView { name: VERTEX_ENTRY_POINT@, stage: ShaderStage::Vertex }
}

/// The entry point that the fragment stage runs.
pub open spec fn fragment_entry() -> EntryPointView {
    EntryPointView { name: FRAGMENT_ENTRY_POINT@, stage: ShaderStage::Fragment }
}

/// Whether a shader with the entry points `found` can back the pipeline, and
/// if not, the first thing that is wrong with it. `found` is `None` for a
/// shader that does not parse.
pub open spec fn entry_point_check(found: Option<Seq<EntryPointView>>) -> Result<
    (),
    PipelineError,
> {
    match found {
        None => Err(PipelineError::ShaderRejected),
        Some(list) => if !list.contains(vertex_entry()) {
            Err(PipelineError::MissingVertexEntryPoint)
        } else if !list.contains(fragment_entry()) {
            Err(PipelineError::MissingFragmentEntryPoint)
        } else {
            Ok(())
        },
    }
}

/// `pipeline` is the pipeline of the pentagon, over the bind group layout
/// `layout`: it runs `vs_main` and `fs_main`, reads one vertex buffer laid
/// out as `Vertex::desc` says, and expects one bind group.
pub open spec fn is_render_pipeline(
    pipeline: PipelineDescriptor,
    layout: BindGroupLayoutDescriptor,
) -> bool {
    &&& pipeline.label is None
    &&& pipeline.bind_group_layouts@ == seq![layout]
    &&& pipeline.vertex_entry_point@ == VERTEX_ENTRY_POINT@
    &&& pipeline.vertex_buffers@.len() == 1
    &&& pipeline.vertex_buffers@[0]@ == Vertex::spec_desc()
    &&& pipeline.fragment_entry_point@ == FRAGMENT_ENTRY_POINT@
}

/// Checks that a shader declares the entry points of both stages. `found` is
/// what parsing the shader gave: its entry points, or `None` where it did not
/// parse.
pub fn check_entry_points(found: &Option<Vec<EntryPoint>>) -> (checked: Result<(), PipelineError>)
    ensures
        checked == entry_point_check(parsed_views(*found)),
{
    match found {
        None => Err(PipelineError::ShaderRejected),
        Some(list) => {
            if !declares(list, ShaderStage::Vertex, VERTEX_ENTRY_POINT) {
                Err(PipelineError::MissingVertexEntryPoint)
            } else if !declares(list, ShaderStage::Fragment, FRAGMENT_ENTRY_POINT) {
                Err(PipelineError::MissingFragmentEntryPoint)
            } else {
                Ok(())
            }
        },
    }
}

/// Describes the pipeline of the pentagon over the bind group layout of its
/// texture.
pub fn render_pipeline(texture_bind_group_layout: BindGroupLayoutDescriptor) -> (pipeline:
    PipelineDescriptor)
    ensures
        is_render_pipeline(pipeline, texture_bind_group_layout),
{
    let mut bind_group_layouts: Vec<BindGroupLayoutDescriptor> = Vec::new();
    bind_group_layouts.push(texture_bind_group_layout);
    let mut vertex_buffers: Vec<VertexBufferLayout> = Vec::new();
    vertex_buffers.push(Vertex::desc());
    assert(bind_group_layouts@ =~= seq![texture_bind_group_layout]);
    PipelineDescriptor {
        label: None,
        bind_group_layouts,
        vertex_entry_point: VERTEX_ENTRY_POINT,
        vertex_buffers,
        fragment_entry_point: FRAGMENT_ENTRY_POINT,
    }
}

/// Describes the pipeline of the pentagon, provided that the bundled shader
/// declares the entry points of both stages; where it does not, no pipeline
/// is described, and the error says what is missing.
pub fn create_pipeline(texture_bind_group_layout: BindGroupLayoutDescriptor) -> (created: Result<
    PipelineDescriptor,
    PipelineError,
>)
    ensures
        match created {
            Ok(pipeline) => {
                &&& entry_point_check(wgsl_entry_points(SHADER_SOURCE@)) is Ok
                &&& is_render_pipeline(pipeline, texture_bind_group_layout)
            },
            Err(error) => entry_point_check(wgsl_entry_points(SHADER_SOURCE@)) == Err::<
                (),
                PipelineError,
            >(error),
        },
{
    let found = bundled_entry_points();
    match check_entry_points(&found) {
        Ok(()) => Ok(render_pipeline(texture_bind_group_layout)),
        Err(error) => Err(error),
    }
}

/// A shader passes the check exactly if it parses and declares both `vs_main`
/// for the vertex stage and `fs_main` for the fragment stage. A name declared
/// for another stage does not count.
pub proof fn lemma_check_needs_both_entry_points(found: Option<Seq<EntryPointView>>)
    ensures
        entry_point_check(found) is Ok <==> {
            &&& found matches Some(list)
            &&& list.contains(vertex_entry())
            &&& list.contains(fragment_entry())
        },
        entry_point_check(found) is Ok ==> exists|i: int, j: int|
            {
                &&& 0 <= i < found->0.len()
                &&& 0 <= j < found->0.len()
                &&& i != j
                &&& found->0[i] == vertex_entry()
                &&& found->0[j] == fragment_entry()
            },
{
    if entry_point_check(found) is Ok {
        let list = found->0;
        let i = choose|i: int| 0 <= i < list.len() && list[i] == vertex_entry();
        let j = choose|j: int| 0 <= j < list.len() && list[j] == fragment_entry();
        assert(vertex_entry().stage != fragment_entry().stage);
        assert(0 <= i < list.len() && 0 <= j < list.len() && i != j && list[i] == vertex_entry()
            && list[j] == fragment_entry());
    }
}

} // verus!
