//! The shader the pipeline is built from, and the entry points it declares.

use vstd::prelude::*;

verus! {

/// The shader of the pentagon: the vertex stage passes the position and the
/// texture coordinates on, the fragment stage samples the texture.
pub const SHADER_SOURCE: &'static str = "
struct VertexInput {
    @location(0) position: vec3<f32>,
    @location(1) tex_coords: vec2<f32>,
}

struct VertexOutput {
    @builtin(position) clip_position: vec4<f32>,
    @location(0) tex_coords: vec2<f32>,
}

@vertex
fn vs_main(model: VertexInput) -> VertexOutput {
    var out: VertexOutput;
    out.tex_coords = model.tex_coords;
    out.clip_position = vec4<f32>(model.position, 1.0);
    return out;
}

@group(0) @binding(0)
var t_diffuse: texture_2d<f32>;
@group(0) @binding(1)
var s_diffuse: sampler;

@fragment
fn fs_main(in: VertexOutput) -> @location(0) vec4<f32> {
    return textureSample(t_diffuse, s_diffuse, in.tex_coords);
}
";

/// The entry point of the vertex stage.
pub const VERTEX_ENTRY_POINT: &'static str = "vs_main";

/// The entry point of the fragment stage.
pub const FRAGMENT_ENTRY_POINT: &'static str = "fs_main";

/// A stage of the programmable pipeline.
#[derive(Clone, Copy, Debug, PartialEq, Eq, Structural)]
pub enum ShaderStage {
    Vertex,
    Fragment,
    Compute,
}

/// An entry point that a shader declares.
#[derive(Debug, PartialEq, Eq)]
pub struct EntryPoint {
    pub name: String,
    pub stage: ShaderStage,
}

/// An `EntryPoint` as a mathematical value.
pub struct EntryPointView {
    pub name: Seq<char>,
    pub stage: ShaderStage,
}

impl View for EntryPoint {
    type V = EntryPointView;

    open spec fn view(&self) -> EntryPointView {
        EntryPointView { name: self.name@, stage: self.stage }
    }
}

/// The views of a list of entry points, in the same order.
pub open spec fn entry_point_views(list: Seq<EntryPoint>) -> Seq<EntryPointView> {
    Seq::new(list.len(), |i: int| list[i]@)
}

/// The views of what a parse returned.
pub open spec fn parsed_views(found: Option<Vec<EntryPoint>>) -> Option<Seq<EntryPointView>> {
    match found {
        Some(list) => Some(entry_point_views(list@)),
        None => None,
    }
}

/// What the WGSL front end makes of `source`: `None` where it rejects the
/// source, else the entry points of the module it builds, in the order in
/// which the module lists them.
pub uninterp spec fn wgsl_entry_points(source: Seq<char>) -> Option<Seq<EntryPointView>>;

/// Parses the bundled shader and lists its entry points.
///
/// Calls `naga::front::wgsl::parse_str`, the parser the device runs on the
/// same source, and copies name and stage of each of the `entry_points` of
/// the module it returns. Not proved: that the result is `wgsl_entry_points`
/// of the source, that is, that parsing the same text always gives the same
/// entry points. The parser may exhaust the stack on deeply nested source,
/// so this is only offered for the bundled shader, whose nesting is shallow.
#[verifier::external_body]
fn parse_entry_points(source: &str) -> (found: Option<Vec<EntryPoint>>)
    requires
        source@ == SHADER_SOURCE@,
    ensures
        parsed_views(found) == wgsl_entry_points(source@),
{
    let module = naga::front::wgsl::parse_str(source).ok()?;
    let convert = |e: &naga::EntryPoint| EntryPoint {
        name: e.name.clone(),
        stage: match e.stage {
            naga::ShaderStage::Vertex => ShaderStage::Vertex,
            naga::ShaderStage::Fragment => ShaderStage::Fragment,
            naga::ShaderStage::Compute => ShaderStage::Compute,
        },
    };
    Some(module.entry_points.iter().map(convert).collect())
}

/// The entry points of the bundled shader, or `None` where the shader does
/// not parse.
pub fn bundled_entry_points() -> (found: Option<Vec<EntryPoint>>)
    ensures
        parsed_views(found) == wgsl_entry_points(SHADER_SOURCE@),
{
    parse_entry_points(SHADER_SOURCE)
}

/// Tells whether `list` holds an entry point of the given stage and name.
pub fn declares(list: &Vec<EntryPoint>, stage: ShaderStage, name: &str) -> (found: bool)
    ensures
        found == entry_point_views(list@).contains(EntryPointView { name: name@, stage }),
{
    let wanted = name.to_owned();
    let ghost views = entry_point_views(list@);
    let ghost target = EntryPointView { name: name@, stage };
    let mut i: usize = 0;
    while i < list.len()
        invariant
            i <= list.len(),
            views == entry_point_views(list@),
            target == (EntryPointView { name: name@, stage }),
            wanted@ == name@,
            forall|j: int| 0 <= j < i ==> views[j] != target,
        decreases list.len() - i,
    {
        if list[i].stage == stage && list[i].name == wanted {
            assert(views[i as int] == target);
            return true;
        }
        i += 1;
    }
    false
}

} // verus!
