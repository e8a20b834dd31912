//! The bind group through which the fragment stage reaches the texture: its
//! layout, and the resources bound under it.

use vstd::prelude::*;

verus! {

/// The shader stages that can see a binding.
#[derive(Clone, Copy, Debug, PartialEq, Eq)]
pub struct ShaderStages {
    pub vertex: bool,
    pub fragment: bool,
    pub compute: bool,
}

/// The dimensions of a texture view.
#[derive(Clone, Copy, Debug, PartialEq, Eq)]
pub enum TextureViewDimension {
    D1,
    D2,
    D2Array,
    Cube,
    CubeArray,
    D3,
}

/// What sampling a texture yields.
#[derive(Clone, Copy, Debug, PartialEq, Eq)]
pub enum TextureSampleType {
    Float { filterable: bool },
    Depth,
    Sint,
    Uint,
}

/// How a sampler may be used.
#[derive(Clone, Copy, Debug, PartialEq, Eq)]
pub enum SamplerBindingType {
    Filtering,
    NonFiltering,
    Comparison,
}

/// The kind of resource a binding takes.
#[derive(Clone, Copy, Debug, PartialEq, Eq)]
pub enum BindingType {
    Texture {
        sample_type: TextureSampleType,
        view_dimension: TextureViewDimension,
        multisampled: bool,
    },
    Sampler(SamplerBindingType),
}

/// One binding of a bind group layout.
#[derive(Clone, Copy, Debug, PartialEq, Eq)]
pub struct BindGroupLayoutEntry {
    pub binding: u32,
    pub visibility: ShaderStages,
    pub ty: BindingType,
    /// The length of the array where the binding is one, else `None`.
    pub count: Option<u32>,
}

/// A bind group layout to create on the device.
#[derive(Debug, PartialEq, Eq)]
pub struct BindGroupLayoutDescriptor {
    pub label: Option<&'static str>,
    pub entries: Vec<BindGroupLayoutEntry>,
}

/// A resource of the diffuse texture.
#[derive(Clone, Copy, Debug, PartialEq, Eq)]
pub enum BindingResource {
    /// The view of the texture.
    TextureView,
    /// The sampler of the texture.
    Sampler,
}

/// One resource of a bind group, and the binding it is bound to.
#[derive(Clone, Copy, Debug, PartialEq, Eq)]
pub struct BindGroupEntry {
    pub binding: u32,
    pub resource: BindingResource,
}

/// A bind group to create on the device.
#[derive(Debug, PartialEq, Eq)]
pub struct BindGroupDescriptor {
    pub label: Option<&'static str>,
    pub entries: Vec<BindGroupEntry>,
}

/// Visible to the fragment stage alone.
pub open spec fn fragment_only() -> ShaderStages {
    ShaderStages { vertex: false, fragment: true, compute: false }
}

/// The bindings of the texture's bind group layout: at 0 a two-dimensional
/// texture of filterable floats, at 1 a filtering sampler, both for the
/// fragment stage.
pub open spec fn texture_layout_entries() -> Seq<BindGroupLayoutEntry> {
    seq![
        BindGroupLayoutEntry {
            binding: 0,
            visibility: fragment_only(),
            ty: BindingType::Texture {
                sample_type: TextureSampleType::Float { filterable: true },
                view_dimension: TextureViewDimension::D2,
                multisampled: false,
            },
            count: None,
        },
        BindGroupLayoutEntry {
            binding: 1,
            visibility: fragment_only(),
            ty: BindingType::Sampler(SamplerBindingType::Filtering),
            count: None,
        },
    ]
}

/// The resources of the texture's bind group: at 0 the view, at 1 the
/// sampler.
pub open spec fn diffuse_entries() -> Seq<BindGroupEntry> {
    seq![
        BindGroupEntry { binding: 0, resource: BindingResource::TextureView },
        BindGroupEntry { binding: 1, resource: BindingResource::Sampler },
    ]
}

/// `layout` is the texture's bind group layout.
pub open spec fn is_texture_layout(layout: BindGroupLayoutDescriptor) -> bool {
    &&& layout.label matches Some(label) && label@ == "texture_bind_group_layout"@
    &&& layout.entries@ == texture_layout_entries()
}

/// `group` is the texture's bind group.
pub open spec fn is_diffuse_bind_group(group: BindGroupDescriptor) -> bool {
    &&& group.label matches Some(label) && label@ == "diffuse_bind_group"@
    &&& group.entries@ == diffuse_entries()
}

/// The resource is of the kind that the binding type takes.
pub open spec fn resource_fits(resource: BindingResource, ty: BindingType) -> bool {
    match resource {
        BindingResource::TextureView => ty is Texture,
        BindingResource::Sampler => ty is Sampler,
    }
}

/// The bind group gives each binding of the layout a resource of its kind,
/// in the order of the layout.
pub open spec fn group_fits(group: Seq<BindGroupEntry>, layout: Seq<BindGroupLayoutEntry>) -> bool {
    &&& group.len() == layout.len()
    &&& forall|i: int|
        0 <= i < group.len() ==> {
            &&& (#[trigger] group[i]).binding == layout[i].binding
            &&& resource_fits(group[i].resource, layout[i].ty)
        }
}

/// No two entries of the layout share a binding number.
pub open spec fn bindings_distinct(layout: Seq<BindGroupLayoutEntry>) -> bool {
    forall|i: int, j: int|
        0 <= i < j < layout.len() ==> (#[trigger] layout[i]).binding != (#[trigger] layout[j]).binding
}

/// A sampler that filters is only declared beside textures that can be
/// filtered.
pub open spec fn filtering_consistent(layout: Seq<BindGroupLayoutEntry>) -> bool {
    forall|s: int, t: int|
        0 <= s < layout.len() && 0 <= t < layout.len() && (#[trigger] layout[s]).ty
            == BindingType::Sampler(SamplerBindingType::Filtering) && (#[trigger] layout[t]).ty is Texture
            ==> layout[t].ty->sample_type == (TextureSampleType::Float { filterable: true })
}

/// The layout of the bind group that holds the texture and its sampler.
pub fn texture_bind_group_layout() -> (layout: BindGroupLayoutDescriptor)
    ensures
        is_texture_layout(layout),
{
    let visibility = ShaderStages { vertex: false, fragment: true, compute: false };
    let mut entries: Vec<BindGroupLayoutEntry> = Vec::new();
    entries.push(
        BindGroupLayoutEntry {
            binding: 0,
            visibility,
            ty: BindingType::Texture {
                sample_type: TextureSampleType::Float { filterable: true },
                view_dimension: TextureViewDimension::D2,
                multisampled: false,
            },
            count: None,
        },
    );
    entries.push(
        BindGroupLayoutEntry {
            binding: 1,
            visibility,
            ty: BindingType::Sampler(SamplerBindingType::Filtering),
            count: None,
        },
    );
    assert(entries@ =~= texture_layout_entries());
    BindGroupLayoutDescriptor { label: Some("texture_bind_group_layout"), entries }
}

/// The bind group that holds the texture and its sampler.
pub fn diffuse_bind_group() -> (group: BindGroupDescriptor)
    ensures
        is_diffuse_bind_group(group),
{
    let mut entries: Vec<BindGroupEntry> = Vec::new();
    entries.push(BindGroupEntry { binding: 0, resource: BindingResource::TextureView });
    entries.push(BindGroupEntry { binding: 1, resource: BindingResource::Sampler });
    assert(entries@ =~= diffuse_entries());
    BindGroupDescriptor { label: Some("diffuse_bind_group"), entries }
}

/// The texture's bind group fits its layout; the layout uses each binding
/// number once, and its sampler filters a texture that can be filtered.
pub proof fn lemma_diffuse_group_fits_layout()
    ensures
        group_fits(diffuse_entries(), texture_layout_entries()),
        bindings_distinct(texture_layout_entries()),
        filtering_consistent(texture_layout_entries()),
{
}

} // verus!
