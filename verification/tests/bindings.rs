use pentagon::binding::{
    diffuse_bind_group, texture_bind_group_layout, BindGroupEntry, BindGroupLayoutEntry,
    BindingResource, BindingType, SamplerBindingType, ShaderStages, TextureSampleType,
    TextureViewDimension,
};

#[test]
fn texture_layout_has_texture_then_sampler() {
    let fragment = ShaderStages { vertex: false, fragment: true, compute: false };
    let layout = texture_bind_group_layout();
    assert_eq!(layout.label, Some("texture_bind_group_layout"));
    assert_eq!(
        layout.entries,
        vec![
            BindGroupLayoutEntry {
                binding: 0,
                visibility: fragment,
                ty: BindingType::Texture {
                    sample_type: TextureSampleType::Float { filterable: true },
                    view_dimension: TextureViewDimension::D2,
                    multisampled: false,
                },
                count: None,
            },
            BindGroupLayoutEntry {
                binding: 1,
                visibility: fragment,
                ty: BindingType::Sampler(SamplerBindingType::Filtering),
                count: None,
            },
        ]
    );
}

#[test]
fn diffuse_group_binds_view_then_sampler() {
    let group = diffuse_bind_group();
    assert_eq!(group.label, Some("diffuse_bind_group"));
    assert_eq!(
        group.entries,
        vec![
            BindGroupEntry { binding: 0, resource: BindingResource::TextureView },
            BindGroupEntry { binding: 1, resource: BindingResource::Sampler },
        ]
    );
}

#[test]
fn diffuse_group_fits_the_layout() {
    let layout = texture_bind_group_layout();
    let group = diffuse_bind_group();
    assert_eq!(layout.entries.len(), group.entries.len());
    for (entry, slot) in group.entries.iter().zip(layout.entries.iter()) {
        assert_eq!(entry.binding, slot.binding);
        match entry.resource {
            BindingResource::TextureView => assert!(matches!(slot.ty, BindingType::Texture { .. })),
            BindingResource::Sampler => assert!(matches!(slot.ty, BindingType::Sampler(_))),
        }
    }
}
