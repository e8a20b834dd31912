use pentagon::shader::{
    bundled_entry_points, declares, EntryPoint, ShaderStage, FRAGMENT_ENTRY_POINT, SHADER_SOURCE,
    VERTEX_ENTRY_POINT,
};

fn entry(name: &str, stage: ShaderStage) -> EntryPoint {
    EntryPoint { name: name.to_string(), stage }
}

#[test]
fn entry_point_names() {
    assert_eq!(VERTEX_ENTRY_POINT, "vs_main");
    assert_eq!(FRAGMENT_ENTRY_POINT, "fs_main");
}

#[test]
fn bundled_shader_declares_both_entry_points() {
    let found = bundled_entry_points();
    assert_eq!(
        found,
        Some(vec![entry("vs_main", ShaderStage::Vertex), entry("fs_main", ShaderStage::Fragment)])
    );
}

#[test]
fn bundled_shader_is_valid() {
    let module = naga::front::wgsl::parse_str(SHADER_SOURCE).expect("the shader parses");
    let mut validator = naga::valid::Validator::new(
        naga::valid::ValidationFlags::all(),
        naga::valid::Capabilities::empty(),
    );
    assert!(validator.validate(&module).is_ok());
}

#[test]
fn bundled_shader_reads_what_the_layout_provides() {
    let module = naga::front::wgsl::parse_str(SHADER_SOURCE).expect("the shader parses");
    let vertex = module
        .entry_points
        .iter()
        .find(|e| e.stage == naga::ShaderStage::Vertex)
        .expect("a vertex stage");
    assert_eq!(vertex.function.arguments.len(), 1);
    let bound: Vec<(u32, u32)> = module
        .global_variables
        .iter()
        .filter_map(|(_, variable)| variable.binding.as_ref().map(|b| (b.group, b.binding)))
        .collect();
    assert_eq!(bound, vec![(0, 0), (0, 1)]);
}

#[test]
fn declares_finds_stage_and_name() {
    let list = vec![entry("vs_main", ShaderStage::Vertex), entry("fs_main", ShaderStage::Fragment)];
    assert!(declares(&list, ShaderStage::Vertex, "vs_main"));
    assert!(declares(&list, ShaderStage::Fragment, "fs_main"));
}

#[test]
fn declares_needs_the_stage_to_match() {
    let list = vec![entry("vs_main", ShaderStage::Vertex), entry("fs_main", ShaderStage::Fragment)];
    assert!(!declares(&list, ShaderStage::Fragment, "vs_main"));
    assert!(!declares(&list, ShaderStage::Vertex, "fs_main"));
    assert!(!declares(&list, ShaderStage::Compute, "vs_main"));
}

#[test]
fn declares_needs_the_whole_name() {
    let list = vec![entry("vs_main2", ShaderStage::Vertex), entry("vs", ShaderStage::Vertex)];
    assert!(!declares(&list, ShaderStage::Vertex, "vs_main"));
    assert!(declares(&list, ShaderStage::Vertex, "vs"));
}

#[test]
fn declares_nothing_in_an_empty_list() {
    assert!(!declares(&Vec::new(), ShaderStage::Vertex, "vs_main"));
}
