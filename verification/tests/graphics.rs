use pentagon::binding::{diffuse_bind_group, texture_bind_group_layout};
use pentagon::buffer::{index_buffer, vertex_buffer};
use pentagon::graphics::{
    create_graphics, DrawCall, Frame, Graphics, IndexFormat, LoadOp, PhysicalSize, StoreOp,
};
use pentagon::pipeline::render_pipeline;
use pentagon::vertex::INDICES;

fn size(width: u32, height: u32) -> PhysicalSize {
    PhysicalSize { width, height }
}

#[test]
fn clamp_raises_zero_to_one() {
    assert_eq!(size(0, 0).clamp(), size(1, 1));
    assert_eq!(size(0, 7).clamp(), size(1, 7));
    assert_eq!(size(7, 0).clamp(), size(7, 1));
}

#[test]
fn clamp_keeps_what_is_at_least_one() {
    assert_eq!(size(1, 1).clamp(), size(1, 1));
    assert_eq!(size(800, 600).clamp(), size(800, 600));
    assert_eq!(size(u32::MAX, u32::MAX).clamp(), size(u32::MAX, u32::MAX));
}

#[test]
fn new_takes_the_size_of_the_window() {
    let graphics = Graphics::new(size(800, 600));
    assert_eq!(graphics.size(), size(800, 600));
    assert_eq!(graphics.width(), 800);
    assert_eq!(graphics.height(), 600);
}

#[test]
fn new_clamps_an_empty_window() {
    assert_eq!(Graphics::new(size(0, 0)).size(), size(1, 1));
    assert_eq!(Graphics::new(size(0, 600)).size(), size(1, 600));
}

#[test]
fn resize_to_nothing_yields_one_by_one() {
    let mut graphics = Graphics::new(size(800, 600));
    graphics.resize(size(0, 0));
    assert_eq!(graphics.size(), size(1, 1));
}

#[test]
fn resize_clamps_each_dimension_alone() {
    let mut graphics = Graphics::new(size(800, 600));
    graphics.resize(size(0, 480));
    assert_eq!(graphics.size(), size(1, 480));
    graphics.resize(size(640, 0));
    assert_eq!(graphics.size(), size(640, 1));
}

#[test]
fn resize_takes_the_new_size() {
    let mut graphics = Graphics::new(size(800, 600));
    graphics.resize(size(1024, 768));
    assert_eq!(graphics.size(), size(1024, 768));
    graphics.resize(size(1, 1));
    assert_eq!(graphics.size(), size(1, 1));
}

#[test]
fn draw_covers_all_indices_once() {
    let frame = Graphics::new(size(800, 600)).draw();
    assert_eq!(
        frame,
        Frame {
            load: LoadOp::Clear,
            store: StoreOp::Store,
            draw: DrawCall {
                bind_group_index: 0,
                vertex_buffer_slot: 0,
                index_format: IndexFormat::Uint16,
                first_index: 0,
                index_count: 9,
                base_vertex: 0,
                first_instance: 0,
                instance_count: 1,
            },
        }
    );
    assert_eq!(frame.draw.index_count as usize, INDICES.len());
}

#[test]
fn draw_does_not_depend_on_the_size() {
    let mut graphics = Graphics::new(size(800, 600));
    let before = graphics.draw();
    graphics.resize(size(0, 0));
    assert_eq!(graphics.draw(), before);
}

#[test]
fn create_graphics_sets_up_everything() {
    let setup = create_graphics(size(800, 600)).expect("the bundled shader backs the pipeline");
    assert_eq!(setup.graphics.size(), size(800, 600));
    assert_eq!(setup.bind_group, diffuse_bind_group());
    assert_eq!(setup.pipeline, render_pipeline(texture_bind_group_layout()));
    assert_eq!(setup.vertex_buffer, vertex_buffer());
    assert_eq!(setup.index_buffer, index_buffer());
}

#[test]
fn create_graphics_clamps_the_size_of_the_window() {
    let setup = create_graphics(size(0, 0)).expect("the bundled shader backs the pipeline");
    assert_eq!(setup.graphics.size(), size(1, 1));
}
