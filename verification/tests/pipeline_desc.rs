use hello_triangle::pipeline::{
    draw_all, triangle_primitive, vertex_layout, CullFace, FrontFace, StepMode, Topology,
    VertexFormat, TRIANGLE_VERTEX_COUNT,
};

#[test]
fn triangle_primitive_is_ccw_backface_culled_triangle_list() {
    let p = triangle_primitive();
    assert_eq!(p.topology, Topology::TriangleList);
    assert_eq!(p.front_face, FrontFace::Ccw);
    assert_eq!(p.cull_mode, Some(CullFace::Back));
}

#[test]
fn draw_call_covers_all_three_vertices_in_one_instance() {
    let d = draw_all(TRIANGLE_VERTEX_COUNT);
    assert_eq!(d.first_vertex, 0);
    assert_eq!(d.vertex_count, 3);
    assert_eq!(d.first_instance, 0);
    assert_eq!(d.instance_count, 1);
}

#[test]
fn draw_call_covers_any_vertex_count_once() {
    let d = draw_all(7);
    assert_eq!(d.first_vertex, 0);
    assert_eq!(d.vertex_count, 7);
    assert_eq!(d.first_instance, 0);
    assert_eq!(d.instance_count, 1);
}

#[test]
fn vertex_layout_packs_position_then_color() {
    let l = vertex_layout();
    assert_eq!(l.array_stride, 24);
    assert_eq!(l.step_mode, StepMode::Vertex);
    assert_eq!(l.attributes.len(), 2);

    assert_eq!(l.attributes[0].offset, 0);
    assert_eq!(l.attributes[0].shader_location, 0);
    assert_eq!(l.attributes[0].format, VertexFormat::Float32x3);

    assert_eq!(l.attributes[1].offset, 12);
    assert_eq!(l.attributes[1].shader_location, 1);
    assert_eq!(l.attributes[1].format, VertexFormat::Float32x3);
}

#[test]
fn vertex_format_sizes_are_four_bytes_per_float() {
    assert_eq!(VertexFormat::Float32.size_bytes(), 4);
    assert_eq!(VertexFormat::Float32x2.size_bytes(), 8);
    assert_eq!(VertexFormat::Float32x3.size_bytes(), 12);
    assert_eq!(VertexFormat::Float32x4.size_bytes(), 16);
}
