use lemo_gui::pipeline::PipelineState;
use lemo_gui::render_type::{
    buffer_point_desc, create_glob_pipeline, create_pipeline_state, texture_point_desc,
    IndexFormat, InputStepMode, PointLayout, PrimitiveTopology, RenderType, ShaderKind, VertexFormat,
};
use lemo_gui::shape::{
    fan_indices, get_shape_type, get_type, index_buffer, rect_index, rect_line_index, ShapeKind,
    ShapeType, VertexKind,
};
use lemo_gui::texture::{texture, Extent3d, TextureDataLayout};

#[test]
fn triangle_fan_of_a_triangle() {
    assert_eq!(fan_indices(3), vec![0, 1, 2]);
}

#[test]
fn triangle_fan_of_a_hexagon() {
    assert_eq!(fan_indices(6), vec![0, 1, 2, 0, 2, 3, 0, 3, 4, 0, 4, 5]);
    let big = fan_indices(1000);
    assert_eq!(big.len(), 3 * 998);
    assert!(big.iter().all(|&i| i < 1000));
}

#[test]
fn triangle_fan_counts_points_as_u16() {
    assert_eq!(fan_indices(65537), Vec::<u16>::new());
    assert_eq!(fan_indices(65539), vec![0, 1, 2]);
}

#[test]
fn quad_index_lists() {
    assert_eq!(rect_index(), [0, 2, 1, 3]);
    assert_eq!(rect_line_index(), [0, 1, 3, 2, 0]);
}

#[test]
fn index_buffer_holds_native_bytes() {
    let indices = [0u16, 2, 1, 0x0103];
    let b = index_buffer(&indices);
    assert_eq!(b.num_indices, 4);
    let expected: Vec<u8> = indices.iter().flat_map(|i| i.to_ne_bytes()).collect();
    assert_eq!(b.bytes, expected);
    let empty = index_buffer(&[]);
    assert_eq!(empty.num_indices, 0);
    assert!(empty.bytes.is_empty());
}

#[test]
fn shapes_map_to_pipelines() {
    assert_eq!(get_type(ShapeKind::Rectangle), ShapeType::ROUND);
    assert_eq!(get_type(ShapeKind::Circle), ShapeType::Circle);
    assert_eq!(get_type(ShapeKind::RegularPolygon), ShapeType::Circle);
    assert_eq!(get_type(ShapeKind::Polygon), ShapeType::POINT);
    assert_eq!(get_shape_type(VertexKind::CircleVertex), ShapeType::Circle);
    assert_eq!(get_shape_type(VertexKind::RectVertex), ShapeType::ROUND);
    assert_eq!(get_shape_type(VertexKind::PointVertex), ShapeType::POINT);
    assert_eq!(get_shape_type(VertexKind::TextureVertex), ShapeType::TEXTURE);
}

#[test]
fn first_pipeline_registration_wins() {
    let mut p: PipelineState<&str> = PipelineState::new();
    assert_eq!(p.get_pipeline(ShapeType::ROUND), None);
    p.set_pipeline(ShapeType::ROUND, "first");
    p.set_pipeline(ShapeType::ROUND, "second");
    p.set_pipeline(ShapeType::POINT, "point");
    assert_eq!(p.get_pipeline(ShapeType::ROUND), Some(&"first"));
    assert_eq!(p.get_pipeline(ShapeType::POINT), Some(&"point"));
    assert_eq!(p.get_pipeline(ShapeType::Circle), None);
}

#[test]
fn default_pipelines_cover_every_vertex_type() {
    let p = PipelineState::default("rect", "circle", "point", "texture");
    assert_eq!(p.get_pipeline(ShapeType::ROUND), Some(&"rect"));
    assert_eq!(p.get_pipeline(ShapeType::Circle), Some(&"circle"));
    assert_eq!(p.get_pipeline(ShapeType::POINT), Some(&"point"));
    assert_eq!(p.get_pipeline(ShapeType::TEXTURE), Some(&"texture"));
}

#[test]
fn pipeline_plans_by_render_type() {
    let t = create_pipeline_state(RenderType::Texture(5u8));
    assert_eq!(t.bind_group_layout, Some(5));
    assert_eq!(t.vertex, PointLayout::TexturePoint);
    assert_eq!(t.topology, PrimitiveTopology::TriangleStrip);
    let s = create_pipeline_state(RenderType::<u8>::Shape);
    assert_eq!(s.bind_group_layout, None);
    assert_eq!(s.vertex, PointLayout::BufferPoint);
    assert_eq!(s.topology, PrimitiveTopology::TriangleStrip);
    let b = create_pipeline_state(RenderType::<u8>::Border);
    assert_eq!(b.vertex, PointLayout::BufferPoint);
    assert_eq!(b.topology, PrimitiveTopology::LineStrip);
    assert_eq!(t.index_format, IndexFormat::Uint16);
    assert_eq!(s.index_format, IndexFormat::Uint16);
    assert_eq!(b.index_format, IndexFormat::Uint16);
    let g = create_glob_pipeline(1u8);
    assert_eq!(g.render_pipeline.0, ShaderKind::Font);
    assert_eq!(
        g.render_pipeline.1,
        lemo_gui::render_type::PipelinePlan { bind_group_layout: Some(1u8), ..t }
    );
    assert_eq!(g.shape_pipeline, (ShaderKind::Shape, s));
    assert_eq!(g.border_pipeline, (ShaderKind::Shape, b));
}

#[test]
fn point_buffer_layouts() {
    let b = buffer_point_desc(24, 8);
    assert_eq!(b.stride, 24);
    assert_eq!(b.step_mode, InputStepMode::Vertex);
    assert_eq!(b.attributes.len(), 2);
    assert_eq!(b.attributes[1].offset, 8);
    assert_eq!(b.attributes[1].format, VertexFormat::Float4);
    let t = texture_point_desc(16, 8);
    assert_eq!(t.attributes[0].shader_location, 0);
    assert_eq!(t.attributes[1].shader_location, 1);
    assert_eq!(t.attributes[1].format, VertexFormat::Float2);
}

#[test]
fn texture_sizes_and_layouts() {
    assert_eq!(texture::create_texture_size(40, 30), Extent3d { width: 40, height: 30, depth: 1 });
    assert_eq!(
        texture::create_texture_data_layout(40, 30),
        TextureDataLayout { offset: 0, bytes_per_row: 160, rows_per_image: 30 }
    );
}
