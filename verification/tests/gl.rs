use lemo_gui::gl::{
    circle_vertex_layout, debug_level, debug_source_label, debug_type_label,
    is_known_debug_message, point_vertex_layout, rect_vertex_layout, screen_size_uniform,
    stops_after, DebugLevel, GLBuffer, VertexLayoutInfo,
};

fn info(location: u32, vector_size: i32, data_type: u32, stride: i32, offset: i32) -> VertexLayoutInfo {
    VertexLayoutInfo { location, vector_size, data_type, normalized: false, stride, offset }
}

#[test]
fn vertex_layout_info_keeps_its_fields() {
    let i = VertexLayoutInfo::new(3, 1, glow::UNSIGNED_INT, true, 32, 28);
    assert_eq!(i.location, 3);
    assert_eq!(i.vector_size, 1);
    assert_eq!(i.data_type, glow::UNSIGNED_INT);
    assert!(i.normalized);
    assert_eq!(i.stride, 32);
    assert_eq!(i.offset, 28);
}

#[test]
fn gl_buffer_holds_its_contents() {
    let data = [1u8, 2, 3];
    let b = GLBuffer { contents: &data };
    assert_eq!(b.clone(), GLBuffer { contents: &[1, 2, 3] });
}

#[test]
fn vertex_layouts_use_gl_types() {
    assert_eq!(
        circle_vertex_layout(32, 0, 8, 24, 28),
        vec![
            info(0, 2, glow::FLOAT, 32, 0),
            info(1, 4, glow::FLOAT, 32, 8),
            info(2, 1, glow::FLOAT, 32, 24),
            info(3, 1, glow::UNSIGNED_INT, 32, 28),
        ]
    );
    assert_eq!(
        rect_vertex_layout(56, 0, 8, 16, 32, 48),
        vec![
            info(0, 2, glow::FLOAT, 56, 0),
            info(1, 2, glow::FLOAT, 56, 8),
            info(2, 4, glow::FLOAT, 56, 16),
            info(3, 4, glow::FLOAT, 56, 32),
            info(4, 2, glow::UNSIGNED_INT, 56, 48),
        ]
    );
    assert_eq!(
        point_vertex_layout(24, 0, 8),
        vec![info(0, 2, glow::FLOAT, 24, 0), info(1, 4, glow::FLOAT, 24, 8)]
    );
}

#[test]
fn screen_size_uniform_is_half_the_size() {
    assert_eq!(screen_size_uniform(801, 600), (400, 300));
    assert_eq!(screen_size_uniform(1, 0), (0, 0));
}

#[test]
fn debug_message_labels() {
    assert_eq!(debug_source_label(glow::DEBUG_SOURCE_API), "API");
    assert_eq!(debug_source_label(glow::DEBUG_SOURCE_WINDOW_SYSTEM), "Window System");
    assert_eq!(debug_source_label(glow::DEBUG_SOURCE_SHADER_COMPILER), "ShaderCompiler");
    assert_eq!(debug_source_label(glow::DEBUG_SOURCE_THIRD_PARTY), "Third Party");
    assert_eq!(debug_source_label(glow::DEBUG_SOURCE_APPLICATION), "Application");
    assert_eq!(debug_source_label(glow::DEBUG_SOURCE_OTHER), "Other");
    assert_eq!(debug_type_label(glow::DEBUG_TYPE_ERROR), "Error");
    assert_eq!(debug_type_label(glow::DEBUG_TYPE_DEPRECATED_BEHAVIOR), "Deprecated Behavior");
    assert_eq!(debug_type_label(glow::DEBUG_TYPE_UNDEFINED_BEHAVIOR), "Undefined Behavior");
    assert_eq!(debug_type_label(glow::DEBUG_TYPE_PUSH_GROUP), "Push Group");
    assert_eq!(debug_type_label(glow::DEBUG_TYPE_OTHER), "Other");
    assert_eq!(debug_level(glow::DEBUG_SEVERITY_HIGH), DebugLevel::Error);
    assert_eq!(debug_level(glow::DEBUG_SEVERITY_MEDIUM), DebugLevel::Warn);
    assert_eq!(debug_level(glow::DEBUG_SEVERITY_LOW), DebugLevel::Info);
    assert_eq!(debug_level(glow::DEBUG_SEVERITY_NOTIFICATION), DebugLevel::Trace);
}

#[test]
fn unknown_debug_messages_are_recognised() {
    assert!(is_known_debug_message(
        glow::DEBUG_SOURCE_API,
        glow::DEBUG_TYPE_MARKER,
        glow::DEBUG_SEVERITY_LOW
    ));
    assert!(!is_known_debug_message(0, glow::DEBUG_TYPE_MARKER, glow::DEBUG_SEVERITY_LOW));
    assert!(!is_known_debug_message(glow::DEBUG_SOURCE_API, 0, glow::DEBUG_SEVERITY_LOW));
    assert!(!is_known_debug_message(glow::DEBUG_SOURCE_API, glow::DEBUG_TYPE_MARKER, 0));
}

#[test]
fn only_errors_stop_debug_builds() {
    assert!(stops_after(DebugLevel::Error, true));
    assert!(!stops_after(DebugLevel::Error, false));
    assert!(!stops_after(DebugLevel::Warn, true));
    assert!(!stops_after(DebugLevel::Trace, true));
}

#[test]
fn vertex_attributes_lie_inside_one_vertex() {
    let layouts = [
        circle_vertex_layout(32, 0, 8, 24, 28),
        rect_vertex_layout(56, 0, 8, 16, 32, 48),
        point_vertex_layout(24, 0, 8),
    ];
    for layout in layouts.iter() {
        for a in layout {
            assert!(a.offset >= 0 && a.offset + 4 * a.vector_size <= a.stride);
        }
    }
}
