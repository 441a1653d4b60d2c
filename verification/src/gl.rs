//! The OpenGL side of the toolkit: vertex attribute layouts, the uniform
//! value of the screen size, and the reading of GL debug messages.
use vstd::prelude::*;

verus! {

/// Contents of a buffer on creation.
#[derive(Clone, Debug, PartialEq, Eq, Hash)]
pub struct GLBuffer<'a> {
    pub contents: &'a [u8],
}

/// One vertex attribute: where the shader finds it and how it is stored.
#[derive(Clone, Copy, Debug, PartialEq, Eq, Structural)]
pub struct VertexLayoutInfo {
    pub location: u32,
    pub vector_size: i32,
    pub data_type: u32,
    pub normalized: bool,
    pub stride: i32,
    pub offset: i32,
}

impl VertexLayoutInfo {
    /// An attribute with the given fields.
    pub fn new(
        location: u32,
        vector_size: i32,
        data_type: u32,
        normalized: bool,
        stride: i32,
        offset: i32,
    ) -> (info: Self)
        ensures
            info == (VertexLayoutInfo { location, vector_size, data_type, normalized, stride, offset }),
    {
        VertexLayoutInfo { location, vector_size, data_type, normalized, stride, offset }
    }
}

/// The value of `glow::FLOAT`.
pub open spec fn gl_float_value() -> u32 {
    0x1406
}

/// The value of `glow::UNSIGNED_INT`.
pub open spec fn gl_unsigned_int_value() -> u32 {
    0x1405
}

/// `glow::FLOAT`, the GL name of 32-bit floats; glow defines it as 0x1406.
#[verifier::external_body]
fn gl_float() -> (v: u32)
    ensures
        v == gl_float_value(),
{
    glow::FLOAT
}

/// `glow::UNSIGNED_INT`, the GL name of 32-bit unsigned integers; glow
/// defines it as 0x1405.
#[verifier::external_body]
fn gl_unsigned_int() -> (v: u32)
    ensures
        v == gl_unsigned_int_value(),
{
    glow::UNSIGNED_INT
}

/// An attribute that is not normalized.
pub open spec fn attr(location: u32, vector_size: i32, data_type: u32, stride: i32, offset: i32) -> VertexLayoutInfo {
    VertexLayoutInfo { location, vector_size, data_type, normalized: false, stride, offset }
}

/// Whether `a` lies inside one vertex: its `vector_size` components of four
/// bytes each start at or after the vertex and end by its stride.
pub open spec fn inside_vertex(a: VertexLayoutInfo) -> bool {
    0 <= a.offset && a.offset + 4 * a.vector_size <= a.stride
}

/// Whether every attribute of `layout` lies inside one vertex.
pub open spec fn all_inside_vertex(layout: Seq<VertexLayoutInfo>) -> bool {
    forall|i: int| 0 <= i < layout.len() ==> #[trigger] inside_vertex(layout[i])
}

/// The attributes of a circle vertex of `stride` bytes: position (2 floats),
/// color (4 floats), radius (1 float) and number of edges (1 unsigned
/// integer), at the given offsets, which are those of the fields of one
/// vertex, so each attribute lies inside it.
pub fn circle_vertex_layout(stride: i32, position: i32, color: i32, radius: i32, edge: i32) -> (layout:
    Vec<VertexLayoutInfo>)
    requires
        0 <= position && position + 8 <= stride,
        0 <= color && color + 16 <= stride,
        0 <= radius && radius + 4 <= stride,
        0 <= edge && edge + 4 <= stride,
    ensures
        all_inside_vertex(layout@),
        layout@ == seq![
            attr(0, 2, gl_float_value(), stride, position),
            attr(1, 4, gl_float_value(), stride, color),
            attr(2, 1, gl_float_value(), stride, radius),
            attr(3, 1, gl_unsigned_int_value(), stride, edge),
        ],
{
    let float = gl_float();
    let uint = gl_unsigned_int();
    let mut layout: Vec<VertexLayoutInfo> = Vec::new();
    layout.push(VertexLayoutInfo::new(0, 2, float, false, stride, position));
    layout.push(VertexLayoutInfo::new(1, 4, float, false, stride, color));
    layout.push(VertexLayoutInfo::new(2, 1, float, false, stride, radius));
    layout.push(VertexLayoutInfo::new(3, 1, uint, false, stride, edge));
    layout
}

/// The attributes of a rectangle vertex of `stride` bytes: size (2 floats),
/// position (2 floats), border color (4 floats), fill color (4 floats) and
/// the round/border flags (2 unsigned integers), at the given offsets, which
/// are those of the fields of one vertex, so each attribute lies inside it.
pub fn rect_vertex_layout(
    stride: i32,
    size: i32,
    position: i32,
    border_color: i32,
    rect_color: i32,
    is_round_or_border: i32,
) -> (layout: Vec<VertexLayoutInfo>)
    requires
        0 <= size && size + 8 <= stride,
        0 <= position && position + 8 <= stride,
        0 <= border_color && border_color + 16 <= stride,
        0 <= rect_color && rect_color + 16 <= stride,
        0 <= is_round_or_border && is_round_or_border + 8 <= stride,
    ensures
        all_inside_vertex(layout@),
        layout@ == seq![
            attr(0, 2, gl_float_value(), stride, size),
            attr(1, 2, gl_float_value(), stride, position),
            attr(2, 4, gl_float_value(), stride, border_color),
            attr(3, 4, gl_float_value(), stride, rect_color),
            attr(4, 2, gl_unsigned_int_value(), stride, is_round_or_border),
        ],
{
    let float = gl_float();
    let uint = gl_unsigned_int();
    let mut layout: Vec<VertexLayoutInfo> = Vec::new();
    layout.push(VertexLayoutInfo::new(0, 2, float, false, stride, size));
    layout.push(VertexLayoutInfo::new(1, 2, float, false, stride, position));
    layout.push(VertexLayoutInfo::new(2, 4, float, false, stride, border_color));
    layout.push(VertexLayoutInfo::new(3, 4, float, false, stride, rect_color));
    layout.push(VertexLayoutInfo::new(4, 2, uint, false, stride, is_round_or_border));
    layout
}

/// The attributes of a point vertex of `stride` bytes: position (2 floats)
/// and color (4 floats), at the given offsets, which are those of the fields
/// of one vertex, so each attribute lies inside it.
pub fn point_vertex_layout(stride: i32, position: i32, color: i32) -> (layout: Vec<VertexLayoutInfo>)
    requires
        0 <= position && position + 8 <= stride,
        0 <= color && color + 16 <= stride,
    ensures
        all_inside_vertex(layout@),
        layout@ == seq![
            attr(0, 2, gl_float_value(), stride, position),
            attr(1, 4, gl_float_value(), stride, color),
        ],
{
    let float = gl_float();
    let mut layout: Vec<VertexLayoutInfo> = Vec::new();
    layout.push(VertexLayoutInfo::new(0, 2, float, false, stride, position));
    layout.push(VertexLayoutInfo::new(1, 4, float, false, stride, color));
    layout
}

/// The value of the `u_screen_size` uniform for a screen of `width` by
/// `height`: half of each, rounded down.
pub fn screen_size_uniform(width: u32, height: u32) -> (v: (u32, u32))
    ensures
        v == (width / 2, height / 2),
{
    (width / 2, height / 2)
}

/// The `glow::DEBUG_SOURCE_*` constants.
pub struct DebugSources {
    pub api: u32,
    pub window_system: u32,
    pub shader_compiler: u32,
    pub third_party: u32,
    pub application: u32,
    pub other: u32,
}

/// The values that glow gives these constants.
pub open spec fn spec_debugsources() -> DebugSources {
    DebugSources {
        api: 0x8246,
        window_system: 0x8247,
        shader_compiler: 0x8248,
        third_party: 0x8249,
        application: 0x824A,
        other: 0x824B,
    }
}

/// The `glow::DEBUG_TYPE_*` constants.
pub struct DebugTypes {
    pub deprecated_behavior: u32,
    pub error: u32,
    pub marker: u32,
    pub other: u32,
    pub performance: u32,
    pub pop_group: u32,
    pub portability: u32,
    pub push_group: u32,
    pub undefined_behavior: u32,
}

/// The values that glow gives these constants.
pub open spec fn spec_debugtypes() -> DebugTypes {
    DebugTypes {
        deprecated_behavior: 0x824D,
        error: 0x824C,
        marker: 0x8268,
        other: 0x8251,
        performance: 0x8250,
        pop_group: 0x826A,
        portability: 0x824F,
        push_group: 0x8269,
        undefined_behavior: 0x824E,
    }
}

/// The `glow::DEBUG_SEVERITY_*` constants.
pub struct DebugSeverities {
    pub high: u32,
    pub medium: u32,
    pub low: u32,
    pub notification: u32,
}

/// The values that glow gives these constants.
pub open spec fn spec_debugseverities() -> DebugSeverities {
    DebugSeverities {
        high: 0x9146,
        medium: 0x9147,
        low: 0x9148,
        notification: 0x826B,
    }
}

/// The `glow::DEBUG_SOURCE_*` constants, as glow defines them.
#[verifier::external_body]
fn debug_sources() -> (c: DebugSources)
    ensures
        c == spec_debugsources(),
{
    DebugSources {
        api: glow::DEBUG_SOURCE_API,
        window_system: glow::DEBUG_SOURCE_WINDOW_SYSTEM,
        shader_compiler: glow::DEBUG_SOURCE_SHADER_COMPILER,
        third_party: glow::DEBUG_SOURCE_THIRD_PARTY,
        application: glow::DEBUG_SOURCE_APPLICATION,
        other: glow::DEBUG_SOURCE_OTHER,
    }
}

/// The `glow::DEBUG_TYPE_*` constants, as glow defines them.
#[verifier::external_body]
fn debug_types() -> (c: DebugTypes)
    ensures
        c == spec_debugtypes(),
{
    DebugTypes {
        deprecated_behavior: glow::DEBUG_TYPE_DEPRECATED_BEHAVIOR,
        error: glow::DEBUG_TYPE_ERROR,
        marker: glow::DEBUG_TYPE_MARKER,
        other: glow::DEBUG_TYPE_OTHER,
        performance: glow::DEBUG_TYPE_PERFORMANCE,
        pop_group: glow::DEBUG_TYPE_POP_GROUP,
        portability: glow::DEBUG_TYPE_PORTABILITY,
        push_group: glow::DEBUG_TYPE_PUSH_GROUP,
        undefined_behavior: glow::DEBUG_TYPE_UNDEFINED_BEHAVIOR,
    }
}

/// The `glow::DEBUG_SEVERITY_*` constants, as glow defines them.
#[verifier::external_body]
fn debug_severities() -> (c: DebugSeverities)
    ensures
        c == spec_debugseverities(),
{
    DebugSeverities {
        high: glow::DEBUG_SEVERITY_HIGH,
        medium: glow::DEBUG_SEVERITY_MEDIUM,
        low: glow::DEBUG_SEVERITY_LOW,
        notification: glow::DEBUG_SEVERITY_NOTIFICATION,
    }
}

/// The label of a debug message source, for the sources that GL defines.
pub open spec fn spec_source_label(source: u32) -> Option<Seq<char>> {
    if source == 0x8246 {
        Some("API"@)
    } else if source == 0x8247 {
        Some("Window System"@)
    } else if source == 0x8248 {
        Some("ShaderCompiler"@)
    } else if source == 0x8249 {
        Some("Third Party"@)
    } else if source == 0x824A {
        Some("Application"@)
    } else if source == 0x824B {
        Some("Other"@)
    } else {
        None
    }
}

/// The label of a debug message type, for the types that GL defines.
pub open spec fn spec_type_label(gltype: u32) -> Option<Seq<char>> {
    if gltype == 0x824D {
        Some("Deprecated Behavior"@)
    } else if gltype == 0x824C {
        Some("Error"@)
    } else if gltype == 0x8268 {
        Some("Marker"@)
    } else if gltype == 0x8251 {
        Some("Other"@)
    } else if gltype == 0x8250 {
        Some("Performance"@)
    } else if gltype == 0x826A {
        Some("Pop Group"@)
    } else if gltype == 0x824F {
        Some("Portability"@)
    } else if gltype == 0x8269 {
        Some("Push Group"@)
    } else if gltype == 0x824E {
        Some("Undefined Behavior"@)
    } else {
        None
    }
}

/// The log level of a debug message severity, for the severities that GL defines.
pub open spec fn spec_debug_level(severity: u32) -> Option<DebugLevel> {
    if severity == 0x9146 {
        Some(DebugLevel::Error)
    } else if severity == 0x9147 {
        Some(DebugLevel::Warn)
    } else if severity == 0x9148 {
        Some(DebugLevel::Info)
    } else if severity == 0x826B {
        Some(DebugLevel::Trace)
    } else {
        None
    }
}

/// The log level that a GL debug message is reported at.
#[derive(Clone, Copy, Debug, PartialEq, Eq, Structural)]
pub enum DebugLevel {
    Error,
    Warn,
    Info,
    Trace,
}

/// The label of the source of a debug message.
pub fn debug_source_label(source: u32) -> (r: &'static str)
    requires
        spec_source_label(source) is Some,
    ensures
        r@ == spec_source_label(source).unwrap(),
{
    let c = debug_sources();
    if source == c.api {
        "API"
    } else if source == c.window_system {
        "Window System"
    } else if source == c.shader_compiler {
        "ShaderCompiler"
    } else if source == c.third_party {
        "Third Party"
    } else if source == c.application {
        "Application"
    } else {
        "Other"
    }
}

/// The label of the type of a debug message.
pub fn debug_type_label(gltype: u32) -> (r: &'static str)
    requires
        spec_type_label(gltype) is Some,
    ensures
        r@ == spec_type_label(gltype).unwrap(),
{
    let c = debug_types();
    if gltype == c.deprecated_behavior {
        "Deprecated Behavior"
    } else if gltype == c.error {
        "Error"
    } else if gltype == c.marker {
        "Marker"
    } else if gltype == c.other {
        "Other"
    } else if gltype == c.performance {
        "Performance"
    } else if gltype == c.pop_group {
        "Pop Group"
    } else if gltype == c.portability {
        "Portability"
    } else if gltype == c.push_group {
        "Push Group"
    } else {
        "Undefined Behavior"
    }
}

/// The log level of a debug message.
pub fn debug_level(severity: u32) -> (r: DebugLevel)
    requires
        spec_debug_level(severity) is Some,
    ensures
        r == spec_debug_level(severity).unwrap(),
{
    let c = debug_severities();
    if severity == c.high {
        DebugLevel::Error
    } else if severity == c.medium {
        DebugLevel::Warn
    } else if severity == c.low {
        DebugLevel::Info
    } else {
        DebugLevel::Trace
    }
}

/// Whether GL defines the source, type and severity of a debug message
/// (the labels and the level exist for exactly these messages).
pub fn is_known_debug_message(source: u32, gltype: u32, severity: u32) -> (r: bool)
    ensures
        r == (spec_source_label(source) is Some && spec_type_label(gltype) is Some
            && spec_debug_level(severity) is Some),
{
    let s = debug_sources();
    let t = debug_types();
    let v = debug_severities();
    let known_source = source == s.api || source == s.window_system || source == s.shader_compiler
        || source == s.third_party || source == s.application || source == s.other;
    let known_type = gltype == t.deprecated_behavior || gltype == t.error || gltype == t.marker
        || gltype == t.other || gltype == t.performance || gltype == t.pop_group
        || gltype == t.portability || gltype == t.push_group || gltype == t.undefined_behavior;
    let known_severity = severity == v.high || severity == v.medium || severity == v.low
        || severity == v.notification;
    known_source && known_type && known_severity
}

/// Whether the program stops after reporting a message at `level`: only
/// errors stop it, and only in builds with debug assertions.
pub fn stops_after(level: DebugLevel, debug_assertions: bool) -> (r: bool)
    ensures
        r == (debug_assertions && level == DebugLevel::Error),
{
    debug_assertions && level == DebugLevel::Error
}

/// Only messages of high severity are errors, so only they can stop the
/// program.
pub proof fn lemma_only_high_severity_is_error(severity: u32)
    requires
        spec_debug_level(severity) is Some,
    ensures
        (spec_debug_level(severity).unwrap() == DebugLevel::Error) <==> (severity == 0x9146),
{
}

} // verus!
