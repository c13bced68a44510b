use std::cell::{Cell, RefCell};

use yage::backend::{
    allocated, Backend, BackendKind, COMPILE_STATUS, FRAGMENT_SHADER, GlError, GlFunctions, LINK_STATUS,
    Operation, Resource, ShaderStage, VERTEX_SHADER, check_supported, supports,
};
use yage::gpu::{Buffer, Texture, column_major, u32_bytes};
use yage::program::{
    Program, StepOutcome, UNKNOWN_LOCATION, UniformLookup, classify_step, link_outcome,
    stage_outcome,
};
use yage::shader::{add_defines, define_lines};

/// A backend that records the calls it receives, for tests.
pub struct MockGl {
    pub kind: BackendKind,
    pub calls: RefCell<Vec<String>>,
    pub uploaded: RefCell<Vec<u8>>,
    pub fail_create: bool,
    pub failing_stage: Option<u32>,
    pub shader_log: String,
    pub link_fails: bool,
    pub link_log: String,
    handles: Cell<u32>,
    compiles: Cell<u32>,
}

impl MockGl {
    pub fn new(kind: BackendKind) -> MockGl {
        MockGl {
            kind,
            calls: RefCell::new(Vec::new()),
            uploaded: RefCell::new(Vec::new()),
            fail_create: false,
            failing_stage: None,
            shader_log: String::new(),
            link_fails: false,
            link_log: String::new(),
            handles: Cell::new(0),
            compiles: Cell::new(0),
        }
    }

    fn log(&self, name: &str) {
        self.calls.borrow_mut().push(name.to_string());
    }

    fn next_handle(&self) -> u32 {
        self.handles.set(self.handles.get() + 1);
        self.handles.get()
    }

    pub fn count(&self, name: &str) -> usize {
        self.calls.borrow().iter().filter(|c| c.as_str() == name).count()
    }
}

impl GlFunctions for MockGl {
    type GlShader = u32;
    type GlProgram = u32;
    type GlBuffer = u32;
    type GlVertexArray = u32;
    type GlTexture = u32;
    type GlFramebuffer = u32;
    type GlRenderbuffer = u32;

    fn kind(&self) -> BackendKind {
        self.kind
    }

    fn viewport(&self, _x: i32, _y: i32, _width: i32, _height: i32) {
        self.log("viewport")
    }

    fn scissor(&self, _x: i32, _y: i32, _width: i32, _height: i32) {
        self.log("scissor")
    }

    fn create_shader(&self, _kind: u32) -> Option<u32> {
        self.log("create_shader");
        if self.fail_create { None } else { Some(self.next_handle()) }
    }

    fn shader_source(&self, _shader: &u32, _source: &str) {
        self.log("shader_source")
    }

    fn compile_shader(&self, _shader: &u32) {
        self.log("compile_shader")
    }

    fn delete_shader(&self, _shader: &u32) {
        self.log("delete_shader")
    }

    fn get_shader_parameter(&self, _shader: &u32, _param: u32) -> i32 {
        self.log("get_shader_parameter");
        let n = self.compiles.get();
        self.compiles.set(n + 1);
        if self.failing_stage == Some(n) { 0 } else { 1 }
    }

    fn get_shader_info_log(&self, _shader: &u32) -> String {
        self.log("get_shader_info_log");
        self.shader_log.clone()
    }

    fn create_program(&self) -> Option<u32> {
        self.log("create_program");
        if self.fail_create { None } else { Some(self.next_handle()) }
    }

    fn attach_shader(&self, _program: &u32, _shader: &u32) {
        self.log("attach_shader")
    }

    fn detach_shader(&self, _program: &u32, _shader: &u32) {
        self.log("detach_shader")
    }

    fn link_program(&self, _program: &u32) {
        self.log("link_program")
    }

    fn get_program_parameter(&self, _program: &u32, _param: u32) -> i32 {
        self.log("get_program_parameter");
        if self.link_fails { 0 } else { 1 }
    }

    fn get_program_info_log(&self, _program: &u32) -> String {
        self.log("get_program_info_log");
        self.link_log.clone()
    }

    fn use_program(&self, _program: Option<&u32>) {
        self.log("use_program")
    }

    fn delete_program(&self, _program: &u32) {
        self.log("delete_program")
    }

    fn get_attrib_location(&self, _program: &u32, _name: &str) -> i32 {
        self.log("get_attrib_location");
        0
    }

    fn get_uniform_location(&self, _program: &u32, name: &str) -> i32 {
        self.log("get_uniform_location");
        if name == "known" { 7 } else { -1 }
    }

    fn uniform_1i(&self, _location: i32, _x: i32) {
        self.log("uniform_1i")
    }

    fn uniform_1ui(&self, _location: i32, _x: u32) {
        self.log("uniform_1ui")
    }

    fn uniform_2i(&self, _location: i32, _x: i32, _y: i32) {
        self.log("uniform_2i")
    }

    fn uniform_3i(&self, _location: i32, _x: i32, _y: i32, _z: i32) {
        self.log("uniform_3i")
    }

    fn uniform_4i(&self, _location: i32, _x: i32, _y: i32, _z: i32, _w: i32) {
        self.log("uniform_4i")
    }

    fn create_buffer(&self) -> Option<u32> {
        self.log("create_buffer");
        if self.fail_create { None } else { Some(self.next_handle()) }
    }

    fn bind_buffer(&self, _target: u32, _buffer: Option<&u32>) {
        self.log("bind_buffer")
    }

    fn buffer_data(&self, _target: u32, data: &[u8], _usage: u32) {
        self.log("buffer_data");
        self.uploaded.borrow_mut().extend_from_slice(data)
    }

    fn buffer_sub_data(&self, _target: u32, _offset: i32, _data: &[u8]) {
        self.log("buffer_sub_data")
    }

    fn delete_buffer(&self, _buffer: &u32) {
        self.log("delete_buffer")
    }

    fn create_vertex_array(&self) -> Option<u32> {
        self.log("create_vertex_array");
        Some(self.next_handle())
    }

    fn bind_vertex_array(&self, _vertex_array: Option<&u32>) {
        self.log("bind_vertex_array")
    }

    fn delete_vertex_array(&self, _vertex_array: &u32) {
        self.log("delete_vertex_array")
    }

    fn vertex_attrib_pointer(&self, _index: u32, _size: i32, _data_type: u32, _normalized: bool, _stride: i32, _offset: i32) {
        self.log("vertex_attrib_pointer")
    }

    fn enable_vertex_attrib_array(&self, _index: u32) {
        self.log("enable_vertex_attrib_array")
    }

    fn disable_vertex_attrib_array(&self, _index: u32) {
        self.log("disable_vertex_attrib_array")
    }

    fn vertex_attrib_divisor(&self, _index: u32, _divisor: u32) {
        self.log("vertex_attrib_divisor")
    }

    fn draw_arrays(&self, _mode: u32, _first: i32, _count: i32) {
        self.log("draw_arrays")
    }

    fn draw_elements(&self, _mode: u32, _count: i32, _element_type: u32, _offset: i32) {
        self.log("draw_elements")
    }

    fn draw_arrays_instanced(&self, _mode: u32, _first: i32, _count: i32, _instance_count: i32) {
        self.log("draw_arrays_instanced")
    }

    fn draw_elements_instanced(&self, _mode: u32, _count: i32, _element_type: u32, _offset: i32, _instance_count: i32) {
        self.log("draw_elements_instanced")
    }

    fn enable(&self, _param: u32) {
        self.log("enable")
    }

    fn disable(&self, _param: u32) {
        self.log("disable")
    }

    fn get_error(&self) -> u32 {
        self.log("get_error");
        0
    }

    fn get_parameter_i32(&self, _parameter: u32) -> i32 {
        self.log("get_parameter_i32");
        0
    }

    fn pixel_storei(&self, _storage: u32, _value: i32) {
        self.log("pixel_storei")
    }

    fn active_texture(&self, _unit: u32) {
        self.log("active_texture")
    }

    fn create_texture(&self) -> Option<u32> {
        self.log("create_texture");
        Some(self.next_handle())
    }

    fn bind_texture(&self, _target: u32, _texture: Option<&u32>) {
        self.log("bind_texture")
    }

    fn delete_texture(&self, _texture: &u32) {
        self.log("delete_texture")
    }

    fn tex_image_2d(&self, _target: u32, _level: i32, _internal_format: i32, _width: i32, _height: i32, _border: i32, _format: u32, _ty: u32, _pixels: Option<&[u8]>) {
        self.log("tex_image_2d")
    }

    fn generate_mipmap(&self, _target: u32) {
        self.log("generate_mipmap")
    }

    fn tex_parameteri(&self, _target: u32, _parameter: u32, _value: i32) {
        self.log("tex_parameteri")
    }

    fn create_framebuffer(&self) -> Option<u32> {
        self.log("create_framebuffer");
        Some(self.next_handle())
    }

    fn bind_framebuffer(&self, _target: u32, _framebuffer: Option<&u32>) {
        self.log("bind_framebuffer")
    }

    fn delete_framebuffer(&self, _framebuffer: &u32) {
        self.log("delete_framebuffer")
    }

    fn framebuffer_texture_2d(&self, _target: u32, _attachment: u32, _texture_target: u32, _texture: Option<&u32>, _level: i32) {
        self.log("framebuffer_texture_2d")
    }

    fn check_framebuffer_status(&self, _target: u32) -> u32 {
        self.log("check_framebuffer_status");
        0
    }

    fn create_renderbuffer(&self) -> Option<u32> {
        self.log("create_renderbuffer");
        Some(self.next_handle())
    }

    fn bind_renderbuffer(&self, _target: u32, _renderbuffer: Option<&u32>) {
        self.log("bind_renderbuffer")
    }

    fn delete_renderbuffer(&self, _renderbuffer: &u32) {
        self.log("delete_renderbuffer")
    }

    fn renderbuffer_storage(&self, _target: u32, _internal_format: u32, _width: i32, _height: i32) {
        self.log("renderbuffer_storage")
    }

    fn depth_func(&self, _func: u32) {
        self.log("depth_func")
    }

    fn blend_func(&self, _src: u32, _dst: u32) {
        self.log("blend_func")
    }

    fn stencil_func(&self, _func: u32, _reference: i32, _mask: u32) {
        self.log("stencil_func")
    }

    fn stencil_op(&self, _stencil_fail: u32, _depth_fail: u32, _pass: u32) {
        self.log("stencil_op")
    }

    fn clear(&self, _mask: u32) {
        self.log("clear")
    }

    fn clear_stencil(&self, _stencil: i32) {
        self.log("clear_stencil")
    }

    fn stencil_mask(&self, _mask: u32) {
        self.log("stencil_mask")
    }

    fn depth_mask(&self, _value: bool) {
        self.log("depth_mask")
    }

    fn cull_face(&self, _value: u32) {
        self.log("cull_face")
    }

    fn read_pixels(&self, _x: i32, _y: i32, _width: i32, _height: i32, _format: u32, _ty: u32, _data: &mut [u8]) {
        self.log("read_pixels")
    }

    fn bind_attrib_location(&self, _program: &u32, _index: u32, _name: &str) {
        self.log("bind_attrib_location")
    }

    fn uniform_2ui(&self, _location: i32, _x: u32, _y: u32) {
        self.log("uniform_2ui")
    }

    fn uniform_3ui(&self, _location: i32, _x: u32, _y: u32, _z: u32) {
        self.log("uniform_3ui")
    }

    fn uniform_4ui(&self, _location: i32, _x: u32, _y: u32, _z: u32, _w: u32) {
        self.log("uniform_4ui")
    }

    fn is_buffer(&self, _buffer: &u32) -> bool {
        self.log("is_buffer");
        true
    }

    fn is_texture(&self, _texture: &u32) -> bool {
        self.log("is_texture");
        true
    }

    fn is_framebuffer(&self, _framebuffer: &u32) -> bool {
        self.log("is_framebuffer");
        true
    }

    fn finish(&self) {
        self.log("finish")
    }

    fn flush(&self) {
        self.log("flush")
    }

    fn tex_image_3d(&self, _target: u32, _level: i32, _internal_format: i32, _width: i32, _height: i32, _depth: i32, _border: i32, _format: u32, _ty: u32, _pixels: Option<&[u8]>) {
        self.log("tex_image_3d")
    }

    fn framebuffer_renderbuffer(&self, _target: u32, _attachment: u32, _renderbuffer_target: u32, _renderbuffer: Option<&u32>) {
        self.log("framebuffer_renderbuffer")
    }

    fn blit_framebuffer(&self, _src_x0: i32, _src_y0: i32, _src_x1: i32, _src_y1: i32, _dst_x0: i32, _dst_y0: i32, _dst_x1: i32, _dst_y1: i32, _mask: u32, _filter: u32) {
        self.log("blit_framebuffer")
    }

    fn read_buffer(&self, _mode: u32) {
        self.log("read_buffer")
    }

    fn blend_func_separate(&self, _src_rgb: u32, _dst_rgb: u32, _src_alpha: u32, _dst_alpha: u32) {
        self.log("blend_func_separate")
    }

    fn polygon_mode_unchecked(&self, _face: u32, _mode: u32) {
        self.log("polygon_mode_unchecked")
    }

    fn draw_buffers_unchecked(&self, _buffers: &[u32]) {
        self.log("draw_buffers_unchecked")
    }
}

fn defines(list: &[&str]) -> Vec<String> {
    list.iter().map(|d| d.to_string()).collect()
}

#[test]
fn add_defines_after_version() {
    let out = add_defines("#version 300 es\nvoid main(){}", &defines(&["A", "B 2"]));
    assert_eq!(out, "#version 300 es\n#define A\n#define B 2\nvoid main(){}");
}

#[test]
fn add_defines_without_version_prepends() {
    let out = add_defines("void main(){}", &defines(&["A", "B 2"]));
    assert_eq!(out, "#define A\n#define B 2\nvoid main(){}");
}

#[test]
fn add_defines_version_on_later_line() {
    let out = add_defines("// header\n#version 330 core\nout vec4 c;\n", &defines(&["X"]));
    assert_eq!(out, "// header\n#version 330 core\n#define X\nout vec4 c;\n");
}

#[test]
fn add_defines_version_not_at_line_start_is_ignored() {
    let out = add_defines("  #version 300 es\nx", &defines(&["X"]));
    assert_eq!(out, "#define X\n  #version 300 es\nx");
}

#[test]
fn add_defines_version_as_last_line() {
    let out = add_defines("#version 300 es", &defines(&["A"]));
    assert_eq!(out, "#version 300 es\n#define A");
}

#[test]
fn add_defines_with_no_defines() {
    assert_eq!(add_defines("#version 300 es\nx", &defines(&[])), "#version 300 es\nx");
    assert_eq!(add_defines("x", &defines(&[])), "x");
    assert_eq!(define_lines(&defines(&[])), "");
    assert_eq!(define_lines(&defines(&["ONE", "TWO 2"])), "#define ONE\n#define TWO 2");
}

#[test]
fn add_defines_keeps_non_ascii_text() {
    let out = add_defines("// äöü\n#version 300 es\nx", &defines(&["Ω 1"]));
    assert_eq!(out, "// äöü\n#version 300 es\n#define Ω 1\nx");
}

#[test]
fn uniform_location_is_cached() {
    let gl = MockGl::new(BackendKind::Native);
    let (mut program, warnings) = Program::from_source(&gl, "v", "f", &defines(&[])).unwrap();
    assert!(warnings.is_empty());
    let first = program.uniform_location(&gl, "known").location;
    let second = program.uniform_location(&gl, "known").location;
    assert_eq!(first, 7);
    assert_eq!(second, first);
    assert_eq!(gl.count("get_uniform_location"), 1);
}

#[test]
fn unknown_uniform_is_cached_as_miss() {
    let gl = MockGl::new(BackendKind::Native);
    let (mut program, _) = Program::from_source(&gl, "v", "f", &defines(&[])).unwrap();
    assert!(!program.is_cached("missing"));
    assert_eq!(program.uniform_location(&gl, "missing"), UniformLookup { location: UNKNOWN_LOCATION, first_miss: true });
    assert!(program.is_cached("missing"));
    assert_eq!(program.uniform_location(&gl, "missing"), UniformLookup { location: UNKNOWN_LOCATION, first_miss: false });
    assert_eq!(program.uniform_location(&gl, "known"), UniformLookup { location: 7, first_miss: false });
    assert_eq!(gl.count("get_uniform_location"), 2);
    assert_eq!(program.set_int(&gl, "known", 3).location, 7);
    assert!(!program.set_bool(&gl, "missing", true).first_miss);
    assert_eq!(gl.count("get_uniform_location"), 2);
    assert_eq!(gl.count("uniform_1i"), 2);
}

#[test]
fn from_source_compiles_and_links() {
    let gl = MockGl::new(BackendKind::Web);
    let (mut program, _) = Program::from_source(&gl, "#version 300 es\nv", "f", &defines(&["A"])).unwrap();
    assert_eq!(gl.count("compile_shader"), 2);
    assert_eq!(gl.count("link_program"), 1);
    assert_eq!(gl.count("delete_shader"), 2);
    program.use_program(&gl);
    assert_eq!(gl.count("use_program"), 1);
    program.delete(&gl);
    assert_eq!(gl.count("delete_program"), 1);
}

#[test]
fn from_source_reports_compile_error() {
    let mut gl = MockGl::new(BackendKind::Native);
    gl.failing_stage = Some(1);
    gl.shader_log = "0:1: syntax error".to_string();
    match Program::from_source(&gl, "v", "f", &defines(&[])) {
        Err(GlError::ShaderCompileError(stage, log)) => {
            assert_eq!(stage, ShaderStage::Fragment);
            assert_eq!(log, "0:1: syntax error");
        }
        _ => panic!("expected a compile error"),
    }
    assert_eq!(gl.count("create_program"), 0);
    assert_eq!(gl.count("delete_shader"), 2);
}

#[test]
fn from_source_reports_vertex_error() {
    let mut gl = MockGl::new(BackendKind::Native);
    gl.failing_stage = Some(0);
    let r = Program::from_source(&gl, "v", "f", &defines(&[]));
    assert!(matches!(r, Err(GlError::ShaderCompileError(ShaderStage::Vertex, _))));
    assert_eq!(gl.count("delete_shader"), 1);
}

#[test]
fn from_source_reports_link_error() {
    let mut gl = MockGl::new(BackendKind::Native);
    gl.link_fails = true;
    gl.link_log = "link failed".to_string();
    match Program::from_source(&gl, "v", "f", &defines(&[])) {
        Err(GlError::ProgramLinkError(log)) => assert_eq!(log, "link failed"),
        _ => panic!("expected a link error"),
    }
    assert_eq!(gl.count("delete_program"), 1);
}

#[test]
fn from_source_collects_warnings() {
    let mut gl = MockGl::new(BackendKind::Native);
    gl.shader_log = "deprecated".to_string();
    let (_, warnings) = Program::from_source(&gl, "v", "f", &defines(&[])).unwrap();
    assert_eq!(warnings, vec!["deprecated".to_string(), "deprecated".to_string()]);
}

#[test]
fn from_source_reports_resource_failure() {
    let mut gl = MockGl::new(BackendKind::Native);
    gl.fail_create = true;
    let r = Program::from_source(&gl, "v", "f", &defines(&[]));
    assert!(matches!(r, Err(GlError::ResourceCreationFailed(Resource::Shader))));
}

#[test]
fn classify_step_outcomes() {
    assert!(matches!(classify_step(0, String::new()), StepOutcome::Failed(l) if l.is_empty()));
    assert!(matches!(classify_step(0, "bad".to_string()), StepOutcome::Failed(l) if l == "bad"));
    assert!(matches!(classify_step(1, "note".to_string()), StepOutcome::Warning(l) if l == "note"));
    assert!(matches!(classify_step(1, String::new()), StepOutcome::Clean));
    assert!(matches!(classify_step(2, "odd".to_string()), StepOutcome::Failed(l) if l == "odd"));
    assert!(matches!(classify_step(-1, String::new()), StepOutcome::Failed(_)));
}

#[test]
fn unsupported_operations_fail_on_web() {
    let mut backend = Backend::new(MockGl::new(BackendKind::Web));
    assert_eq!(backend.kind(), BackendKind::Web);
    assert!(matches!(backend.polygon_mode(0x0408, 0x1B01), Err(GlError::UnsupportedOperation(Operation::PolygonMode))));
    assert!(matches!(backend.draw_buffers(&[0x8CE0, 0x8CE1]), Err(GlError::UnsupportedOperation(Operation::DrawBuffers))));
    assert!(matches!(backend.point_size_supported(), Err(GlError::UnsupportedOperation(Operation::PointSize))));
    assert!(matches!(check_supported(BackendKind::Web, Operation::PointSize), Err(GlError::UnsupportedOperation(Operation::PointSize))));
    assert_eq!(backend.gl().count("polygon_mode_unchecked"), 0);
    assert_eq!(backend.gl().count("draw_buffers_unchecked"), 0);
}

#[test]
fn optional_operations_run_on_native() {
    let mut backend = Backend::new(MockGl::new(BackendKind::Native));
    assert!(backend.polygon_mode(0x0408, 0x1B01).is_ok());
    assert!(backend.draw_buffers(&[0x8CE0]).is_ok());
    assert!(backend.point_size_supported().is_ok());
    assert!(check_supported(BackendKind::Native, Operation::PointSize).is_ok());
    assert!(supports(BackendKind::Native, Operation::DrawBuffers));
    assert!(!supports(BackendKind::Web, Operation::PointSize));
    assert_eq!(backend.gl().count("polygon_mode_unchecked"), 1);
    assert_eq!(backend.gl().count("draw_buffers_unchecked"), 1);
}

#[test]
fn u32_values_become_little_endian_bytes() {
    assert_eq!(u32_bytes(&vec![0x0403_0201, 0xFFEE_DDCC]), vec![1, 2, 3, 4, 0xCC, 0xDD, 0xEE, 0xFF]);
    assert_eq!(u32_bytes(&vec![]), Vec::<u8>::new());
}

#[test]
fn matrices_are_laid_out_by_column() {
    let m2 = vec![vec![1, 2], vec![3, 4]];
    assert_eq!(column_major(&m2), vec![1, 2, 3, 4]);
    let m3 = vec![vec![1, 2, 3], vec![4, 5, 6], vec![7, 8, 9]];
    assert_eq!(column_major(&m3), vec![1, 2, 3, 4, 5, 6, 7, 8, 9]);
    let m4: Vec<Vec<f32>> = (0..4).map(|c| (0..4).map(|r| (c * 10 + r) as f32).collect()).collect();
    let cm = column_major(&m4);
    assert_eq!(cm.len(), 16);
    assert_eq!(cm[1], 1.0);
    assert_eq!(cm[4], 10.0);
    assert_eq!(cm[4 * 3 + 2], 32.0);
    assert_eq!(cm[15], 33.0);
}

#[test]
fn buffer_upload_and_release() {
    let gl = MockGl::new(BackendKind::Native);
    let bytes = u32_bytes(&vec![1, 2]);
    let buffer = Buffer::create(&gl, 0x8892, &bytes, 0x88E4).unwrap();
    assert_eq!(buffer.len(), 8);
    assert_eq!(buffer.usage_hint(), 0x88E4);
    assert_eq!(*gl.uploaded.borrow(), bytes);
    buffer.bind(&gl);
    assert_eq!(gl.count("bind_buffer"), 2);
    buffer.destroy(&gl);
    assert_eq!(gl.count("delete_buffer"), 1);
}

#[test]
fn buffer_creation_failure_is_reported() {
    let mut gl = MockGl::new(BackendKind::Web);
    gl.fail_create = true;
    let r = Buffer::create(&gl, 0x8892, &[1, 2, 3], 0x88E4);
    assert!(matches!(r, Err(GlError::ResourceCreationFailed(Resource::Buffer))));
    assert_eq!(gl.count("buffer_data"), 0);
}

#[test]
fn shader_constants_match_gl() {
    assert_eq!(VERTEX_SHADER, glenum::ShaderKind::Vertex as u32);
    assert_eq!(FRAGMENT_SHADER, glenum::ShaderKind::Fragment as u32);
    assert_eq!(COMPILE_STATUS, glenum::ShaderParameter::CompileStatus as u32);
    assert_eq!(LINK_STATUS, glenum::ShaderParameter::LinkStatus as u32);
}

#[test]
fn texture_upload_and_release() {
    let gl = MockGl::new(BackendKind::Web);
    let pixels = [255u8, 0, 0, 255];
    let texture = Texture::create(&gl, 0x0DE1, 0x1908, 1, 1, 0x1908, 0x1401, Some(&pixels), &vec![(0x2801, 0x2601), (0x2800, 0x2601)]).unwrap();
    assert_eq!(gl.count("tex_image_2d"), 1);
    assert_eq!(gl.count("tex_parameteri"), 2);
    texture.bind(&gl, 0x84C0);
    assert_eq!(gl.count("active_texture"), 1);
    texture.destroy(&gl);
    assert_eq!(gl.count("delete_texture"), 1);
}

#[test]
fn from_source_traced_matches_from_source() {
    let mut gl = MockGl::new(BackendKind::Native);
    gl.link_fails = true;
    let (r, _, _) = Program::from_source_traced(&gl, "v", "f", &defines(&["A"]));
    assert!(matches!(r, Err(GlError::ProgramLinkError(_))));
    assert_eq!(gl.count("create_shader"), 2);
    assert_eq!(gl.count("delete_shader"), 2);
    assert_eq!(gl.count("create_program"), 1);
    assert_eq!(gl.count("delete_program"), 1);
}

#[test]
fn step_outcomes() {
    assert!(matches!(stage_outcome(1, String::new(), ShaderStage::Vertex), Ok(None)));
    assert!(matches!(stage_outcome(1, "w".to_string(), ShaderStage::Vertex), Ok(Some(l)) if l == "w"));
    assert!(matches!(stage_outcome(0, "e".to_string(), ShaderStage::Fragment), Err(GlError::ShaderCompileError(ShaderStage::Fragment, l)) if l == "e"));
    assert!(matches!(link_outcome(1, String::new()), Ok(None)));
    assert!(matches!(link_outcome(1, "w".to_string()), Ok(Some(l)) if l == "w"));
    assert!(matches!(link_outcome(3, "bad".to_string()), Err(GlError::ProgramLinkError(l)) if l == "bad"));
    assert!(matches!(allocated(Some(5u32), Resource::Buffer), Ok(5)));
    assert!(matches!(allocated(None::<u32>, Resource::Program), Err(GlError::ResourceCreationFailed(Resource::Program))));
}
