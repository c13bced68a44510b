use vstd::prelude::*;

verus! {

/// `GL_VERTEX_SHADER`.
pub const VERTEX_SHADER: u32 = 0x8B31;
/// `GL_FRAGMENT_SHADER`.
pub const FRAGMENT_SHADER: u32 = 0x8B30;
/// `GL_COMPILE_STATUS`.
pub const COMPILE_STATUS: u32 = 0x8B81;
/// `GL_LINK_STATUS`.
pub const LINK_STATUS: u32 = 0x8B82;

/// The graphics API behind a backend.
#[derive(Clone, Copy, Debug, PartialEq, Eq, Structural)]
pub enum BackendKind {
    /// Desktop GL, with integer handles.
    Native,
    /// Browser WebGL2, with opaque object handles.
    Web,
}

/// Operations that only some backends offer.
#[derive(Clone, Copy, Debug, PartialEq, Eq, Structural)]
pub enum Operation {
    /// Setting the rasterised size of points.
    PointSize,
    /// Choosing between filled, line and point polygons.
    PolygonMode,
    /// Drawing into several colour attachments at once.
    DrawBuffers,
}

/// The kinds of GPU objects a backend allocates.
#[derive(Clone, Copy, Debug, PartialEq, Eq, Structural)]
pub enum Resource {
    Shader,
    Program,
    Buffer,
    VertexArray,
    Texture,
    Framebuffer,
    Renderbuffer,
}

/// The two shader stages of a program.
#[derive(Clone, Copy, Debug, PartialEq, Eq, Structural)]
pub enum ShaderStage {
    Vertex,
    Fragment,
}

/// Failures of backend calls.
#[derive(Clone, Debug)]
pub enum GlError {
    /// The backend did not allocate the object.
    ResourceCreationFailed(Resource),
    /// A shader stage did not compile; carries the backend's info log.
    ShaderCompileError(ShaderStage, String),
    /// The program did not link; carries the backend's info log.
    ProgramLinkError(String),
    /// The backend does not offer the operation.
    UnsupportedOperation(Operation),
}

/// Which backends offer which operation: the optional operations are desktop GL only.
pub open spec fn kind_supports(kind: BackendKind, op: Operation) -> bool {
    match op {
        Operation::PointSize => kind == BackendKind::Native,
        Operation::PolygonMode => kind == BackendKind::Native,
        Operation::DrawBuffers => kind == BackendKind::Native,
    }
}

/// Whether a backend of the given kind offers an operation.
pub fn supports(kind: BackendKind, op: Operation) -> (r: bool)
    ensures
        r == kind_supports(kind, op),
{
    match op {
        Operation::PointSize => kind == BackendKind::Native,
        Operation::PolygonMode => kind == BackendKind::Native,
        Operation::DrawBuffers => kind == BackendKind::Native,
    }
}

/// Succeeds exactly when a backend of the given kind offers the operation, and fails
/// with `UnsupportedOperation` otherwise.
pub fn check_supported(kind: BackendKind, op: Operation) -> (r: Result<(), GlError>)
    ensures
        kind_supports(kind, op) <==> r is Ok,
        r matches Err(e) ==> e == GlError::UnsupportedOperation(op),
{
    if supports(kind, op) {
        Ok(())
    } else {
        Err(GlError::UnsupportedOperation(op))
    }
}

/// Turns the backend's answer to a `create_*` call into a result: no object is
/// `ResourceCreationFailed` for that kind of resource, an object is success.
pub fn allocated<H>(handle: Option<H>, resource: Resource) -> (r: Result<H, GlError>)
    ensures
        handle is None ==> (r matches Err(GlError::ResourceCreationFailed(x)) && x == resource),
        handle matches Some(h) ==> r == Ok::<H, GlError>(h),
{
    match handle {
        Some(h) => Ok(h),
        None => Err(GlError::ResourceCreationFailed(resource)),
    }
}

/// The GPU operations the engine issues, generic over the backend's handle types.
///
/// Status queries answer with integers (`0` for false, `1` for true on boolean queries);
/// a uniform location is an integer, `-1` when the program has no such uniform. Calls
/// that allocate answer `None` when the backend refused. Operations that only some
/// backends offer are reached through `Backend`.
pub trait GlFunctions {
    type GlShader;
    type GlProgram;
    type GlBuffer;
    type GlVertexArray;
    type GlTexture;
    type GlFramebuffer;
    type GlRenderbuffer;

    /// The API behind this backend.
    fn kind(&self) -> BackendKind;

    fn viewport(&self, x: i32, y: i32, width: i32, height: i32);

    fn scissor(&self, x: i32, y: i32, width: i32, height: i32);

    fn create_shader(&self, kind: u32) -> Option<Self::GlShader>;

    fn shader_source(&self, shader: &Self::GlShader, source: &str);

    fn compile_shader(&self, shader: &Self::GlShader);

    fn delete_shader(&self, shader: &Self::GlShader);

    fn get_shader_parameter(&self, shader: &Self::GlShader, param: u32) -> i32;

    fn get_shader_info_log(&self, shader: &Self::GlShader) -> String;

    fn create_program(&self) -> Option<Self::GlProgram>;

    fn attach_shader(&self, program: &Self::GlProgram, shader: &Self::GlShader);

    fn detach_shader(&self, program: &Self::GlProgram, shader: &Self::GlShader);

    fn link_program(&self, program: &Self::GlProgram);

    fn get_program_parameter(&self, program: &Self::GlProgram, param: u32) -> i32;

    fn get_program_info_log(&self, program: &Self::GlProgram) -> String;

    fn use_program(&self, program: Option<&Self::GlProgram>);

    fn delete_program(&self, program: &Self::GlProgram);

    fn get_attrib_location(&self, program: &Self::GlProgram, name: &str) -> i32;

    fn get_uniform_location(&self, program: &Self::GlProgram, name: &str) -> i32;

    fn uniform_1i(&self, location: i32, x: i32);

    fn uniform_1ui(&self, location: i32, x: u32);

    fn uniform_2i(&self, location: i32, x: i32, y: i32);

    fn uniform_3i(&self, location: i32, x: i32, y: i32, z: i32);

    fn uniform_4i(&self, location: i32, x: i32, y: i32, z: i32, w: i32);

    fn create_buffer(&self) -> Option<Self::GlBuffer>;

    fn bind_buffer(&self, target: u32, buffer: Option<&Self::GlBuffer>);

    /// Uploads bytes; the backend keeps no reference to `data`.
    fn buffer_data(&self, target: u32, data: &[u8], usage: u32);

    fn buffer_sub_data(&self, target: u32, offset: i32, data: &[u8]);

    fn delete_buffer(&self, buffer: &Self::GlBuffer);

    fn create_vertex_array(&self) -> Option<Self::GlVertexArray>;

    fn bind_vertex_array(&self, vertex_array: Option<&Self::GlVertexArray>);

    fn delete_vertex_array(&self, vertex_array: &Self::GlVertexArray);

    fn vertex_attrib_pointer(&self, index: u32, size: i32, data_type: u32, normalized: bool, stride: i32, offset: i32);

    fn enable_vertex_attrib_array(&self, index: u32);

    fn disable_vertex_attrib_array(&self, index: u32);

    fn vertex_attrib_divisor(&self, index: u32, divisor: u32);

    fn draw_arrays(&self, mode: u32, first: i32, count: i32);

    fn draw_elements(&self, mode: u32, count: i32, element_type: u32, offset: i32);

    fn draw_arrays_instanced(&self, mode: u32, first: i32, count: i32, instance_count: i32);

    fn draw_elements_instanced(&self, mode: u32, count: i32, element_type: u32, offset: i32, instance_count: i32);

    fn enable(&self, param: u32);

    fn disable(&self, param: u32);

    fn get_error(&self) -> u32;

    fn get_parameter_i32(&self, parameter: u32) -> i32;

    fn pixel_storei(&self, storage: u32, value: i32);

    fn active_texture(&self, unit: u32);

    fn create_texture(&self) -> Option<Self::GlTexture>;

    fn bind_texture(&self, target: u32, texture: Option<&Self::GlTexture>);

    fn delete_texture(&self, texture: &Self::GlTexture);

    fn tex_image_2d(&self, target: u32, level: i32, internal_format: i32, width: i32, height: i32, border: i32, format: u32, ty: u32, pixels: Option<&[u8]>);

    fn generate_mipmap(&self, target: u32);

    fn tex_parameteri(&self, target: u32, parameter: u32, value: i32);

    fn create_framebuffer(&self) -> Option<Self::GlFramebuffer>;

    fn bind_framebuffer(&self, target: u32, framebuffer: Option<&Self::GlFramebuffer>);

    fn delete_framebuffer(&self, framebuffer: &Self::GlFramebuffer);

    fn framebuffer_texture_2d(&self, target: u32, attachment: u32, texture_target: u32, texture: Option<&Self::GlTexture>, level: i32);

    fn check_framebuffer_status(&self, target: u32) -> u32;

    fn create_renderbuffer(&self) -> Option<Self::GlRenderbuffer>;

    fn bind_renderbuffer(&self, target: u32, renderbuffer: Option<&Self::GlRenderbuffer>);

    fn delete_renderbuffer(&self, renderbuffer: &Self::GlRenderbuffer);

    fn renderbuffer_storage(&self, target: u32, internal_format: u32, width: i32, height: i32);

    fn depth_func(&self, func: u32);

    fn blend_func(&self, src: u32, dst: u32);

    fn stencil_func(&self, func: u32, reference: i32, mask: u32);

    fn stencil_op(&self, stencil_fail: u32, depth_fail: u32, pass: u32);

    fn clear(&self, mask: u32);

    fn clear_stencil(&self, stencil: i32);

    fn stencil_mask(&self, mask: u32);

    fn depth_mask(&self, value: bool);

    fn cull_face(&self, value: u32);

    fn read_pixels(&self, x: i32, y: i32, width: i32, height: i32, format: u32, ty: u32, data: &mut [u8]);

    fn bind_attrib_location(&self, program: &Self::GlProgram, index: u32, name: &str);

    fn uniform_2ui(&self, location: i32, x: u32, y: u32);

    fn uniform_3ui(&self, location: i32, x: u32, y: u32, z: u32);

    fn uniform_4ui(&self, location: i32, x: u32, y: u32, z: u32, w: u32);

    fn is_buffer(&self, buffer: &Self::GlBuffer) -> bool;

    fn is_texture(&self, texture: &Self::GlTexture) -> bool;

    fn is_framebuffer(&self, framebuffer: &Self::GlFramebuffer) -> bool;

    fn finish(&self);

    fn flush(&self);

    fn tex_image_3d(&self, target: u32, level: i32, internal_format: i32, width: i32, height: i32, depth: i32, border: i32, format: u32, ty: u32, pixels: Option<&[u8]>);

    fn framebuffer_renderbuffer(&self, target: u32, attachment: u32, renderbuffer_target: u32, renderbuffer: Option<&Self::GlRenderbuffer>);

    fn blit_framebuffer(&self, src_x0: i32, src_y0: i32, src_x1: i32, src_y1: i32, dst_x0: i32, dst_y0: i32, dst_x1: i32, dst_y1: i32, mask: u32, filter: u32);

    fn read_buffer(&self, mode: u32);

    fn blend_func_separate(&self, src_rgb: u32, dst_rgb: u32, src_alpha: u32, dst_alpha: u32);

    /// Issues the call; only `Backend::polygon_mode` reaches it, on backends that offer it.
    fn polygon_mode_unchecked(&self, face: u32, mode: u32);

    /// Issues the call; only `Backend::draw_buffers` reaches it, on backends that offer it.
    fn draw_buffers_unchecked(&self, buffers: &[u32]);
}

/// A backend together with its kind, read once, through which the operations that only
/// some backends offer are issued.
pub struct Backend<G: GlFunctions> {
    gl: G,
    kind: BackendKind,
    optional: Ghost<Seq<(Operation, Seq<u32>)>>,
}

impl<G: GlFunctions> Backend<G> {
    /// The wrapped backend.
    pub closed spec fn inner(self) -> G {
        self.gl
    }

    /// The kind the backend reported when it was wrapped; it cannot be changed afterwards.
    pub closed spec fn kind_spec(self) -> BackendKind {
        self.kind
    }

    /// The optional calls issued through this wrapper, in order, each with its arguments.
    pub closed spec fn optional_calls(self) -> Seq<(Operation, Seq<u32>)> {
        self.optional@
    }

    pub fn new(gl: G) -> (r: Backend<G>)
        ensures
            r.inner() == gl,
            r.optional_calls().len() == 0,
    {
        let kind = gl.kind();
        Backend { gl, kind, optional: Ghost(Seq::empty()) }
    }

    pub fn kind(&self) -> (r: BackendKind)
        ensures
            r == self.kind_spec(),
    {
        self.kind
    }

    /// The wrapped backend, for every call that all backends offer.
    pub fn gl(&self) -> (r: &G)
        ensures
            *r == self.inner(),
    {
        &self.gl
    }

    /// Sets the polygon mode; fails with `UnsupportedOperation` on backends without it and
    /// then issues nothing.
    pub fn polygon_mode(&mut self, face: u32, mode: u32) -> (r: Result<(), GlError>)
        ensures
            kind_supports(old(self).kind_spec(), Operation::PolygonMode) <==> r is Ok,
            r matches Err(e) ==> e == GlError::UnsupportedOperation(Operation::PolygonMode),
            r is Ok ==> final(self).optional_calls() == old(self).optional_calls().push(
                (Operation::PolygonMode, seq![face, mode]),
            ),
            r is Err ==> final(self).optional_calls() == old(self).optional_calls(),
            final(self).kind_spec() == old(self).kind_spec(),
            final(self).inner() == old(self).inner(),
    {
        let r = check_supported(self.kind, Operation::PolygonMode);
        if r.is_ok() {
            self.gl.polygon_mode_unchecked(face, mode);
            proof {
                self.optional = Ghost(self.optional@.push((Operation::PolygonMode, seq![face, mode])));
            }
        }
        r
    }

    /// Selects several draw buffers; fails with `UnsupportedOperation` on backends without
    /// it and then issues nothing.
    pub fn draw_buffers(&mut self, buffers: &[u32]) -> (r: Result<(), GlError>)
        ensures
            kind_supports(old(self).kind_spec(), Operation::DrawBuffers) <==> r is Ok,
            r matches Err(e) ==> e == GlError::UnsupportedOperation(Operation::DrawBuffers),
            r is Ok ==> final(self).optional_calls() == old(self).optional_calls().push(
                (Operation::DrawBuffers, buffers@),
            ),
            r is Err ==> final(self).optional_calls() == old(self).optional_calls(),
            final(self).kind_spec() == old(self).kind_spec(),
            final(self).inner() == old(self).inner(),
    {
        let r = check_supported(self.kind, Operation::DrawBuffers);
        if r.is_ok() {
            self.gl.draw_buffers_unchecked(buffers);
            proof {
                self.optional = Ghost(self.optional@.push((Operation::DrawBuffers, buffers@)));
            }
        }
        r
    }

    /// Checks that point sizes can be set here; the size itself is a float, which the
    /// caller passes to the backend after this succeeds.
    pub fn point_size_supported(&self) -> (r: Result<(), GlError>)
        ensures
            kind_supports(self.kind_spec(), Operation::PointSize) <==> r is Ok,
            r matches Err(e) ==> e == GlError::UnsupportedOperation(Operation::PointSize),
    {
        check_supported(self.kind, Operation::PointSize)
    }
}

/// Every optional operation fails with `UnsupportedOperation` on the browser backend.
pub proof fn lemma_web_lacks_optional_operations(op: Operation)
    ensures
        !kind_supports(BackendKind::Web, op),
        kind_supports(BackendKind::Native, op),
{
}

} // verus!
