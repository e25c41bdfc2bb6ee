//! The demosaic pipeline: which calls into the graphics driver turn a raw
//! Bayer frame into an RGB image, and in which order.
//!
//! Nothing here touches the driver. Each operation of the pipeline is a
//! sequence of calls that the program carries out in order; a call that fails
//! ends its sequence. The pipeline keeps track of the objects that exist on
//! the GPU, hands out calls only for objects that exist, and deletes each of
//! them once.

use vstd::prelude::*;
use crate::pixel::{BayerPattern, PixelFormat};

verus! {

/// The filter arrangement of the sensor. The red sample is at [1,1].
pub const SENSOR_PATTERN: BayerPattern = BayerPattern::BGGR;

/// The two programmable stages of the pipeline.
#[derive(Copy, Clone, Debug, PartialEq, Eq, Structural)]
pub enum ShaderStage {
    Vertex,
    Fragment,
}

/// The two textures of the pipeline.
#[derive(Copy, Clone, Debug, PartialEq, Eq, Structural)]
pub enum Texture {
    /// The raw frame, one channel of 8 bits.
    Input,
    /// The RGB image that a capture renders to.
    Output,
}

/// An object that the pipeline creates on the GPU.
#[derive(Copy, Clone, Debug, PartialEq, Eq, Structural)]
pub enum Object {
    VertexShader,
    FragmentShader,
    Program,
    VertexArray,
    VertexBuffer,
    InputTexture,
    OutputTexture,
    Framebuffer,
}

impl ShaderStage {
    pub open spec fn spec_object(&self) -> Object {
        match self {
            ShaderStage::Vertex => Object::VertexShader,
            ShaderStage::Fragment => Object::FragmentShader,
        }
    }

    /// The shader object of the stage.
    #[verifier::when_used_as_spec(spec_object)]
    pub fn object(&self) -> (o: Object)
        ensures
            o == self.spec_object(),
    {
        match self {
            ShaderStage::Vertex => Object::VertexShader,
            ShaderStage::Fragment => Object::FragmentShader,
        }
    }
}

impl Texture {
    pub open spec fn spec_object(&self) -> Object {
        match self {
            Texture::Input => Object::InputTexture,
            Texture::Output => Object::OutputTexture,
        }
    }

    /// The texture object.
    #[verifier::when_used_as_spec(spec_object)]
    pub fn object(&self) -> (o: Object)
        ensures
            o == self.spec_object(),
    {
        match self {
            Texture::Input => Object::InputTexture,
            Texture::Output => Object::OutputTexture,
        }
    }
}

/// Format of the texels of a texture.
#[derive(Copy, Clone, Debug, PartialEq, Eq, Structural)]
pub enum TextureFormat {
    Red,
    Rgb,
    Rgba,
}

pub open spec fn spec_texture_format(fmt: PixelFormat) -> TextureFormat {
    match fmt {
        PixelFormat::RGB8 => TextureFormat::Rgb,
        PixelFormat::Bayer8(_) => TextureFormat::Red,
        PixelFormat::RGBA8 => TextureFormat::Rgba,
    }
}

/// The texture format that holds pixels of a format.
#[verifier::when_used_as_spec(spec_texture_format)]
pub fn texture_format(fmt: PixelFormat) -> (format: TextureFormat)
    ensures
        format == spec_texture_format(fmt),
{
    match fmt {
        PixelFormat::RGB8 => TextureFormat::Rgb,
        PixelFormat::Bayer8(_) => TextureFormat::Red,
        PixelFormat::RGBA8 => TextureFormat::Rgba,
    }
}

pub open spec fn spec_first_red(pattern: BayerPattern) -> (u8, u8) {
    match pattern {
        BayerPattern::RGGB => (0, 0),
        BayerPattern::BGGR => (1, 1),
    }
}

/// Column and row of the first red sample in a tile of the pattern.
///
/// RGGB | BGGR
/// -----+------
///  R G | B G
///  G B | G R
/// -----+------
/// [0,0]| [1,1]
#[verifier::when_used_as_spec(spec_first_red)]
pub fn first_red(pattern: BayerPattern) -> (at: (u8, u8))
    ensures
        at == spec_first_red(pattern),
{
    match pattern {
        BayerPattern::RGGB => (0, 0),
        BayerPattern::BGGR => (1, 1),
    }
}

/// A sampling parameter of a texture.
#[derive(Copy, Clone, Debug, PartialEq, Eq, Structural)]
pub enum TexParameter {
    WrapS,
    WrapT,
    MinFilter,
    MagFilter,
}

/// The value of a sampling parameter.
#[derive(Copy, Clone, Debug, PartialEq, Eq, Structural)]
pub enum TexValue {
    ClampToEdge,
    Nearest,
    Linear,
}

/// Where rendering goes.
#[derive(Copy, Clone, Debug, PartialEq, Eq, Structural)]
pub enum Target {
    /// The default framebuffer.
    Screen,
    /// The framebuffer of the pipeline.
    Offscreen,
}

/// An input of the vertex shader.
#[derive(Copy, Clone, Debug, PartialEq, Eq, Structural)]
pub enum Attribute {
    /// `position`: x and y in [-1,1]
    Position,
    /// `tex_coords`: u and v in [0,1]
    TexCoords,
}

/// A set of GPU objects.
#[derive(Copy, Clone, Debug, PartialEq, Eq, Structural)]
pub struct Objects {
    pub vertex_shader: bool,
    pub fragment_shader: bool,
    pub program: bool,
    pub vertex_array: bool,
    pub vertex_buffer: bool,
    pub input_texture: bool,
    pub output_texture: bool,
    pub framebuffer: bool,
}

impl Objects {
    pub open spec fn spec_none() -> Objects {
        Objects {
            vertex_shader: false,
            fragment_shader: false,
            program: false,
            vertex_array: false,
            vertex_buffer: false,
            input_texture: false,
            output_texture: false,
            framebuffer: false,
        }
    }

    /// The empty set.
    #[verifier::when_used_as_spec(spec_none)]
    pub fn none() -> (set: Objects)
        ensures
            set == Objects::spec_none(),
    {
        Objects {
            vertex_shader: false,
            fragment_shader: false,
            program: false,
            vertex_array: false,
            vertex_buffer: false,
            input_texture: false,
            output_texture: false,
            framebuffer: false,
        }
    }

    pub open spec fn spec_resources() -> Objects {
        Objects {
            vertex_shader: false,
            fragment_shader: false,
            program: true,
            vertex_array: true,
            vertex_buffer: true,
            input_texture: true,
            output_texture: true,
            framebuffer: true,
        }
    }

    /// The objects that a ready pipeline holds: all but the shaders, which
    /// are deleted once the program is linked.
    #[verifier::when_used_as_spec(spec_resources)]
    pub fn resources() -> (set: Objects)
        ensures
            set == Objects::spec_resources(),
    {
        Objects {
            vertex_shader: false,
            fragment_shader: false,
            program: true,
            vertex_array: true,
            vertex_buffer: true,
            input_texture: true,
            output_texture: true,
            framebuffer: true,
        }
    }

    pub open spec fn spec_has(&self, o: Object) -> bool {
        match o {
            Object::VertexShader => self.vertex_shader,
            Object::FragmentShader => self.fragment_shader,
            Object::Program => self.program,
            Object::VertexArray => self.vertex_array,
            Object::VertexBuffer => self.vertex_buffer,
            Object::InputTexture => self.input_texture,
            Object::OutputTexture => self.output_texture,
            Object::Framebuffer => self.framebuffer,
        }
    }

    /// Whether the object is in the set.
    #[verifier::when_used_as_spec(spec_has)]
    pub fn has(&self, o: Object) -> (yes: bool)
        ensures
            yes == self.spec_has(o),
    {
        match o {
            Object::VertexShader => self.vertex_shader,
            Object::FragmentShader => self.fragment_shader,
            Object::Program => self.program,
            Object::VertexArray => self.vertex_array,
            Object::VertexBuffer => self.vertex_buffer,
            Object::InputTexture => self.input_texture,
            Object::OutputTexture => self.output_texture,
            Object::Framebuffer => self.framebuffer,
        }
    }

    pub open spec fn spec_put(&self, o: Object, present: bool) -> Objects {
        match o {
            Object::VertexShader => Objects { vertex_shader: present, ..*self },
            Object::FragmentShader => Objects { fragment_shader: present, ..*self },
            Object::Program => Objects { program: present, ..*self },
            Object::VertexArray => Objects { vertex_array: present, ..*self },
            Object::VertexBuffer => Objects { vertex_buffer: present, ..*self },
            Object::InputTexture => Objects { input_texture: present, ..*self },
            Object::OutputTexture => Objects { output_texture: present, ..*self },
            Object::Framebuffer => Objects { framebuffer: present, ..*self },
        }
    }

    /// The set with the object put in or taken out.
    #[verifier::when_used_as_spec(spec_put)]
    pub fn put(&self, o: Object, present: bool) -> (set: Objects)
        ensures
            set == self.spec_put(o, present),
    {
        let mut set = *self;
        match o {
            Object::VertexShader => set.vertex_shader = present,
            Object::FragmentShader => set.fragment_shader = present,
            Object::Program => set.program = present,
            Object::VertexArray => set.vertex_array = present,
            Object::VertexBuffer => set.vertex_buffer = present,
            Object::InputTexture => set.input_texture = present,
            Object::OutputTexture => set.output_texture = present,
            Object::Framebuffer => set.framebuffer = present,
        }
        set
    }

    /// The set with the object.
    pub open spec fn with(&self, o: Object) -> Objects {
        self.spec_put(o, true)
    }

    /// The set without the object.
    pub open spec fn without(&self, o: Object) -> Objects {
        self.spec_put(o, false)
    }
}

/// One call into the graphics driver.
#[derive(Copy, Clone, Debug, PartialEq, Eq, Structural)]
pub enum GlCall {
    /// Creates the object.
    Create(Object),
    /// Deletes the object.
    Delete(Object),
    /// Hands the source text of the stage to its shader.
    ShaderSource(ShaderStage),
    CompileShader(ShaderStage),
    /// Fails with the log of the shader unless the shader compiled.
    CheckCompiled(ShaderStage),
    AttachShader(ShaderStage),
    DetachShader(ShaderStage),
    LinkProgram,
    /// Fails with the log of the program unless the program linked.
    CheckLinked,
    UseProgram,
    BindTexture(Texture),
    /// Allocates the storage of the texture, which is bound.
    TexImage { texture: Texture, format: TextureFormat, width: usize, height: usize },
    /// Sets a sampling parameter of the texture, which is bound.
    TexParameter { texture: Texture, name: TexParameter, value: TexValue },
    /// Selects the texture unit.
    ActiveTexture(u32),
    /// Copies the raw frame to the texture, which is bound.
    UploadFrame { texture: Texture, width: usize, height: usize },
    /// Copies the texture, which is bound, to the output buffer on the host
    /// as RGB of 8 bits, and waits for the copy.
    ReadBack { texture: Texture },
    BindVertexArray,
    BindVertexBuffer,
    /// Copies the four vertices of the quad to the vertex buffer.
    UploadQuad,
    /// Declares where an attribute lies in a vertex of 16 bytes: two floats
    /// at the offset.
    VertexAttribute { attribute: Attribute, offset: u32 },
    EnableAttribute(Attribute),
    /// Sets `firstRed`, the offset of the first red sample.
    SetFirstRed { x: u8, y: u8 },
    /// Sets `sourceSize`: the dimensions of the frame and their reciprocals.
    SetSourceSize { width: usize, height: usize },
    /// Sets `source`, the texture unit that the shader samples.
    SetSource(u32),
    BindFramebuffer(Target),
    /// Clears color and depth to opaque black.
    Clear,
    /// Attaches the output texture to the framebuffer as its color target.
    AttachOutput,
    /// Directs drawing to the color target.
    DrawBuffers,
    /// Fails unless the framebuffer is complete.
    CheckFramebufferComplete,
    Viewport { width: usize, height: usize },
    /// Draws the quad as a strip of two triangles.
    DrawQuad,
}

impl GlCall {
    /// The objects that the call works on.
    pub open spec fn uses(self) -> Objects {
        let none = Objects::spec_none();
        match self {
            GlCall::Create(_) => none,
            GlCall::Delete(o) => none.with(o),
            GlCall::ShaderSource(s) => none.with(s.spec_object()),
            GlCall::CompileShader(s) => none.with(s.spec_object()),
            GlCall::CheckCompiled(s) => none.with(s.spec_object()),
            GlCall::AttachShader(s) => none.with(Object::Program).with(s.spec_object()),
            GlCall::DetachShader(s) => none.with(Object::Program).with(s.spec_object()),
            GlCall::LinkProgram => none.with(Object::Program),
            GlCall::CheckLinked => none.with(Object::Program),
            GlCall::UseProgram => none.with(Object::Program),
            GlCall::BindTexture(t) => none.with(t.spec_object()),
            GlCall::TexImage { texture, .. } => none.with(texture.spec_object()),
            GlCall::TexParameter { texture, .. } => none.with(texture.spec_object()),
            GlCall::ActiveTexture(_) => none,
            GlCall::UploadFrame { texture, .. } => none.with(texture.spec_object()),
            GlCall::ReadBack { texture } => none.with(texture.spec_object()),
            GlCall::BindVertexArray => none.with(Object::VertexArray),
            GlCall::BindVertexBuffer => none.with(Object::VertexBuffer),
            GlCall::UploadQuad => none.with(Object::VertexBuffer),
            GlCall::VertexAttribute { .. } => none.with(Object::Program).with(
                Object::VertexArray,
            ).with(Object::VertexBuffer),
            GlCall::EnableAttribute(_) => none.with(Object::Program).with(Object::VertexArray),
            GlCall::SetFirstRed { .. } => none.with(Object::Program),
            GlCall::SetSourceSize { .. } => none.with(Object::Program),
            GlCall::SetSource(_) => none.with(Object::Program),
            GlCall::BindFramebuffer(Target::Screen) => none,
            GlCall::BindFramebuffer(Target::Offscreen) => none.with(Object::Framebuffer),
            GlCall::Clear => none,
            GlCall::AttachOutput => none.with(Object::Framebuffer).with(Object::OutputTexture),
            GlCall::DrawBuffers => none.with(Object::Framebuffer),
            GlCall::CheckFramebufferComplete => none.with(Object::Framebuffer),
            GlCall::Viewport { .. } => none,
            GlCall::DrawQuad => none.with(Object::Program).with(Object::VertexArray).with(
                Object::VertexBuffer,
            ),
        }
    }

    /// Whether the call may be made while exactly the objects in `live`
    /// exist: it creates an object that does not exist yet, or works on
    /// objects that all exist.
    pub open spec fn admissible(self, live: Objects) -> bool {
        match self {
            GlCall::Create(o) => !live.spec_has(o),
            _ => forall|o: Object| #[trigger] self.uses().spec_has(o) ==> live.spec_has(o),
        }
    }

    pub open spec fn spec_effect(self, live: Objects) -> Objects {
        match self {
            GlCall::Create(o) => live.with(o),
            GlCall::Delete(o) => live.without(o),
            _ => live,
        }
    }

    /// The objects that exist after the call, if those in `live` exist
    /// before.
    #[verifier::when_used_as_spec(spec_effect)]
    pub fn effect(self, live: Objects) -> (after: Objects)
        ensures
            after == self.spec_effect(live),
    {
        match self {
            GlCall::Create(o) => live.put(o, true),
            GlCall::Delete(o) => live.put(o, false),
            _ => live,
        }
    }
}

/// The objects that exist after a sequence of calls.
pub open spec fn live_after(start: Objects, calls: Seq<GlCall>) -> Objects
    decreases calls.len(),
{
    if calls.len() == 0 {
        start
    } else {
        calls.last().spec_effect(live_after(start, calls.drop_last()))
    }
}

/// Every call of the sequence is admissible at its place: no object is used
/// before it was created or after it was deleted, and none is created twice.
pub open spec fn guarded(start: Objects, calls: Seq<GlCall>) -> bool
    decreases calls.len(),
{
    calls.len() == 0 || (guarded(start, calls.drop_last()) && calls.last().admissible(
        live_after(start, calls.drop_last()),
    ))
}

/// A guarded sequence stays guarded with one more call that is admissible
/// after it.
pub proof fn lemma_guarded_push(start: Objects, calls: Seq<GlCall>, call: GlCall)
    ensures
        guarded(start, calls.push(call)) == (guarded(start, calls) && call.admissible(
            live_after(start, calls),
        )),
        live_after(start, calls.push(call)) == call.spec_effect(live_after(start, calls)),
{
    assert(calls.push(call).drop_last() =~= calls);
}

/// One more admissible call after a guarded sequence.
proof fn step(start: Objects, calls: Seq<GlCall>, call: GlCall) -> (next: Seq<GlCall>)
    requires
        guarded(start, calls),
        call.admissible(live_after(start, calls)),
    ensures
        next == calls.push(call),
        guarded(start, next),
        live_after(start, next) == call.spec_effect(live_after(start, calls)),
{
    lemma_guarded_push(start, calls, call);
    calls.push(call)
}

/// Two guarded sequences, the second of which starts with the objects that
/// the first leaves, make one guarded sequence.
pub proof fn lemma_guarded_concat(start: Objects, first: Seq<GlCall>, then: Seq<GlCall>)
    requires
        guarded(start, first),
        guarded(live_after(start, first), then),
    ensures
        guarded(start, first + then),
        live_after(start, first + then) == live_after(live_after(start, first), then),
    decreases then.len(),
{
    if then.len() == 0 {
        assert(first + then =~= first);
    } else {
        lemma_guarded_concat(start, first, then.drop_last());
        assert((first + then).drop_last() =~= first + then.drop_last());
    }
}

/// The calls that compile the two shaders and link them to a program. A
/// failed check ends the sequence. Once the program is linked the shaders are
/// detached and deleted.
pub open spec fn compile_and_link_table() -> Seq<GlCall> {
    seq![
        GlCall::Create(Object::VertexShader),
        GlCall::ShaderSource(ShaderStage::Vertex),
        GlCall::CompileShader(ShaderStage::Vertex),
        GlCall::CheckCompiled(ShaderStage::Vertex),
        GlCall::Create(Object::FragmentShader),
        GlCall::ShaderSource(ShaderStage::Fragment),
        GlCall::CompileShader(ShaderStage::Fragment),
        GlCall::CheckCompiled(ShaderStage::Fragment),
        GlCall::Create(Object::Program),
        GlCall::AttachShader(ShaderStage::Vertex),
        GlCall::AttachShader(ShaderStage::Fragment),
        GlCall::LinkProgram,
        GlCall::CheckLinked,
        GlCall::DetachShader(ShaderStage::Vertex),
        GlCall::DetachShader(ShaderStage::Fragment),
        GlCall::Delete(Object::VertexShader),
        GlCall::Delete(Object::FragmentShader),
    ]
}

/// Compiling and linking uses no object before it was created, and leaves
/// the program as the only new object.
pub proof fn lemma_compile_and_link_is_guarded(live: Objects)
    requires
        !live.has(Object::VertexShader),
        !live.has(Object::FragmentShader),
        !live.has(Object::Program),
    ensures
        guarded(live, compile_and_link_table()),
        live_after(live, compile_and_link_table()) == live.with(Object::Program),
{
    let s = Seq::<GlCall>::empty();
    let s = step(live, s, GlCall::Create(Object::VertexShader));
    let s = step(live, s, GlCall::ShaderSource(ShaderStage::Vertex));
    let s = step(live, s, GlCall::CompileShader(ShaderStage::Vertex));
    let s = step(live, s, GlCall::CheckCompiled(ShaderStage::Vertex));
    let s = step(live, s, GlCall::Create(Object::FragmentShader));
    let s = step(live, s, GlCall::ShaderSource(ShaderStage::Fragment));
    let s = step(live, s, GlCall::CompileShader(ShaderStage::Fragment));
    let s = step(live, s, GlCall::CheckCompiled(ShaderStage::Fragment));
    let s = step(live, s, GlCall::Create(Object::Program));
    let s = step(live, s, GlCall::AttachShader(ShaderStage::Vertex));
    let s = step(live, s, GlCall::AttachShader(ShaderStage::Fragment));
    let s = step(live, s, GlCall::LinkProgram);
    let s = step(live, s, GlCall::CheckLinked);
    let s = step(live, s, GlCall::DetachShader(ShaderStage::Vertex));
    let s = step(live, s, GlCall::DetachShader(ShaderStage::Fragment));
    let s = step(live, s, GlCall::Delete(Object::VertexShader));
    let s = step(live, s, GlCall::Delete(Object::FragmentShader));
    assert(s =~= compile_and_link_table());
}

/// The calls that create a texture of the given format and size, bind it and
/// set it to clamp at the edges and to sample the nearest texel.
pub open spec fn allocate_bind_texture_table(
    texture: Texture,
    fmt: PixelFormat,
    width: usize,
    height: usize,
) -> Seq<GlCall> {
    seq![
        GlCall::Create(texture.object()),
        GlCall::BindTexture(texture),
        GlCall::TexImage { texture, format: texture_format(fmt), width, height },
        GlCall::TexParameter { texture, name: TexParameter::WrapS, value: TexValue::ClampToEdge },
        GlCall::TexParameter { texture, name: TexParameter::WrapT, value: TexValue::ClampToEdge },
        GlCall::TexParameter { texture, name: TexParameter::MinFilter, value: TexValue::Nearest },
        GlCall::TexParameter { texture, name: TexParameter::MagFilter, value: TexValue::Nearest },
    ]
}

/// Allocating a texture uses nothing but the texture it creates.
pub proof fn lemma_allocate_bind_texture_is_guarded(
    live: Objects,
    texture: Texture,
    fmt: PixelFormat,
    width: usize,
    height: usize,
)
    requires
        !live.has(texture.object()),
    ensures
        guarded(live, allocate_bind_texture_table(texture, fmt, width, height)),
        live_after(live, allocate_bind_texture_table(texture, fmt, width, height))
            == live.with(texture.object()),
{
    let s = Seq::<GlCall>::empty();
    let s = step(live, s, GlCall::Create(texture.object()));
    let s = step(live, s, GlCall::BindTexture(texture));
    let s = step(
        live,
        s,
        GlCall::TexImage { texture, format: texture_format(fmt), width, height },
    );
    let s = step(
        live,
        s,
        GlCall::TexParameter { texture, name: TexParameter::WrapS, value: TexValue::ClampToEdge },
    );
    let s = step(
        live,
        s,
        GlCall::TexParameter { texture, name: TexParameter::WrapT, value: TexValue::ClampToEdge },
    );
    let s = step(
        live,
        s,
        GlCall::TexParameter { texture, name: TexParameter::MinFilter, value: TexValue::Nearest },
    );
    let s = step(
        live,
        s,
        GlCall::TexParameter { texture, name: TexParameter::MagFilter, value: TexValue::Nearest },
    );
    assert(s =~= allocate_bind_texture_table(texture, fmt, width, height));
}

/// The calls that build the quad that covers the viewport: a vertex array and
/// a vertex buffer with four vertices of two position and two texture
/// coordinates each.
pub open spec fn geometry_table() -> Seq<GlCall> {
    seq![
        GlCall::Create(Object::VertexArray),
        GlCall::BindVertexArray,
        GlCall::Create(Object::VertexBuffer),
        GlCall::BindVertexBuffer,
        GlCall::UploadQuad,
        GlCall::VertexAttribute { attribute: Attribute::Position, offset: 0 },
        GlCall::VertexAttribute { attribute: Attribute::TexCoords, offset: 8 },
        GlCall::EnableAttribute(Attribute::Position),
        GlCall::EnableAttribute(Attribute::TexCoords),
    ]
}

/// Building the quad needs the program, and adds the vertex array and the
/// vertex buffer.
pub proof fn lemma_geometry_is_guarded(live: Objects)
    requires
        live.has(Object::Program),
        !live.has(Object::VertexArray),
        !live.has(Object::VertexBuffer),
    ensures
        guarded(live, geometry_table()),
        live_after(live, geometry_table())
            == live.with(Object::VertexArray).with(Object::VertexBuffer),
{
    let s = Seq::<GlCall>::empty();
    let s = step(live, s, GlCall::Create(Object::VertexArray));
    let s = step(live, s, GlCall::BindVertexArray);
    let s = step(live, s, GlCall::Create(Object::VertexBuffer));
    let s = step(live, s, GlCall::BindVertexBuffer);
    let s = step(live, s, GlCall::UploadQuad);
    let s = step(live, s, GlCall::VertexAttribute { attribute: Attribute::Position, offset: 0 });
    let s = step(live, s, GlCall::VertexAttribute { attribute: Attribute::TexCoords, offset: 8 });
    let s = step(live, s, GlCall::EnableAttribute(Attribute::Position));
    let s = step(live, s, GlCall::EnableAttribute(Attribute::TexCoords));
    assert(s =~= geometry_table());
}

/// The calls that set the pipeline up for frames of the given size, in order:
/// the program; the framebuffer and the RGB texture that it renders to; the
/// quad; the input texture with one channel; and the two parameters of the
/// shader, the place of the first red sample and the size of the frame.
pub open spec fn init_table(pattern: BayerPattern, width: usize, height: usize) -> Seq<GlCall> {
    compile_and_link_table() + seq![GlCall::UseProgram, GlCall::Create(Object::Framebuffer)]
        + allocate_bind_texture_table(Texture::Output, PixelFormat::RGB8, width, height)
        + geometry_table() + allocate_bind_texture_table(
        Texture::Input,
        PixelFormat::Bayer8(pattern),
        width,
        height,
    ) + seq![
        GlCall::SetFirstRed { x: spec_first_red(pattern).0, y: spec_first_red(pattern).1 },
        GlCall::SetSourceSize { width, height },
    ]
}

/// Setting up a pipeline that holds nothing uses no object before it was
/// created, and leaves exactly the objects of a ready pipeline.
pub proof fn lemma_init_is_guarded(pattern: BayerPattern, width: usize, height: usize)
    ensures
        guarded(Objects::spec_none(), init_table(pattern, width, height)),
        live_after(Objects::spec_none(), init_table(pattern, width, height))
            == Objects::resources(),
        init_table(pattern, width, height).len() == 44,
{
    let none = Objects::spec_none();
    let a = compile_and_link_table();
    lemma_compile_and_link_is_guarded(none);
    let live_a = none.with(Object::Program);

    let b = seq![GlCall::UseProgram, GlCall::Create(Object::Framebuffer)];
    let s = step(live_a, Seq::empty(), GlCall::UseProgram);
    let s = step(live_a, s, GlCall::Create(Object::Framebuffer));
    assert(s =~= b);
    let live_b = live_a.with(Object::Framebuffer);
    lemma_guarded_concat(none, a, b);

    let c = allocate_bind_texture_table(Texture::Output, PixelFormat::RGB8, width, height);
    lemma_allocate_bind_texture_is_guarded(
        live_b,
        Texture::Output,
        PixelFormat::RGB8,
        width,
        height,
    );
    let live_c = live_b.with(Object::OutputTexture);
    lemma_guarded_concat(none, a + b, c);

    let d = geometry_table();
    lemma_geometry_is_guarded(live_c);
    let live_d = live_c.with(Object::VertexArray).with(Object::VertexBuffer);
    lemma_guarded_concat(none, a + b + c, d);

    let e = allocate_bind_texture_table(
        Texture::Input,
        PixelFormat::Bayer8(pattern),
        width,
        height,
    );
    lemma_allocate_bind_texture_is_guarded(
        live_d,
        Texture::Input,
        PixelFormat::Bayer8(pattern),
        width,
        height,
    );
    let live_e = live_d.with(Object::InputTexture);
    lemma_guarded_concat(none, a + b + c + d, e);

    let first = GlCall::SetFirstRed {
        x: spec_first_red(pattern).0,
        y: spec_first_red(pattern).1,
    };
    let f = seq![first, GlCall::SetSourceSize { width, height }];
    let s = step(live_e, Seq::empty(), first);
    let s = step(live_e, s, GlCall::SetSourceSize { width, height });
    assert(s =~= f);
    lemma_guarded_concat(none, a + b + c + d + e, f);
    assert(live_e == Objects::resources());
    assert(geometry_table().len() == 9);
}

/// The calls that upload a raw frame to the input texture.
pub open spec fn update_input_texture_table(width: usize, height: usize) -> Seq<GlCall> {
    seq![
        GlCall::UseProgram,
        GlCall::ActiveTexture(0),
        GlCall::BindTexture(Texture::Input),
        GlCall::UploadFrame { texture: Texture::Input, width, height },
    ]
}

/// Uploading a frame uses only objects of a ready pipeline and changes none.
pub proof fn lemma_update_input_texture_is_guarded(width: usize, height: usize)
    ensures
        guarded(Objects::resources(), update_input_texture_table(width, height)),
        live_after(Objects::resources(), update_input_texture_table(width, height))
            == Objects::resources(),
{
    let s = Seq::<GlCall>::empty();
    let s = step(Objects::resources(), s, GlCall::UseProgram);
    let s = step(Objects::resources(), s, GlCall::ActiveTexture(0));
    let s = step(Objects::resources(), s, GlCall::BindTexture(Texture::Input));
    let s = step(
        Objects::resources(),
        s,
        GlCall::UploadFrame { texture: Texture::Input, width, height },
    );
    assert(s =~= update_input_texture_table(width, height));
}

/// The calls that draw the preview to the screen.
pub open spec fn paint_table() -> Seq<GlCall> {
    seq![
        GlCall::UseProgram,
        GlCall::BindFramebuffer(Target::Screen),
        GlCall::BindVertexArray,
        GlCall::BindVertexBuffer,
        GlCall::ActiveTexture(0),
        GlCall::BindTexture(Texture::Input),
        GlCall::SetSource(0),
        GlCall::DrawQuad,
    ]
}

/// Drawing the preview uses only objects of a ready pipeline and changes none.
pub proof fn lemma_paint_is_guarded()
    ensures
        guarded(Objects::resources(), paint_table()),
        live_after(Objects::resources(), paint_table()) == Objects::resources(),
{
    let s = Seq::<GlCall>::empty();
    let s = step(Objects::resources(), s, GlCall::UseProgram);
    let s = step(Objects::resources(), s, GlCall::BindFramebuffer(Target::Screen));
    let s = step(Objects::resources(), s, GlCall::BindVertexArray);
    let s = step(Objects::resources(), s, GlCall::BindVertexBuffer);
    let s = step(Objects::resources(), s, GlCall::ActiveTexture(0));
    let s = step(Objects::resources(), s, GlCall::BindTexture(Texture::Input));
    let s = step(Objects::resources(), s, GlCall::SetSource(0));
    let s = step(Objects::resources(), s, GlCall::DrawQuad);
    assert(s =~= paint_table());
}

/// The calls that render the image to the offscreen target and read it back:
/// the output texture is attached to the framebuffer, the framebuffer is
/// checked for completeness before anything is drawn, and the screen is bound
/// again at the end.
pub open spec fn paint_to_fbo_table(width: usize, height: usize) -> Seq<GlCall> {
    seq![
        GlCall::UseProgram,
        GlCall::BindFramebuffer(Target::Offscreen),
        GlCall::Clear,
        GlCall::BindVertexArray,
        GlCall::BindVertexBuffer,
        GlCall::ActiveTexture(1),
        GlCall::BindTexture(Texture::Input),
        GlCall::TexParameter {
            texture: Texture::Input,
            name: TexParameter::MinFilter,
            value: TexValue::Linear,
        },
        GlCall::TexParameter {
            texture: Texture::Input,
            name: TexParameter::MagFilter,
            value: TexValue::Linear,
        },
        GlCall::TexParameter {
            texture: Texture::Input,
            name: TexParameter::WrapS,
            value: TexValue::ClampToEdge,
        },
        GlCall::TexParameter {
            texture: Texture::Input,
            name: TexParameter::WrapT,
            value: TexValue::ClampToEdge,
        },
        GlCall::AttachOutput,
        GlCall::DrawBuffers,
        GlCall::CheckFramebufferComplete,
        GlCall::SetSource(1),
        GlCall::Viewport { width, height },
        GlCall::DrawQuad,
        GlCall::BindTexture(Texture::Output),
        GlCall::TexParameter {
            texture: Texture::Output,
            name: TexParameter::MinFilter,
            value: TexValue::Linear,
        },
        GlCall::TexParameter {
            texture: Texture::Output,
            name: TexParameter::MagFilter,
            value: TexValue::Linear,
        },
        GlCall::TexParameter {
            texture: Texture::Output,
            name: TexParameter::WrapS,
            value: TexValue::ClampToEdge,
        },
        GlCall::TexParameter {
            texture: Texture::Output,
            name: TexParameter::WrapT,
            value: TexValue::ClampToEdge,
        },
        GlCall::ReadBack { texture: Texture::Output },
        GlCall::BindFramebuffer(Target::Screen),
    ]
}

/// A capture uses only objects of a ready pipeline and changes none.
pub proof fn lemma_paint_to_fbo_is_guarded(width: usize, height: usize)
    ensures
        guarded(Objects::resources(), paint_to_fbo_table(width, height)),
        live_after(Objects::resources(), paint_to_fbo_table(width, height))
            == Objects::resources(),
{
    let s = Seq::<GlCall>::empty();
    let s = step(Objects::resources(), s, GlCall::UseProgram);
    let s = step(Objects::resources(), s, GlCall::BindFramebuffer(Target::Offscreen));
    let s = step(Objects::resources(), s, GlCall::Clear);
    let s = step(Objects::resources(), s, GlCall::BindVertexArray);
    let s = step(Objects::resources(), s, GlCall::BindVertexBuffer);
    let s = step(Objects::resources(), s, GlCall::ActiveTexture(1));
    let s = step(Objects::resources(), s, GlCall::BindTexture(Texture::Input));
    let s = step(
        Objects::resources(),
        s,
        GlCall::TexParameter {
            texture: Texture::Input,
            name: TexParameter::MinFilter,
            value: TexValue::Linear,
        },
    );
    let s = step(
        Objects::resources(),
        s,
        GlCall::TexParameter {
            texture: Texture::Input,
            name: TexParameter::MagFilter,
            value: TexValue::Linear,
        },
    );
    let s = step(
        Objects::resources(),
        s,
        GlCall::TexParameter {
            texture: Texture::Input,
            name: TexParameter::WrapS,
            value: TexValue::ClampToEdge,
        },
    );
    let s = step(
        Objects::resources(),
        s,
        GlCall::TexParameter {
            texture: Texture::Input,
            name: TexParameter::WrapT,
            value: TexValue::ClampToEdge,
        },
    );
    let s = step(Objects::resources(), s, GlCall::AttachOutput);
    let s = step(Objects::resources(), s, GlCall::DrawBuffers);
    let s = step(Objects::resources(), s, GlCall::CheckFramebufferComplete);
    let s = step(Objects::resources(), s, GlCall::SetSource(1));
    let s = step(Objects::resources(), s, GlCall::Viewport { width, height });
    let s = step(Objects::resources(), s, GlCall::DrawQuad);
    let s = step(Objects::resources(), s, GlCall::BindTexture(Texture::Output));
    let s = step(
        Objects::resources(),
        s,
        GlCall::TexParameter {
            texture: Texture::Output,
            name: TexParameter::MinFilter,
            value: TexValue::Linear,
        },
    );
    let s = step(
        Objects::resources(),
        s,
        GlCall::TexParameter {
            texture: Texture::Output,
            name: TexParameter::MagFilter,
            value: TexValue::Linear,
        },
    );
    let s = step(
        Objects::resources(),
        s,
        GlCall::TexParameter {
            texture: Texture::Output,
            name: TexParameter::WrapS,
            value: TexValue::ClampToEdge,
        },
    );
    let s = step(
        Objects::resources(),
        s,
        GlCall::TexParameter {
            texture: Texture::Output,
            name: TexParameter::WrapT,
            value: TexValue::ClampToEdge,
        },
    );
    let s = step(Objects::resources(), s, GlCall::ReadBack { texture: Texture::Output });
    let s = step(Objects::resources(), s, GlCall::BindFramebuffer(Target::Screen));
    assert(s =~= paint_to_fbo_table(width, height));
}

/// The call that deletes an object if it exists.
pub open spec fn delete_if(live: Objects, o: Object) -> Seq<GlCall> {
    if live.spec_has(o) {
        seq![GlCall::Delete(o)]
    } else {
        Seq::empty()
    }
}

/// The calls that delete every object that exists.
pub open spec fn destroy_table(live: Objects) -> Seq<GlCall> {
    delete_if(live, Object::VertexBuffer) + delete_if(live, Object::VertexArray) + delete_if(
        live,
        Object::InputTexture,
    ) + delete_if(live, Object::OutputTexture) + delete_if(live, Object::Program) + delete_if(
        live,
        Object::Framebuffer,
    ) + delete_if(live, Object::VertexShader) + delete_if(live, Object::FragmentShader)
}

/// Number of times that a sequence deletes an object.
pub open spec fn deletions(calls: Seq<GlCall>, o: Object) -> nat
    decreases calls.len(),
{
    if calls.len() == 0 {
        0
    } else {
        deletions(calls.drop_last(), o) + if calls.last() == GlCall::Delete(o) {
            1nat
        } else {
            0nat
        }
    }
}

proof fn lemma_deletions_concat(first: Seq<GlCall>, then: Seq<GlCall>, o: Object)
    ensures
        deletions(first + then, o) == deletions(first, o) + deletions(then, o),
    decreases then.len(),
{
    if then.len() == 0 {
        assert(first + then =~= first);
    } else {
        lemma_deletions_concat(first, then.drop_last(), o);
        assert((first + then).drop_last() =~= first + then.drop_last());
    }
}

proof fn lemma_delete_if_guarded(start: Objects, done: Seq<GlCall>, live: Objects, x: Object)
    requires
        guarded(start, done),
        live_after(start, done).spec_has(x) == live.spec_has(x),
    ensures
        guarded(start, done + delete_if(live, x)),
        live_after(start, done + delete_if(live, x)) == live_after(start, done).without(x),
{
    if live.spec_has(x) {
        assert(done + delete_if(live, x) =~= done.push(GlCall::Delete(x)));
        lemma_guarded_push(start, done, GlCall::Delete(x));
    } else {
        assert(done + delete_if(live, x) =~= done);
    }
}

proof fn lemma_delete_if_count(live: Objects, x: Object, o: Object)
    ensures
        deletions(delete_if(live, x), o) == if live.spec_has(x) && x == o {
            1nat
        } else {
            0nat
        },
{
    reveal_with_fuel(deletions, 2);
    if live.spec_has(x) {
        assert(delete_if(live, x).drop_last() =~= Seq::<GlCall>::empty());
    }
}

/// Teardown uses only objects that exist, and leaves none. On a pipeline
/// that holds nothing it does nothing.
pub proof fn lemma_destroy_is_guarded(live: Objects)
    ensures
        guarded(live, destroy_table(live)),
        live_after(live, destroy_table(live)) == Objects::spec_none(),
        destroy_table(Objects::spec_none()) == Seq::<GlCall>::empty(),
{
    let s0 = Seq::<GlCall>::empty();
    lemma_delete_if_guarded(live, s0, live, Object::VertexBuffer);
    let s1 = s0 + delete_if(live, Object::VertexBuffer);
    let l1 = live.without(Object::VertexBuffer);
    assert(live_after(live, s1) == l1);
    lemma_delete_if_guarded(live, s1, live, Object::VertexArray);
    let s2 = s1 + delete_if(live, Object::VertexArray);
    let l2 = l1.without(Object::VertexArray);
    assert(live_after(live, s2) == l2);
    lemma_delete_if_guarded(live, s2, live, Object::InputTexture);
    let s3 = s2 + delete_if(live, Object::InputTexture);
    let l3 = l2.without(Object::InputTexture);
    assert(live_after(live, s3) == l3);
    lemma_delete_if_guarded(live, s3, live, Object::OutputTexture);
    let s4 = s3 + delete_if(live, Object::OutputTexture);
    let l4 = l3.without(Object::OutputTexture);
    assert(live_after(live, s4) == l4);
    lemma_delete_if_guarded(live, s4, live, Object::Program);
    let s5 = s4 + delete_if(live, Object::Program);
    let l5 = l4.without(Object::Program);
    assert(live_after(live, s5) == l5);
    lemma_delete_if_guarded(live, s5, live, Object::Framebuffer);
    let s6 = s5 + delete_if(live, Object::Framebuffer);
    let l6 = l5.without(Object::Framebuffer);
    assert(live_after(live, s6) == l6);
    lemma_delete_if_guarded(live, s6, live, Object::VertexShader);
    let s7 = s6 + delete_if(live, Object::VertexShader);
    let l7 = l6.without(Object::VertexShader);
    assert(live_after(live, s7) == l7);
    lemma_delete_if_guarded(live, s7, live, Object::FragmentShader);
    let s8 = s7 + delete_if(live, Object::FragmentShader);
    assert(live_after(live, s8) == Objects::spec_none());
    assert(s0 + delete_if(live, Object::VertexBuffer) =~= delete_if(live, Object::VertexBuffer));
    assert(s8 == destroy_table(live));
    assert(destroy_table(Objects::spec_none()) =~= Seq::<GlCall>::empty());
}

/// Teardown deletes every object that exists exactly once, and no other.
pub proof fn lemma_destroy_deletes_each_once(live: Objects, o: Object)
    ensures
        deletions(destroy_table(live), o) == if live.spec_has(o) {
            1nat
        } else {
            0nat
        },
{
    let d1 = delete_if(live, Object::VertexBuffer);
    let d2 = delete_if(live, Object::VertexArray);
    let d3 = delete_if(live, Object::InputTexture);
    let d4 = delete_if(live, Object::OutputTexture);
    let d5 = delete_if(live, Object::Program);
    let d6 = delete_if(live, Object::Framebuffer);
    let d7 = delete_if(live, Object::VertexShader);
    let d8 = delete_if(live, Object::FragmentShader);
    lemma_delete_if_count(live, Object::VertexBuffer, o);
    lemma_delete_if_count(live, Object::VertexArray, o);
    lemma_delete_if_count(live, Object::InputTexture, o);
    lemma_delete_if_count(live, Object::OutputTexture, o);
    lemma_delete_if_count(live, Object::Program, o);
    lemma_delete_if_count(live, Object::Framebuffer, o);
    lemma_delete_if_count(live, Object::VertexShader, o);
    lemma_delete_if_count(live, Object::FragmentShader, o);
    lemma_deletions_concat(d1, d2, o);
    lemma_deletions_concat(d1 + d2, d3, o);
    lemma_deletions_concat(d1 + d2 + d3, d4, o);
    lemma_deletions_concat(d1 + d2 + d3 + d4, d5, o);
    lemma_deletions_concat(d1 + d2 + d3 + d4 + d5, d6, o);
    lemma_deletions_concat(d1 + d2 + d3 + d4 + d5 + d6, d7, o);
    lemma_deletions_concat(d1 + d2 + d3 + d4 + d5 + d6 + d7, d8, o);
}

/// Container for boilerplate sequences of calls.
pub struct GlowHelper;

impl GlowHelper {
    /// Compile and link a program with the vertex and fragment shaders.
    pub fn compile_and_link() -> (script: Vec<GlCall>)
        ensures
            script@ == compile_and_link_table(),
    {
        let mut script: Vec<GlCall> = Vec::new();
        script.push(GlCall::Create(Object::VertexShader));
        script.push(GlCall::ShaderSource(ShaderStage::Vertex));
        script.push(GlCall::CompileShader(ShaderStage::Vertex));
        script.push(GlCall::CheckCompiled(ShaderStage::Vertex));
        script.push(GlCall::Create(Object::FragmentShader));
        script.push(GlCall::ShaderSource(ShaderStage::Fragment));
        script.push(GlCall::CompileShader(ShaderStage::Fragment));
        script.push(GlCall::CheckCompiled(ShaderStage::Fragment));
        script.push(GlCall::Create(Object::Program));
        script.push(GlCall::AttachShader(ShaderStage::Vertex));
        script.push(GlCall::AttachShader(ShaderStage::Fragment));
        script.push(GlCall::LinkProgram);
        script.push(GlCall::CheckLinked);
        script.push(GlCall::DetachShader(ShaderStage::Vertex));
        script.push(GlCall::DetachShader(ShaderStage::Fragment));
        script.push(GlCall::Delete(Object::VertexShader));
        script.push(GlCall::Delete(Object::FragmentShader));
        script
    }
    /// Allocate and bind a texture.
    pub fn allocate_bind_texture(
        texture: Texture,
        fmt: PixelFormat,
        width: usize,
        height: usize,
    ) -> (script: Vec<GlCall>)
        ensures
            script@ == allocate_bind_texture_table(texture, fmt, width, height),
    {
        let mut script: Vec<GlCall> = Vec::new();
        script.push(GlCall::Create(texture.object()));
        script.push(GlCall::BindTexture(texture));
        script.push(GlCall::TexImage { texture, format: texture_format(fmt), width, height });
        script.push(GlCall::TexParameter {
            texture,
            name: TexParameter::WrapS,
            value: TexValue::ClampToEdge,
        });
        script.push(GlCall::TexParameter {
            texture,
            name: TexParameter::WrapT,
            value: TexValue::ClampToEdge,
        });
        script.push(GlCall::TexParameter {
            texture,
            name: TexParameter::MinFilter,
            value: TexValue::Nearest,
        });
        script.push(GlCall::TexParameter {
            texture,
            name: TexParameter::MagFilter,
            value: TexValue::Nearest,
        });
        script
    }
}

fn geometry_calls() -> (script: Vec<GlCall>)
    ensures
        script@ == geometry_table(),
{
    let mut script: Vec<GlCall> = Vec::new();
    script.push(GlCall::Create(Object::VertexArray));
    script.push(GlCall::BindVertexArray);
    script.push(GlCall::Create(Object::VertexBuffer));
    script.push(GlCall::BindVertexBuffer);
    script.push(GlCall::UploadQuad);
    script.push(GlCall::VertexAttribute { attribute: Attribute::Position, offset: 0 });
    script.push(GlCall::VertexAttribute { attribute: Attribute::TexCoords, offset: 8 });
    script.push(GlCall::EnableAttribute(Attribute::Position));
    script.push(GlCall::EnableAttribute(Attribute::TexCoords));
    script
}

fn upload_calls(width: usize, height: usize) -> (script: Vec<GlCall>)
    ensures
        script@ == update_input_texture_table(width, height),
{
    let mut script: Vec<GlCall> = Vec::new();
    script.push(GlCall::UseProgram);
    script.push(GlCall::ActiveTexture(0));
    script.push(GlCall::BindTexture(Texture::Input));
    script.push(GlCall::UploadFrame { texture: Texture::Input, width, height });
    script
}

fn paint_calls() -> (script: Vec<GlCall>)
    ensures
        script@ == paint_table(),
{
    let mut script: Vec<GlCall> = Vec::new();
    script.push(GlCall::UseProgram);
    script.push(GlCall::BindFramebuffer(Target::Screen));
    script.push(GlCall::BindVertexArray);
    script.push(GlCall::BindVertexBuffer);
    script.push(GlCall::ActiveTexture(0));
    script.push(GlCall::BindTexture(Texture::Input));
    script.push(GlCall::SetSource(0));
    script.push(GlCall::DrawQuad);
    script
}

fn capture_calls(width: usize, height: usize) -> (script: Vec<GlCall>)
    ensures
        script@ == paint_to_fbo_table(width, height),
{
    let mut script: Vec<GlCall> = Vec::new();
    script.push(GlCall::UseProgram);
    script.push(GlCall::BindFramebuffer(Target::Offscreen));
    script.push(GlCall::Clear);
    script.push(GlCall::BindVertexArray);
    script.push(GlCall::BindVertexBuffer);
    script.push(GlCall::ActiveTexture(1));
    script.push(GlCall::BindTexture(Texture::Input));
    script.push(GlCall::TexParameter {
        texture: Texture::Input,
        name: TexParameter::MinFilter,
        value: TexValue::Linear,
    });
    script.push(GlCall::TexParameter {
        texture: Texture::Input,
        name: TexParameter::MagFilter,
        value: TexValue::Linear,
    });
    script.push(GlCall::TexParameter {
        texture: Texture::Input,
        name: TexParameter::WrapS,
        value: TexValue::ClampToEdge,
    });
    script.push(GlCall::TexParameter {
        texture: Texture::Input,
        name: TexParameter::WrapT,
        value: TexValue::ClampToEdge,
    });
    script.push(GlCall::AttachOutput);
    script.push(GlCall::DrawBuffers);
    script.push(GlCall::CheckFramebufferComplete);
    script.push(GlCall::SetSource(1));
    script.push(GlCall::Viewport { width, height });
    script.push(GlCall::DrawQuad);
    script.push(GlCall::BindTexture(Texture::Output));
    script.push(GlCall::TexParameter {
        texture: Texture::Output,
        name: TexParameter::MinFilter,
        value: TexValue::Linear,
    });
    script.push(GlCall::TexParameter {
        texture: Texture::Output,
        name: TexParameter::MagFilter,
        value: TexValue::Linear,
    });
    script.push(GlCall::TexParameter {
        texture: Texture::Output,
        name: TexParameter::WrapS,
        value: TexValue::ClampToEdge,
    });
    script.push(GlCall::TexParameter {
        texture: Texture::Output,
        name: TexParameter::WrapT,
        value: TexValue::ClampToEdge,
    });
    script.push(GlCall::ReadBack { texture: Texture::Output });
    script.push(GlCall::BindFramebuffer(Target::Screen));
    script
}

fn push_delete_if(script: &mut Vec<GlCall>, live: Objects, o: Object)
    ensures
        final(script)@ == old(script)@ + delete_if(live, o),
{
    if live.has(o) {
        script.push(GlCall::Delete(o));
        assert(script@ =~= old(script)@ + delete_if(live, o));
    } else {
        assert(script@ =~= old(script)@ + delete_if(live, o));
    }
}

/// The pipeline as its contracts see it.
pub struct QuadView {
    /// The objects that exist on the GPU.
    pub live: Objects,
    /// The filter arrangement of the frames.
    pub pattern: BayerPattern,
    /// Dimensions of the frames.
    pub width: usize,
    pub height: usize,
    /// The pipeline was set up to its end.
    pub initialized: bool,
}

impl QuadView {
    /// What `init` hands out: the whole setup for a pipeline that holds
    /// nothing, and nothing for any other.
    pub open spec fn init_script(self) -> Seq<GlCall> {
        if self.live == Objects::spec_none() {
            init_table(self.pattern, self.width, self.height)
        } else {
            Seq::empty()
        }
    }

    /// The pipeline after the first `done` calls of the setup were made.
    pub open spec fn init_finished(self, done: usize) -> QuadView {
        let script = self.init_script();
        if done >= script.len() {
            QuadView {
                live: live_after(self.live, script),
                initialized: self.initialized || script.len() > 0,
                ..self
            }
        } else {
            QuadView { live: live_after(self.live, script.take(done as int)), ..self }
        }
    }
}

/// A pipeline is ready exactly when its setup was carried out to the end:
/// then it holds the objects of a ready pipeline, and every sequence it hands
/// out for a frame is guarded. A setup that was cut short leaves a pipeline
/// that is not ready and holds the objects that were created so far.
pub proof fn lemma_init_makes_ready(v: QuadView, done: usize)
    requires
        v.live == Objects::spec_none(),
        !v.initialized,
    ensures
        v.init_finished(done).initialized <==> done >= 44,
        v.init_finished(done).initialized ==> v.init_finished(done).live == Objects::resources(),
        guarded(v.live, v.init_script()),
        v.init_script().len() == 44,
{
    lemma_init_is_guarded(v.pattern, v.width, v.height);
}

/// Recovers an RGB image from raw sensor data on the GPU.
///
/// Each pixel of the sensor senses one color only; the shader recovers the
/// other two from the neighbours. The frame is uploaded as a texture, the
/// shader draws it to the screen for the preview, and for a capture to an
/// offscreen target that is read back to the host.
pub struct DemosaicQuad {
    live: Objects,
    pattern: BayerPattern,
    width: usize,
    height: usize,
    initialized: bool,
}

impl View for DemosaicQuad {
    type V = QuadView;

    closed spec fn view(&self) -> QuadView {
        QuadView {
            live: self.live,
            pattern: self.pattern,
            width: self.width,
            height: self.height,
            initialized: self.initialized && self.live == Objects::resources(),
        }
    }
}

impl DemosaicQuad {
    /// A pipeline for frames of the given size in the filter arrangement of
    /// the sensor, which holds nothing yet.
    pub fn new(width: usize, height: usize) -> (quad: Self)
        ensures
            quad@ == (QuadView {
                live: Objects::spec_none(),
                pattern: SENSOR_PATTERN,
                width,
                height,
                initialized: false,
            }),
    {
        Self { live: Objects::none(), pattern: SENSOR_PATTERN, width, height, initialized: false }
    }

    /// The same pipeline for frames in another filter arrangement. The
    /// arrangement goes into the setup, so it is chosen before that.
    pub fn with_pattern(self, pattern: BayerPattern) -> (quad: Self)
        ensures
            quad@ == (QuadView { pattern, ..self@ }),
    {
        Self { pattern, ..self }
    }

    pub fn is_initialized(&self) -> (yes: bool)
        ensures
            yes == self@.initialized,
    {
        self.initialized && self.live == Objects::resources()
    }

    /// The setup of the pipeline. A pipeline that holds objects already gets
    /// nothing to do: it is ready, or it has to be torn down first.
    pub fn init(&self) -> (script: Vec<GlCall>)
        ensures
            script@ == self@.init_script(),
    {
        if self.live == Objects::none() {
            let mut script = GlowHelper::compile_and_link();
            script.push(GlCall::UseProgram);
            script.push(GlCall::Create(Object::Framebuffer));
            let mut part = GlowHelper::allocate_bind_texture(
                Texture::Output,
                PixelFormat::RGB8,
                self.width,
                self.height,
            );
            script.append(&mut part);
            let mut part = geometry_calls();
            script.append(&mut part);
            let mut part = GlowHelper::allocate_bind_texture(
                Texture::Input,
                PixelFormat::Bayer8(self.pattern),
                self.width,
                self.height,
            );
            script.append(&mut part);
            let (x, y) = first_red(self.pattern);
            script.push(GlCall::SetFirstRed { x, y });
            script.push(GlCall::SetSourceSize { width: self.width, height: self.height });
            assert(script@ =~= init_table(self.pattern, self.width, self.height));
            script
        } else {
            Vec::new()
        }
    }

    /// Records how far the setup came: `done` is the number of calls of
    /// [`DemosaicQuad::init`] that were made without failure. The objects
    /// they created exist from now on, and after the last call the pipeline
    /// is ready.
    pub fn init_finished(&mut self, done: usize)
        ensures
            final(self)@ == old(self)@.init_finished(done),
    {
        let script = self.init();
        let mut live = self.live;
        let mut i: usize = 0;
        while i < script.len() && i < done
            invariant
                i <= script.len(),
                i <= done,
                live == live_after(self.live, script@.take(i as int)),
            decreases script.len() - i,
        {
            proof {
                lemma_guarded_push(self.live, script@.take(i as int), script@[i as int]);
                assert(script@.take(i + 1) =~= script@.take(i as int).push(script@[i as int]));
            }
            live = script[i].effect(live);
            i = i + 1;
        }
        proof {
            assert(script@.take(script@.len() as int) =~= script@);
            if self.live == Objects::spec_none() {
                lemma_init_is_guarded(self.pattern, self.width, self.height);
            }
        }
        self.initialized = done >= script.len() && (script.len() > 0 || self.initialized);
        self.live = live;
    }

    /// Upload data to the input texture. A pipeline that is not ready
    /// uploads nothing.
    pub fn update_input_texture(&self) -> (script: Vec<GlCall>)
        ensures
            script@ == if self@.initialized {
                update_input_texture_table(self@.width, self@.height)
            } else {
                Seq::empty()
            },
    {
        if self.is_initialized() {
            upload_calls(self.width, self.height)
        } else {
            Vec::new()
        }
    }

    /// Render to the default framebuffer. A pipeline that is not ready
    /// draws nothing.
    pub fn paint(&self) -> (script: Vec<GlCall>)
        ensures
            script@ == if self@.initialized {
                paint_table()
            } else {
                Seq::empty()
            },
    {
        if self.is_initialized() {
            paint_calls()
        } else {
            Vec::new()
        }
    }

    /// Render to the offscreen target and read the image back. A pipeline
    /// that is not ready captures nothing.
    pub fn paint_to_fbo(&self) -> (script: Vec<GlCall>)
        ensures
            script@ == if self@.initialized {
                paint_to_fbo_table(self@.width, self@.height)
            } else {
                Seq::empty()
            },
    {
        if self.is_initialized() {
            capture_calls(self.width, self.height)
        } else {
            Vec::new()
        }
    }

    /// What is drawn for one displayed frame: the upload of the raw frame if
    /// a new one came in, always the preview, and the capture if one is
    /// asked for.
    pub fn frame(&self, new_data: bool, capture: bool) -> (script: Vec<GlCall>)
        ensures
            script@ == frame_table(self@, new_data, capture),
    {
        let mut script = if new_data {
            self.update_input_texture()
        } else {
            Vec::new()
        };
        let mut part = self.paint();
        script.append(&mut part);
        if capture {
            let mut part = self.paint_to_fbo();
            script.append(&mut part);
        }
        proof {
            let upload = if new_data && self@.initialized {
                update_input_texture_table(self@.width, self@.height)
            } else {
                Seq::empty()
            };
            assert(upload + Seq::<GlCall>::empty() =~= upload);
            assert(script@ =~= frame_table(self@, new_data, capture));
        }
        script
    }

    /// The teardown: one deletion for each object that exists. Afterwards
    /// the pipeline holds nothing, so that a second teardown does nothing.
    pub fn destroy(&mut self) -> (script: Vec<GlCall>)
        ensures
            script@ == destroy_table(old(self)@.live),
            final(self)@ == (QuadView {
                live: Objects::spec_none(),
                initialized: false,
                ..old(self)@
            }),
    {
        let live = self.live;
        let mut script: Vec<GlCall> = Vec::new();
        push_delete_if(&mut script, live, Object::VertexBuffer);
        assert(script@ =~= delete_if(live, Object::VertexBuffer));
        push_delete_if(&mut script, live, Object::VertexArray);
        push_delete_if(&mut script, live, Object::InputTexture);
        push_delete_if(&mut script, live, Object::OutputTexture);
        push_delete_if(&mut script, live, Object::Program);
        push_delete_if(&mut script, live, Object::Framebuffer);
        push_delete_if(&mut script, live, Object::VertexShader);
        push_delete_if(&mut script, live, Object::FragmentShader);
        self.live = Objects::none();
        self.initialized = false;
        script
    }
}

/// The calls for one displayed frame.
pub open spec fn frame_table(v: QuadView, new_data: bool, capture: bool) -> Seq<GlCall> {
    let upload = if new_data && v.initialized {
        update_input_texture_table(v.width, v.height)
    } else {
        Seq::empty()
    };
    let preview = if v.initialized {
        paint_table()
    } else {
        Seq::empty()
    };
    let readback = if capture && v.initialized {
        paint_to_fbo_table(v.width, v.height)
    } else {
        Seq::empty()
    };
    upload + preview + readback
}

/// Whatever a ready pipeline hands out for a displayed frame uses only the
/// objects that the pipeline holds, and leaves them as they are.
pub proof fn lemma_frame_is_guarded(v: QuadView, new_data: bool, capture: bool)
    ensures
        guarded(Objects::resources(), frame_table(v, new_data, capture)),
        live_after(Objects::resources(), frame_table(v, new_data, capture))
            == Objects::resources(),
{
    let ready = Objects::resources();
    let upload = if new_data && v.initialized {
        update_input_texture_table(v.width, v.height)
    } else {
        Seq::empty()
    };
    let preview = if v.initialized {
        paint_table()
    } else {
        Seq::empty()
    };
    let readback = if capture && v.initialized {
        paint_to_fbo_table(v.width, v.height)
    } else {
        Seq::empty()
    };
    lemma_update_input_texture_is_guarded(v.width, v.height);
    lemma_paint_is_guarded();
    lemma_paint_to_fbo_is_guarded(v.width, v.height);
    lemma_guarded_concat(ready, upload, preview);
    lemma_guarded_concat(ready, upload + preview, readback);
}

/// The display never stalls: a ready pipeline draws the preview in every
/// frame, whether or not new data came in. It renders to the offscreen target
/// and reads back only when a capture is asked for.
pub proof fn lemma_frame_always_draws(v: QuadView, new_data: bool, capture: bool)
    requires
        v.initialized,
    ensures
        frame_table(v, new_data, capture).len() >= paint_table().len(),
        frame_table(v, false, false) == paint_table(),
        !capture ==> !frame_table(v, new_data, capture).contains(
            GlCall::ReadBack { texture: Texture::Output },
        ),
        !capture ==> !frame_table(v, new_data, capture).contains(
            GlCall::BindFramebuffer(Target::Offscreen),
        ),
        capture ==> frame_table(v, new_data, capture).contains(
            GlCall::ReadBack { texture: Texture::Output },
        ),
{
    assert(frame_table(v, false, false) =~= paint_table());
    let upload = update_input_texture_table(v.width, v.height);
    let readback = GlCall::ReadBack { texture: Texture::Output };
    let f = frame_table(v, new_data, capture);
    if capture {
        let c = paint_to_fbo_table(v.width, v.height);
        assert(c[22] == readback);
        let at = f.len() - c.len() + 22;
        assert(f[at] == readback);
    } else {
        let offscreen = GlCall::BindFramebuffer(Target::Offscreen);
        assert forall|i: int| 0 <= i < f.len() implies f[i] != readback && f[i] != offscreen by {
            if new_data {
                if i < upload.len() {
                    assert(f[i] == upload[i]);
                } else {
                    assert(f[i] == paint_table()[i - upload.len()]);
                }
            } else {
                assert(f[i] == paint_table()[i]);
            }
        }
    }
}

} // verus!
