use glass::demosaic::{
    first_red, texture_format, Attribute, DemosaicQuad, GlCall, GlowHelper, Object, Objects,
    ShaderStage, Target, TexParameter, TexValue, Texture, TextureFormat, SENSOR_PATTERN,
};
use glass::pixel::{BayerPattern, PixelFormat};

/// Follows a sequence of calls and panics at a call that uses an object that
/// does not exist or creates one that exists. Returns the objects that exist
/// at the end.
fn follow(start: Objects, script: &[GlCall]) -> Objects {
    let mut live = start;
    for call in script {
        match call {
            GlCall::Create(o) => assert!(!live.has(*o), "{:?} is created twice", o),
            GlCall::Delete(o) => assert!(live.has(*o), "{:?} is deleted but does not exist", o),
            GlCall::ShaderSource(s) | GlCall::CompileShader(s) | GlCall::CheckCompiled(s) => {
                assert!(live.has(s.object()))
            }
            GlCall::AttachShader(s) | GlCall::DetachShader(s) => {
                assert!(live.has(s.object()) && live.has(Object::Program))
            }
            GlCall::BindTexture(t)
            | GlCall::TexImage { texture: t, .. }
            | GlCall::TexParameter { texture: t, .. }
            | GlCall::UploadFrame { texture: t, .. }
            | GlCall::ReadBack { texture: t } => assert!(live.has(t.object())),
            GlCall::LinkProgram
            | GlCall::CheckLinked
            | GlCall::UseProgram
            | GlCall::SetFirstRed { .. }
            | GlCall::SetSourceSize { .. }
            | GlCall::SetSource(_) => assert!(live.has(Object::Program)),
            GlCall::BindVertexArray => assert!(live.has(Object::VertexArray)),
            GlCall::BindVertexBuffer | GlCall::UploadQuad => {
                assert!(live.has(Object::VertexBuffer))
            }
            GlCall::VertexAttribute { .. } | GlCall::DrawQuad => assert!(
                live.has(Object::Program)
                    && live.has(Object::VertexArray)
                    && live.has(Object::VertexBuffer)
            ),
            GlCall::EnableAttribute(_) => {
                assert!(live.has(Object::Program) && live.has(Object::VertexArray))
            }
            GlCall::BindFramebuffer(Target::Offscreen)
            | GlCall::DrawBuffers
            | GlCall::CheckFramebufferComplete => assert!(live.has(Object::Framebuffer)),
            GlCall::AttachOutput => {
                assert!(live.has(Object::Framebuffer) && live.has(Object::OutputTexture))
            }
            GlCall::BindFramebuffer(Target::Screen)
            | GlCall::ActiveTexture(_)
            | GlCall::Clear
            | GlCall::Viewport { .. } => {}
        }
        live = call.effect(live);
    }
    live
}

fn ready(width: usize, height: usize) -> DemosaicQuad {
    let mut quad = DemosaicQuad::new(width, height);
    let script = quad.init();
    quad.init_finished(script.len());
    assert!(quad.is_initialized());
    quad
}

#[test]
fn sensor_pattern_has_its_first_red_at_one_one() {
    assert_eq!(SENSOR_PATTERN, BayerPattern::BGGR);
    assert_eq!(first_red(BayerPattern::BGGR), (1, 1));
    assert_eq!(first_red(BayerPattern::RGGB), (0, 0));
}

#[test]
fn pixel_formats_map_to_texture_formats() {
    assert_eq!(texture_format(PixelFormat::RGB8), TextureFormat::Rgb);
    assert_eq!(texture_format(PixelFormat::RGBA8), TextureFormat::Rgba);
    assert_eq!(texture_format(PixelFormat::Bayer8(BayerPattern::BGGR)), TextureFormat::Red);
    assert_eq!(texture_format(PixelFormat::Bayer8(BayerPattern::RGGB)), TextureFormat::Red);
}

#[test]
fn object_sets_put_and_take() {
    let none = Objects::none();
    for o in [
        Object::VertexShader,
        Object::FragmentShader,
        Object::Program,
        Object::VertexArray,
        Object::VertexBuffer,
        Object::InputTexture,
        Object::OutputTexture,
        Object::Framebuffer,
    ] {
        assert!(!none.has(o));
        let with = none.put(o, true);
        assert!(with.has(o));
        assert_eq!(with.put(o, false), none);
        assert_ne!(with, none);
    }
    let ready = Objects::resources();
    assert!(!ready.has(Object::VertexShader));
    assert!(!ready.has(Object::FragmentShader));
    assert!(ready.has(Object::Program));
    assert!(ready.has(Object::VertexArray));
    assert!(ready.has(Object::VertexBuffer));
    assert!(ready.has(Object::InputTexture));
    assert!(ready.has(Object::OutputTexture));
    assert!(ready.has(Object::Framebuffer));
    assert_eq!(ShaderStage::Vertex.object(), Object::VertexShader);
    assert_eq!(ShaderStage::Fragment.object(), Object::FragmentShader);
    assert_eq!(Texture::Input.object(), Object::InputTexture);
    assert_eq!(Texture::Output.object(), Object::OutputTexture);
}

#[test]
fn compile_and_link_checks_each_step_and_drops_the_shaders() {
    let script = GlowHelper::compile_and_link();
    assert_eq!(
        script,
        vec![
            GlCall::Create(Object::VertexShader),
            GlCall::ShaderSource(ShaderStage::Vertex),
            GlCall::CompileShader(ShaderStage::Vertex),
            GlCall::CheckCompiled(ShaderStage::Vertex),
            GlCall::Create(Object::FragmentShader),
            GlCall::ShaderSource(ShaderStage::Fragment),
            GlCall::CompileShader(ShaderStage::Fragment),
            GlCall::CheckCompiled(ShaderStage::Fragment),
            GlCall::Create(Object::Program),
            GlCall::AttachShader(ShaderStage::Vertex),
            GlCall::AttachShader(ShaderStage::Fragment),
            GlCall::LinkProgram,
            GlCall::CheckLinked,
            GlCall::DetachShader(ShaderStage::Vertex),
            GlCall::DetachShader(ShaderStage::Fragment),
            GlCall::Delete(Object::VertexShader),
            GlCall::Delete(Object::FragmentShader),
        ]
    );
    assert_eq!(follow(Objects::none(), &script), Objects::none().put(Object::Program, true));
}

#[test]
fn allocate_bind_texture_sets_format_size_and_sampling() {
    let script = GlowHelper::allocate_bind_texture(Texture::Output, PixelFormat::RGB8, 640, 480);
    let t = Texture::Output;
    assert_eq!(
        script,
        vec![
            GlCall::Create(Object::OutputTexture),
            GlCall::BindTexture(t),
            GlCall::TexImage { texture: t, format: TextureFormat::Rgb, width: 640, height: 480 },
            GlCall::TexParameter {
                texture: t,
                name: TexParameter::WrapS,
                value: TexValue::ClampToEdge
            },
            GlCall::TexParameter {
                texture: t,
                name: TexParameter::WrapT,
                value: TexValue::ClampToEdge
            },
            GlCall::TexParameter {
                texture: t,
                name: TexParameter::MinFilter,
                value: TexValue::Nearest
            },
            GlCall::TexParameter {
                texture: t,
                name: TexParameter::MagFilter,
                value: TexValue::Nearest
            },
        ]
    );
    let input = GlowHelper::allocate_bind_texture(
        Texture::Input,
        PixelFormat::Bayer8(BayerPattern::BGGR),
        2320,
        1740,
    );
    assert_eq!(input[0], GlCall::Create(Object::InputTexture));
    assert_eq!(
        input[2],
        GlCall::TexImage {
            texture: Texture::Input,
            format: TextureFormat::Red,
            width: 2320,
            height: 1740
        }
    );
}

#[test]
fn new_pipeline_holds_nothing_and_does_nothing() {
    let mut quad = DemosaicQuad::new(2320, 1740);
    assert!(!quad.is_initialized());
    assert_eq!(quad.update_input_texture(), Vec::new());
    assert_eq!(quad.paint(), Vec::new());
    assert_eq!(quad.paint_to_fbo(), Vec::new());
    assert_eq!(quad.frame(true, true), Vec::new());
    assert_eq!(quad.destroy(), Vec::new());
}

#[test]
fn init_builds_every_object_and_sets_the_shader_parameters() {
    let quad = DemosaicQuad::new(2320, 1740);
    let script = quad.init();
    assert_eq!(script.len(), 17 + 2 + 7 + 9 + 7 + 2);
    assert_eq!(&script[..17], &GlowHelper::compile_and_link()[..]);
    assert_eq!(script[17], GlCall::UseProgram);
    assert_eq!(script[18], GlCall::Create(Object::Framebuffer));
    assert_eq!(
        &script[19..26],
        &GlowHelper::allocate_bind_texture(Texture::Output, PixelFormat::RGB8, 2320, 1740)[..]
    );
    assert_eq!(
        &script[26..35],
        &[
            GlCall::Create(Object::VertexArray),
            GlCall::BindVertexArray,
            GlCall::Create(Object::VertexBuffer),
            GlCall::BindVertexBuffer,
            GlCall::UploadQuad,
            GlCall::VertexAttribute { attribute: Attribute::Position, offset: 0 },
            GlCall::VertexAttribute { attribute: Attribute::TexCoords, offset: 8 },
            GlCall::EnableAttribute(Attribute::Position),
            GlCall::EnableAttribute(Attribute::TexCoords),
        ]
    );
    assert_eq!(
        &script[35..42],
        &GlowHelper::allocate_bind_texture(
            Texture::Input,
            PixelFormat::Bayer8(BayerPattern::BGGR),
            2320,
            1740
        )[..]
    );
    assert_eq!(script[42], GlCall::SetFirstRed { x: 1, y: 1 });
    assert_eq!(script[43], GlCall::SetSourceSize { width: 2320, height: 1740 });
    assert_eq!(follow(Objects::none(), &script), Objects::resources());
}

#[test]
fn first_red_follows_the_configured_pattern() {
    let rggb = DemosaicQuad::new(8, 8).with_pattern(BayerPattern::RGGB).init();
    let bggr = DemosaicQuad::new(8, 8).with_pattern(BayerPattern::BGGR).init();
    assert_eq!(rggb.len(), 44);
    assert_eq!(rggb[42], GlCall::SetFirstRed { x: 0, y: 0 });
    assert_eq!(bggr[42], GlCall::SetFirstRed { x: 1, y: 1 });
    // Nothing else depends on the pattern.
    assert_eq!(&rggb[..42], &bggr[..42]);
    assert_eq!(rggb[43], bggr[43]);
    assert_eq!(bggr, DemosaicQuad::new(8, 8).init());
}

#[test]
fn pipeline_is_ready_after_the_whole_setup_only() {
    let mut quad = DemosaicQuad::new(16, 8);
    let script = quad.init();
    quad.init_finished(script.len() - 1);
    assert!(!quad.is_initialized());
    assert_eq!(quad.paint(), Vec::new());
    // What was created before the failure is deleted, once.
    let teardown = quad.destroy();
    assert_eq!(
        teardown,
        vec![
            GlCall::Delete(Object::VertexBuffer),
            GlCall::Delete(Object::VertexArray),
            GlCall::Delete(Object::InputTexture),
            GlCall::Delete(Object::OutputTexture),
            GlCall::Delete(Object::Program),
            GlCall::Delete(Object::Framebuffer),
        ]
    );
    assert_eq!(quad.destroy(), Vec::new());
    // From there the setup starts over.
    assert_eq!(quad.init(), script);
    quad.init_finished(script.len());
    assert!(quad.is_initialized());
}

#[test]
fn setup_that_fails_in_the_shader_leaves_the_shader_to_delete() {
    let mut quad = DemosaicQuad::new(16, 8);
    // The vertex shader was created and compiled; its check failed.
    quad.init_finished(3);
    assert!(!quad.is_initialized());
    // A pipeline that holds objects is not set up again before teardown.
    assert_eq!(quad.init(), Vec::new());
    assert_eq!(quad.destroy(), vec![GlCall::Delete(Object::VertexShader)]);
    assert_eq!(quad.init().len(), 44);
}

#[test]
fn setup_that_fails_at_once_leaves_nothing() {
    let mut quad = DemosaicQuad::new(16, 8);
    quad.init_finished(0);
    assert!(!quad.is_initialized());
    assert_eq!(quad.destroy(), Vec::new());
    assert_eq!(quad.init().len(), 44);
}

#[test]
fn ready_pipeline_is_not_set_up_again() {
    let mut quad = ready(16, 8);
    assert_eq!(quad.init(), Vec::new());
    quad.init_finished(0);
    assert!(quad.is_initialized());
    quad.init_finished(100);
    assert!(quad.is_initialized());
}

#[test]
fn upload_binds_the_input_texture_on_unit_zero() {
    let quad = ready(2320, 1740);
    assert_eq!(
        quad.update_input_texture(),
        vec![
            GlCall::UseProgram,
            GlCall::ActiveTexture(0),
            GlCall::BindTexture(Texture::Input),
            GlCall::UploadFrame { texture: Texture::Input, width: 2320, height: 1740 },
        ]
    );
}

#[test]
fn paint_draws_the_quad_to_the_screen() {
    let quad = ready(2320, 1740);
    let script = quad.paint();
    assert_eq!(
        script,
        vec![
            GlCall::UseProgram,
            GlCall::BindFramebuffer(Target::Screen),
            GlCall::BindVertexArray,
            GlCall::BindVertexBuffer,
            GlCall::ActiveTexture(0),
            GlCall::BindTexture(Texture::Input),
            GlCall::SetSource(0),
            GlCall::DrawQuad,
        ]
    );
    assert_eq!(follow(Objects::resources(), &script), Objects::resources());
}

#[test]
fn capture_checks_the_framebuffer_before_it_draws_and_reads_back() {
    let quad = ready(2320, 1740);
    let script = quad.paint_to_fbo();
    assert_eq!(script.len(), 24);
    let at = |call: GlCall| script.iter().position(|c| *c == call).unwrap();
    let bind = at(GlCall::BindFramebuffer(Target::Offscreen));
    let attach = at(GlCall::AttachOutput);
    let check = at(GlCall::CheckFramebufferComplete);
    let viewport = at(GlCall::Viewport { width: 2320, height: 1740 });
    let draw = at(GlCall::DrawQuad);
    let read = at(GlCall::ReadBack { texture: Texture::Output });
    assert!(bind < attach && attach < check && check < viewport && viewport < draw);
    assert!(draw < read);
    assert_eq!(script[1], GlCall::BindFramebuffer(Target::Offscreen));
    assert_eq!(script[5], GlCall::ActiveTexture(1));
    assert_eq!(script[14], GlCall::SetSource(1));
    // The screen is bound again at the end.
    assert_eq!(script[23], GlCall::BindFramebuffer(Target::Screen));
    assert_eq!(follow(Objects::resources(), &script), Objects::resources());
}

#[test]
fn frame_always_draws_the_preview() {
    let quad = ready(64, 48);
    let paint = quad.paint();
    let upload = quad.update_input_texture();
    let capture = quad.paint_to_fbo();

    assert_eq!(quad.frame(false, false), paint);

    let mut with_upload = upload.clone();
    with_upload.extend_from_slice(&paint);
    assert_eq!(quad.frame(true, false), with_upload);

    let mut with_capture = paint.clone();
    with_capture.extend_from_slice(&capture);
    assert_eq!(quad.frame(false, true), with_capture);

    let mut all = with_upload.clone();
    all.extend_from_slice(&capture);
    assert_eq!(quad.frame(true, true), all);

    let read = GlCall::ReadBack { texture: Texture::Output };
    assert!(!quad.frame(true, false).contains(&read));
    assert!(quad.frame(false, true).contains(&read));
}

#[test]
fn destroy_deletes_each_object_once() {
    let mut quad = ready(2320, 1740);
    let script = quad.destroy();
    assert_eq!(
        script,
        vec![
            GlCall::Delete(Object::VertexBuffer),
            GlCall::Delete(Object::VertexArray),
            GlCall::Delete(Object::InputTexture),
            GlCall::Delete(Object::OutputTexture),
            GlCall::Delete(Object::Program),
            GlCall::Delete(Object::Framebuffer),
        ]
    );
    assert_eq!(follow(Objects::resources(), &script), Objects::none());
    assert!(!quad.is_initialized());
    // A second teardown has nothing to delete, and nothing is drawn any more.
    assert_eq!(quad.destroy(), Vec::new());
    assert_eq!(quad.paint(), Vec::new());
    assert_eq!(quad.frame(true, true), Vec::new());
}
