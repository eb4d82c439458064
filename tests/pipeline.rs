use warnengine::command::{Command, Filter, PixelFormat, TexParameter, Topology, Wrap};
use warnengine::frame::{clear, render_frame, use_program};
use warnengine::mesh::{draw_arrays, draw_arrays_as, gen_buffer, gen_vertex_array, BufferError};
use warnengine::shader::{
    check_source, compile_outcome, info_log_capacity, info_log_text, link_commands, link_outcome,
    with_nul_terminator, ShaderError, ShaderStage,
};
use warnengine::texture::{
    bind_texture, gen_empty_texture, pixel_format, sampled_texture, tex_image_2d, upload_texture,
    ColorModel, DecodedImage, Sampler, TextureError, TextureImage,
};

fn image(color: ColorModel, width: u32, height: u32, bytes: usize) -> Option<DecodedImage> {
    Some(DecodedImage { color, width, height, pixels: vec![7u8; bytes] })
}

#[test]
fn triangle_upload_then_draw() {
    let positions: Vec<f32> = vec![0.0, -1.0, 0.0, 0.0, 0.0, 0.0, 1.0, 0.0, 0.0];
    let mut va = gen_vertex_array(5, 3).unwrap();
    let cmds = gen_buffer(&mut va, 9, positions.len(), 3, 0).unwrap();
    assert_eq!(
        cmds,
        vec![
            Command::BindVertexArray(5),
            Command::BindArrayBuffer(9),
            Command::BufferStaticData { byte_len: 36 },
            Command::EnableVertexAttribArray(0),
            Command::VertexAttribFloats { index: 0, size: 3 },
        ]
    );
    let draw = draw_arrays(&va);
    assert_eq!(
        draw,
        vec![
            Command::BindVertexArray(5),
            Command::DrawArrays { mode: Topology::Triangles, first: 0, count: 3 },
        ]
    );
}

#[test]
fn position_and_uv_buffers_share_vertex_count() {
    let mut va = gen_vertex_array(1, 6).unwrap();
    assert!(gen_buffer(&mut va, 2, 18, 3, 0).is_ok());
    assert!(gen_buffer(&mut va, 3, 12, 2, 1).is_ok());
    assert_eq!(va.len(), 6);
    assert_eq!(va.name(), 1);
}

#[test]
fn buffer_with_other_vertex_count_is_refused() {
    let mut va = gen_vertex_array(1, 9).unwrap();
    assert_eq!(
        gen_buffer(&mut va, 2, 18, 3, 0),
        Err(BufferError::VertexCount { vertices: 6, length: 9 })
    );
    assert!(gen_buffer(&mut va, 2, 27, 3, 0).is_ok());
}

#[test]
fn buffer_with_partial_vertex_is_refused() {
    let mut va = gen_vertex_array(1, 3).unwrap();
    assert_eq!(
        gen_buffer(&mut va, 2, 10, 3, 0),
        Err(BufferError::PartialVertex { value_count: 10, size: 3 })
    );
}

#[test]
fn buffer_component_width_must_be_one_to_four() {
    let mut va = gen_vertex_array(1, 2).unwrap();
    assert_eq!(gen_buffer(&mut va, 2, 10, 5, 0), Err(BufferError::ComponentWidth { size: 5 }));
    assert_eq!(gen_buffer(&mut va, 2, 0, 0, 0), Err(BufferError::ComponentWidth { size: 0 }));
    assert!(gen_buffer(&mut va, 2, 8, 4, 0).is_ok());
}

#[test]
fn attribute_slot_takes_one_buffer() {
    let mut va = gen_vertex_array(1, 3).unwrap();
    assert!(gen_buffer(&mut va, 2, 9, 3, 0).is_ok());
    assert_eq!(gen_buffer(&mut va, 3, 9, 3, 0), Err(BufferError::SlotTaken { index: 0 }));
    assert!(gen_buffer(&mut va, 3, 6, 2, 1).is_ok());
}

#[test]
fn negative_vertex_count_is_refused() {
    assert!(gen_vertex_array(1, -1).is_none());
    assert_eq!(gen_vertex_array(1, 0).unwrap().len(), 0);
}

#[test]
fn draw_with_other_topology() {
    let va = gen_vertex_array(4, 2).unwrap();
    assert_eq!(
        draw_arrays_as(&va, Topology::Lines)[1],
        Command::DrawArrays { mode: Topology::Lines, first: 0, count: 2 }
    );
}

#[test]
fn source_without_nul_is_refused() {
    assert!(matches!(
        check_source(b"void main() {}"),
        Err(ShaderError::MissingNulTerminator)
    ));
    assert!(matches!(check_source(b""), Err(ShaderError::MissingNulTerminator)));
}

#[test]
fn source_with_interior_nul_is_refused() {
    assert!(matches!(
        check_source(b"void\0 main() {}\0"),
        Err(ShaderError::InteriorNul { position: 4 })
    ));
}

#[test]
fn loaded_source_is_accepted() {
    let src = with_nul_terminator(b"void main() {}".to_vec());
    assert_eq!(src.len(), 15);
    assert_eq!(src[14], 0);
    assert!(check_source(&src).is_ok());
}

#[test]
fn failed_compile_reports_driver_log() {
    let log = b"0:1(1): error\0   ";
    match compile_outcome(ShaderStage::Fragment, 12, 0, log) {
        Err(ShaderError::CompileFailed { stage, log }) => {
            assert_eq!(stage, ShaderStage::Fragment);
            assert_eq!(log, b"0:1(1): error".to_vec());
        }
        other => panic!("unexpected {:?}", other),
    }
    assert!(matches!(compile_outcome(ShaderStage::Vertex, 12, 1, b""), Ok(12)));
}

#[test]
fn log_text_stops_at_nul() {
    assert_eq!(info_log_text(b"abc\0def"), b"abc".to_vec());
    assert_eq!(info_log_text(b"abc"), b"abc".to_vec());
    assert_eq!(info_log_text(b""), Vec::<u8>::new());
    assert_eq!(info_log_capacity(-3), 0);
    assert_eq!(info_log_capacity(0), 0);
    assert_eq!(info_log_capacity(40), 40);
}

#[test]
fn link_releases_both_stages() {
    let cmds = link_commands(3, 1, 2);
    assert_eq!(
        cmds,
        vec![
            Command::AttachShader { program: 3, shader: 1 },
            Command::AttachShader { program: 3, shader: 2 },
            Command::LinkProgram(3),
            Command::DeleteShader(1),
            Command::DeleteShader(2),
        ]
    );
    assert_eq!(cmds.iter().filter(|c| **c == Command::DeleteShader(1)).count(), 1);
    assert_eq!(cmds.iter().filter(|c| **c == Command::DeleteShader(2)).count(), 1);
}

#[test]
fn link_status_decides() {
    assert!(matches!(link_outcome(3, 1, b""), Ok(3)));
    match link_outcome(3, 0, b"bad link\0") {
        Err(ShaderError::LinkFailed { log }) => assert_eq!(log, b"bad link".to_vec()),
        other => panic!("unexpected {:?}", other),
    }
}

#[test]
fn unsupported_pixel_format_names_file() {
    for color in [
        ColorModel::Gray(8),
        ColorModel::GrayAlpha(8),
        ColorModel::Palette(8),
        ColorModel::Rgb(16),
        ColorModel::Rgba(16),
        ColorModel::Bgr(8),
        ColorModel::Bgra(8),
    ] {
        match tex_image_2d("./assets/oui.png".to_string(), image(color, 1, 1, 4)) {
            Err(e) => {
                assert!(matches!(e, TextureError::UnsupportedFormat { .. }));
                assert_eq!(e.path(), "./assets/oui.png");
            }
            Ok(_) => panic!("accepted {:?}", color),
        }
    }
}

#[test]
fn undecodable_image_names_file() {
    let e = tex_image_2d("missing.png".to_string(), None).unwrap_err();
    assert!(matches!(e, TextureError::Decode { .. }));
    assert_eq!(e.path(), "missing.png");
}

#[test]
fn image_size_is_checked() {
    let e = tex_image_2d("a.png".to_string(), image(ColorModel::Rgb(8), 0, 4, 0)).unwrap_err();
    assert!(matches!(e, TextureError::Dimensions { .. }));
    let e = tex_image_2d("a.png".to_string(), image(ColorModel::Rgb(8), 2, 2, 11)).unwrap_err();
    assert!(matches!(e, TextureError::PixelData { .. }));
    assert_eq!(e.path(), "a.png");
}

#[test]
fn rgb_and_rgba_images_are_accepted() {
    let t = tex_image_2d("a.png".to_string(), image(ColorModel::Rgb(8), 2, 3, 18)).unwrap();
    assert_eq!((t.format, t.width, t.height, t.pixels.len()), (PixelFormat::Rgb, 2, 3, 18));
    let t = tex_image_2d("b.png".to_string(), image(ColorModel::Rgba(8), 3, 1, 12)).unwrap();
    assert_eq!((t.format, t.width, t.height, t.pixels.len()), (PixelFormat::Rgba, 3, 1, 12));
    assert_eq!(pixel_format(ColorModel::Rgba(8)), Some(PixelFormat::Rgba));
    assert_eq!(pixel_format(ColorModel::Gray(8)), None);
}

fn default_setup(texture: u32) -> Vec<Command> {
    vec![
        Command::ActiveTexture(0),
        Command::BindTexture2d(texture),
        Command::TexParameter(TexParameter::MinFilter(Filter::Linear)),
        Command::TexParameter(TexParameter::MagFilter(Filter::Linear)),
        Command::TexParameter(TexParameter::WrapS(Wrap::Repeat)),
        Command::TexParameter(TexParameter::WrapT(Wrap::Repeat)),
    ]
}

#[test]
fn empty_texture_setup() {
    assert_eq!(gen_empty_texture(8, 4, 4, true), default_setup(8));
    let mut full = default_setup(8);
    full.push(Command::TexImage2d {
        level: 0,
        format: PixelFormat::Rgba,
        width: 4,
        height: 2,
        with_pixels: false,
    });
    assert_eq!(gen_empty_texture(8, 4, 2, false), full);
}

#[test]
fn texture_upload_builds_mipmaps() {
    let image = TextureImage { format: PixelFormat::Rgb, width: 2, height: 1, pixels: vec![0; 6] };
    let mut expected = default_setup(6);
    expected.push(Command::TexImage2d {
        level: 0,
        format: PixelFormat::Rgb,
        width: 2,
        height: 1,
        with_pixels: true,
    });
    expected.push(Command::GenerateMipmap);
    assert_eq!(upload_texture(6, &image, Sampler::default()), expected);
}

#[test]
fn sampler_is_configurable() {
    let sampler = Sampler {
        min_filter: Filter::Nearest,
        mag_filter: Filter::Linear,
        wrap_s: Wrap::ClampToEdge,
        wrap_t: Wrap::MirroredRepeat,
    };
    let cmds = sampled_texture(2, sampler);
    assert_eq!(cmds[2], Command::TexParameter(TexParameter::MinFilter(Filter::Nearest)));
    assert_eq!(cmds[4], Command::TexParameter(TexParameter::WrapS(Wrap::ClampToEdge)));
    assert_eq!(cmds[5], Command::TexParameter(TexParameter::WrapT(Wrap::MirroredRepeat)));
}

#[test]
fn texture_binds_to_unit() {
    assert_eq!(
        bind_texture(5, 1),
        vec![Command::ActiveTexture(1), Command::BindTexture2d(5)]
    );
}

#[test]
fn frame_issues_each_step_once() {
    let va = gen_vertex_array(4, 6).unwrap();
    let frame = render_frame(2, 3, 0, &va);
    let count = |p: fn(&Command) -> bool| frame.iter().filter(|c| p(c)).count();
    assert_eq!(count(|c| matches!(c, Command::Clear { .. })), 1);
    assert_eq!(count(|c| matches!(c, Command::UseProgram(_))), 1);
    assert_eq!(count(|c| matches!(c, Command::BindTexture2d(_))), 1);
    assert_eq!(count(|c| matches!(c, Command::DrawArrays { .. })), 1);
    assert_eq!(
        frame.last(),
        Some(&Command::DrawArrays { mode: Topology::Triangles, first: 0, count: 6 })
    );
    assert_eq!(render_frame(2, 3, 0, &va), frame);
}

#[test]
fn clear_is_opaque_gray() {
    assert_eq!(
        clear(),
        vec![
            Command::ClearColor { red: 300, green: 300, blue: 300, alpha: 1000 },
            Command::Clear { color: true, depth: true },
        ]
    );
    assert_eq!(use_program(7), Command::UseProgram(7));
}
