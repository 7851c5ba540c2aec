use std::num::NonZeroU32;

use glow_painter::command::{Command, Diagnostic, MeshData};
use glow_painter::paint::clear;
use glow_painter::painter::{ContractViolation, GpuObjects, Painter};
use glow_painter::shader_version::ShaderVersion;
use glow_painter::primitive::{ClippedPrimitive, Mesh, PaintCallback, Primitive, ViewportInPixels};
use glow_painter::scissor::PixelRect;
use glow_painter::texture::{ImageDelta, TextureFilter, TextureId, TextureOptions, TextureWrapMode};

fn texture(n: u32) -> glow::NativeTexture {
    glow::NativeTexture(NonZeroU32::new(n).unwrap())
}

fn objects() -> GpuObjects {
    GpuObjects {
        program: glow::NativeProgram(NonZeroU32::new(1).unwrap()),
        u_screen_size: glow::NativeUniformLocation(3),
        u_sampler: glow::NativeUniformLocation(4),
        vbo: glow::NativeBuffer(NonZeroU32::new(5).unwrap()),
        element_array_buffer: glow::NativeBuffer(NonZeroU32::new(6).unwrap()),
    }
}

fn painter_with(id: TextureId, backing: glow::NativeTexture, srgb_framebuffer: bool) -> Painter {
    let mut painter = Painter::new(2048, ShaderVersion::Gl140, srgb_framebuffer, objects());
    let delta = ImageDelta {
        size: [1, 1],
        byte_len: 4,
        options: TextureOptions {
            magnification: TextureFilter::Nearest,
            minification: TextureFilter::Nearest,
            wrap_mode: TextureWrapMode::ClampToEdge,
            mipmap_mode: None,
        },
        pos: None,
    };
    painter.set_texture(id, &delta, Some(backing));
    painter
}

fn prepare(size: [u32; 2], srgb_framebuffer: bool) -> Vec<Command> {
    let mut commands = vec![
        Command::Enable(glow::SCISSOR_TEST),
        Command::Disable(glow::CULL_FACE),
        Command::Disable(glow::DEPTH_TEST),
        Command::ColorMask { red: true, green: true, blue: true, alpha: true },
        Command::Enable(glow::BLEND),
        Command::BlendEquationSeparate { mode_rgb: glow::FUNC_ADD, mode_alpha: glow::FUNC_ADD },
        Command::BlendFuncSeparate {
            src_rgb: glow::ONE,
            dst_rgb: glow::ONE_MINUS_SRC_ALPHA,
            src_alpha: glow::ONE_MINUS_DST_ALPHA,
            dst_alpha: glow::ONE,
        },
    ];
    if srgb_framebuffer {
        commands.push(Command::Disable(glow::FRAMEBUFFER_SRGB));
    }
    commands.extend([
        Command::Viewport { x: 0, y: 0, width: size[0] as i32, height: size[1] as i32 },
        Command::UseProgram(objects().program),
        Command::ScreenSizeUniform {
            location: objects().u_screen_size,
            width_px: size[0],
            height_px: size[1],
        },
        Command::Uniform1I32 { location: objects().u_sampler, value: 0 },
        Command::ActiveTexture(glow::TEXTURE0),
        Command::BindVertexLayout,
        Command::BindBuffer {
            target: glow::ELEMENT_ARRAY_BUFFER,
            buffer: Some(objects().element_array_buffer),
        },
    ]);
    commands
}

fn finish() -> Vec<Command> {
    vec![
        Command::UnbindVertexLayout,
        Command::BindBuffer { target: glow::ELEMENT_ARRAY_BUFFER, buffer: None },
        Command::Disable(glow::SCISSOR_TEST),
    ]
}

fn draw(index: usize, count: i32, backing: glow::NativeTexture) -> Vec<Command> {
    vec![
        Command::BindBuffer { target: glow::ARRAY_BUFFER, buffer: Some(objects().vbo) },
        Command::BufferData {
            target: glow::ARRAY_BUFFER,
            primitive: index,
            data: MeshData::Vertices,
            usage: glow::STREAM_DRAW,
        },
        Command::BindBuffer {
            target: glow::ELEMENT_ARRAY_BUFFER,
            buffer: Some(objects().element_array_buffer),
        },
        Command::BufferData {
            target: glow::ELEMENT_ARRAY_BUFFER,
            primitive: index,
            data: MeshData::Indices,
            usage: glow::STREAM_DRAW,
        },
        Command::BindTexture { target: glow::TEXTURE_2D, texture: backing },
        Command::DrawElements {
            mode: glow::TRIANGLES,
            count,
            element_type: glow::UNSIGNED_INT,
            offset: 0,
        },
    ]
}

fn triangle(texture_id: TextureId) -> Mesh {
    Mesh { indices: vec![0, 1, 2], vertex_count: 3, texture_id }
}

fn clipped(clip_rect: PixelRect, primitive: Primitive) -> ClippedPrimitive {
    ClippedPrimitive { clip_rect, primitive }
}

fn whole() -> PixelRect {
    PixelRect { min_x: 0, min_y: 0, max_x: 200, max_y: 100 }
}

fn callback(positive_area: bool) -> PaintCallback {
    callback_of(positive_area, true)
}

fn callback_of(positive_area: bool, recognized: bool) -> PaintCallback {
    PaintCallback {
        positive_area,
        recognized,
        viewport: ViewportInPixels { left_px: 10, top_px: 20, from_bottom_px: 30, width_px: 40, height_px: 50 },
    }
}

fn draw_calls(commands: &[Command]) -> usize {
    commands.iter().filter(|c| matches!(c, Command::DrawElements { .. })).count()
}

fn reports(commands: &[Command]) -> Vec<Diagnostic> {
    commands
        .iter()
        .filter_map(|c| match c {
            Command::Report(diagnostic) => Some(*diagnostic),
            _ => None,
        })
        .collect()
}

#[test]
fn fixed_state_is_set_in_order() {
    let painter = painter_with(TextureId::Managed(0), texture(9), false);
    assert_eq!(painter.prepare_painting([200, 100]), prepare([200, 100], false));
    assert_eq!(painter.prepare_painting([200, 100]).len(), 14);
}

#[test]
fn srgb_output_is_switched_off_where_the_context_has_it() {
    let painter = painter_with(TextureId::Managed(0), texture(9), true);
    let commands = painter.prepare_painting([200, 100]);
    assert_eq!(commands, prepare([200, 100], true));
    assert_eq!(commands[7], Command::Disable(glow::FRAMEBUFFER_SRGB));
    let without = painter_with(TextureId::Managed(0), texture(9), false).prepare_painting([200, 100]);
    assert!(!without.contains(&Command::Disable(glow::FRAMEBUFFER_SRGB)));
}

#[test]
fn empty_frame_sets_state_and_cleans_up() {
    let mut painter = painter_with(TextureId::Managed(0), texture(9), false);
    let mut expected = prepare([200, 100], false);
    expected.extend(finish());
    assert_eq!(painter.paint_primitives([200, 100], &[]), expected);
}

#[test]
fn mesh_is_uploaded_bound_and_drawn() {
    let mut painter = painter_with(TextureId::Managed(0), texture(9), false);
    let primitives = [clipped(
        PixelRect { min_x: 10, min_y: 20, max_x: 110, max_y: 70 },
        Primitive::Mesh(Mesh { indices: vec![0, 1, 2, 2, 1, 3], vertex_count: 4, texture_id: TextureId::Managed(0) }),
    )];
    let mut expected = prepare([200, 100], false);
    expected.push(Command::Scissor { x: 10, y: 30, width: 100, height: 50 });
    expected.extend(draw(0, 6, texture(9)));
    expected.extend(finish());
    assert_eq!(painter.paint_primitives([200, 100], &primitives), expected);
}

#[test]
fn mesh_with_unknown_texture_is_reported_and_skipped() {
    let mut painter = painter_with(TextureId::Managed(0), texture(9), false);
    let missing = TextureId::Managed(77);
    let primitives = [
        clipped(whole(), Primitive::Mesh(triangle(missing))),
        clipped(whole(), Primitive::Mesh(triangle(TextureId::Managed(0)))),
    ];
    let commands = painter.paint_primitives([200, 100], &primitives);

    let mut expected = prepare([200, 100], false);
    expected.push(Command::Scissor { x: 0, y: 0, width: 200, height: 100 });
    expected.push(Command::Report(Diagnostic::MissingTexture(missing)));
    expected.push(Command::Scissor { x: 0, y: 0, width: 200, height: 100 });
    expected.extend(draw(1, 3, texture(9)));
    expected.extend(finish());
    assert_eq!(commands, expected);
    assert_eq!(draw_calls(&commands), 1);
    assert_eq!(reports(&commands), vec![Diagnostic::MissingTexture(missing)]);

    let alone = painter.paint_mesh(0, &triangle(missing));
    assert_eq!(alone, vec![Command::Report(Diagnostic::MissingTexture(missing))]);
    assert_eq!(draw_calls(&alone), 0);
}

#[test]
fn mesh_of_freed_texture_is_reported_and_skipped() {
    let mut painter = painter_with(TextureId::Managed(0), texture(9), false);
    painter.free_texture(TextureId::Managed(0));
    let commands = painter.paint_primitives([200, 100], &[clipped(whole(), Primitive::Mesh(triangle(TextureId::Managed(0))))]);
    assert_eq!(draw_calls(&commands), 0);
    assert_eq!(reports(&commands), vec![Diagnostic::MissingTexture(TextureId::Managed(0))]);
}

#[test]
fn later_primitives_do_not_depend_on_a_skipped_one() {
    let mut painter = painter_with(TextureId::Managed(0), texture(9), false);
    let good = || clipped(whole(), Primitive::Mesh(triangle(TextureId::Managed(0))));
    let with_bad = [good(), clipped(whole(), Primitive::Mesh(triangle(TextureId::User(5)))), good(), good()];
    let with_good = [good(), good(), good(), good()];
    let bad = painter.paint_primitives([200, 100], &with_bad);
    let fine = painter.paint_primitives([200, 100], &with_good);
    let tail = 2 * 7 + finish().len();
    assert_eq!(bad[bad.len() - tail..], fine[fine.len() - tail..]);
    assert_eq!(draw_calls(&bad), 3);
    assert_eq!(draw_calls(&fine), 4);
}

#[test]
fn malformed_mesh_is_reported_and_skipped() {
    let mut painter = painter_with(TextureId::Managed(0), texture(9), false);
    let out_of_range = Mesh { indices: vec![0, 1, 3], vertex_count: 3, texture_id: TextureId::Managed(0) };
    let empty = Mesh { indices: vec![], vertex_count: 0, texture_id: TextureId::Managed(0) };
    assert!(!out_of_range.is_valid());
    assert!(!empty.is_valid());
    assert!(triangle(TextureId::Managed(0)).is_valid());
    let primitives = [
        clipped(whole(), Primitive::Mesh(out_of_range)),
        clipped(whole(), Primitive::Mesh(empty)),
        clipped(whole(), Primitive::Mesh(triangle(TextureId::Managed(0)))),
    ];
    let commands = painter.paint_primitives([200, 100], &primitives);
    assert_eq!(draw_calls(&commands), 1);
    assert_eq!(reports(&commands), vec![Diagnostic::InvalidMesh, Diagnostic::InvalidMesh]);
    assert!(commands.contains(&Command::BufferData {
        target: glow::ARRAY_BUFFER,
        primitive: 2,
        data: MeshData::Vertices,
        usage: glow::STREAM_DRAW,
    }));
}

#[test]
fn mesh_validity_looks_at_every_index() {
    let id = TextureId::Managed(0);
    assert!(Mesh { indices: vec![2, 2, 2], vertex_count: 3, texture_id: id }.is_valid());
    assert!(!Mesh { indices: vec![0, 0, 3], vertex_count: 3, texture_id: id }.is_valid());
    assert!(!Mesh { indices: vec![3, 0, 0], vertex_count: 3, texture_id: id }.is_valid());
    assert!(!Mesh { indices: vec![0], vertex_count: 0, texture_id: id }.is_valid());
    assert!(Mesh { indices: vec![u32::MAX - 1], vertex_count: u32::MAX as usize, texture_id: id }.is_valid());
    assert!(!Mesh { indices: vec![0], vertex_count: u32::MAX as usize + 1, texture_id: id }.is_valid());
}

#[test]
fn callback_gets_its_viewport_and_state_is_restored() {
    let mut painter = painter_with(TextureId::Managed(0), texture(9), true);
    let primitives = [
        clipped(whole(), Primitive::Callback(callback(true))),
        clipped(whole(), Primitive::Mesh(triangle(TextureId::Managed(0)))),
    ];
    let mut expected = prepare([200, 100], true);
    expected.push(Command::Scissor { x: 0, y: 0, width: 200, height: 100 });
    expected.push(Command::Viewport { x: 10, y: 30, width: 40, height: 50 });
    expected.push(Command::Callback { primitive: 0 });
    expected.extend(prepare([200, 100], true));
    expected.push(Command::Scissor { x: 0, y: 0, width: 200, height: 100 });
    expected.extend(draw(1, 3, texture(9)));
    expected.extend(finish());
    assert_eq!(painter.paint_primitives([200, 100], &primitives), expected);
}

#[test]
fn callback_without_area_is_passed_over() {
    let mut painter = painter_with(TextureId::Managed(0), texture(9), false);
    let primitives = [clipped(whole(), Primitive::Callback(callback(false)))];
    let mut expected = prepare([200, 100], false);
    expected.push(Command::Scissor { x: 0, y: 0, width: 200, height: 100 });
    expected.extend(finish());
    assert_eq!(painter.paint_primitives([200, 100], &primitives), expected);
}

#[test]
fn painting_leaves_the_painter_as_it_was() {
    let mut painter = painter_with(TextureId::Managed(0), texture(9), false);
    let primitives = [clipped(whole(), Primitive::Mesh(triangle(TextureId::Managed(0))))];
    let first = painter.paint_primitives([200, 100], &primitives);
    let second = painter.paint_primitives([200, 100], &primitives);
    assert_eq!(first, second);
    assert_eq!(painter.texture(TextureId::Managed(0)), Some(texture(9)));
    assert!(!painter.is_destroyed());
}

#[test]
fn clear_covers_the_whole_target() {
    let expected = vec![
        Command::Disable(glow::SCISSOR_TEST),
        Command::Viewport { x: 0, y: 0, width: 640, height: 480 },
        Command::ClearColor,
        Command::Clear(glow::COLOR_BUFFER_BIT),
    ];
    assert_eq!(clear([640, 480]), expected);
    let painter = painter_with(TextureId::Managed(0), texture(9), false);
    assert_eq!(painter.clear([640, 480]), expected);
}

#[test]
fn unsupported_callback_is_reported_and_not_run() {
    let mut painter = painter_with(TextureId::Managed(0), texture(9), false);
    let primitives = [
        clipped(whole(), Primitive::Callback(callback_of(true, false))),
        clipped(whole(), Primitive::Mesh(triangle(TextureId::Managed(0)))),
    ];
    let commands = painter.paint_primitives([200, 100], &primitives);

    let mut expected = prepare([200, 100], false);
    expected.push(Command::Scissor { x: 0, y: 0, width: 200, height: 100 });
    expected.push(Command::Viewport { x: 10, y: 30, width: 40, height: 50 });
    expected.push(Command::Report(Diagnostic::UnsupportedCallback));
    expected.extend(prepare([200, 100], false));
    expected.push(Command::Scissor { x: 0, y: 0, width: 200, height: 100 });
    expected.extend(draw(1, 3, texture(9)));
    expected.extend(finish());
    assert_eq!(commands, expected);
    assert!(!commands.iter().any(|c| matches!(c, Command::Callback { .. })));
    assert_eq!(reports(&commands), vec![Diagnostic::UnsupportedCallback]);
    assert_eq!(draw_calls(&commands), 1);
}

#[test]
fn unsupported_callback_without_area_is_passed_over() {
    let mut painter = painter_with(TextureId::Managed(0), texture(9), false);
    let primitives = [clipped(whole(), Primitive::Callback(callback_of(false, false)))];
    let commands = painter.paint_primitives([200, 100], &primitives);
    assert_eq!(reports(&commands), vec![]);
    assert!(!commands.iter().any(|c| matches!(c, Command::Callback { .. })));
}

#[test]
fn destroyed_painter_paints_nothing() {
    let mut painter = painter_with(TextureId::Managed(0), texture(9), false);
    let primitives = [clipped(whole(), Primitive::Mesh(triangle(TextureId::Managed(0))))];
    assert_eq!(
        painter.try_paint_primitives([200, 100], &primitives),
        Ok(painter.paint_primitives([200, 100], &primitives))
    );
    painter.destroy();
    assert_eq!(painter.try_paint_primitives([200, 100], &primitives), Err(ContractViolation::Destroyed));
    assert_eq!(painter.try_paint_primitives([200, 100], &[]), Err(ContractViolation::Destroyed));
}
