use std::num::NonZeroU32;

use glow_painter::command::{Command, Diagnostic};
use glow_painter::frame::TexturesDelta;
use glow_painter::painter::{ContractViolation, GpuObjects, Painter};
use glow_painter::shader_version::ShaderVersion;
use glow_painter::primitive::{ClippedPrimitive, Mesh, Primitive};
use glow_painter::scissor::PixelRect;
use glow_painter::texture::{ImageDelta, TextureFilter, TextureId, TextureOptions, TextureWrapMode};

fn texture(n: u32) -> glow::NativeTexture {
    glow::NativeTexture(NonZeroU32::new(n).unwrap())
}

fn painter() -> Painter {
    Painter::new(
        1024,
        ShaderVersion::Gl140,
        false,
        GpuObjects {
            program: glow::NativeProgram(NonZeroU32::new(1).unwrap()),
            u_screen_size: glow::NativeUniformLocation(3),
            u_sampler: glow::NativeUniformLocation(4),
            vbo: glow::NativeBuffer(NonZeroU32::new(5).unwrap()),
            element_array_buffer: glow::NativeBuffer(NonZeroU32::new(6).unwrap()),
        },
    )
}

fn full(width: usize, height: usize) -> ImageDelta {
    ImageDelta {
        size: [width, height],
        byte_len: width * height * 4,
        options: TextureOptions {
            magnification: TextureFilter::Linear,
            minification: TextureFilter::Linear,
            wrap_mode: TextureWrapMode::ClampToEdge,
            mipmap_mode: None,
        },
        pos: None,
    }
}

fn patch(x: usize, y: usize) -> ImageDelta {
    let mut delta = full(1, 1);
    delta.pos = Some([x, y]);
    delta
}

fn triangle(texture_id: TextureId) -> ClippedPrimitive {
    ClippedPrimitive {
        clip_rect: PixelRect { min_x: 0, min_y: 0, max_x: 50, max_y: 50 },
        primitive: Primitive::Mesh(Mesh { indices: vec![0, 1, 2], vertex_count: 3, texture_id }),
    }
}

fn bound(commands: &[Command]) -> Vec<glow::NativeTexture> {
    commands
        .iter()
        .filter_map(|c| match c {
            Command::BindTexture { texture, .. } => Some(*texture),
            _ => None,
        })
        .collect()
}

#[test]
fn each_unseen_id_needs_one_texture() {
    let mut painter = painter();
    painter.set_texture(TextureId::Managed(0), &full(4, 4), Some(texture(10)));
    let delta = TexturesDelta {
        set: vec![
            (TextureId::Managed(0), patch(1, 1)),
            (TextureId::Managed(1), full(2, 2)),
            (TextureId::Managed(1), patch(0, 0)),
            (TextureId::User(1), full(2, 2)),
            (TextureId::Managed(1), patch(1, 1)),
        ],
        free: vec![],
    };
    assert_eq!(painter.textures_needed(&delta), 2);
    assert_eq!(painter.textures_needed(&TexturesDelta { set: vec![], free: vec![TextureId::Managed(0)] }), 0);
    assert_eq!(
        painter.textures_needed(&TexturesDelta { set: vec![(TextureId::Managed(5), full(1, 1))], free: vec![] }),
        1
    );
    assert_eq!(
        painter.textures_needed(&TexturesDelta { set: vec![(TextureId::Managed(0), full(1, 1))], free: vec![] }),
        0
    );
}

#[test]
fn frame_upserts_paints_and_frees_in_this_order() {
    let mut painter = painter();
    painter.set_texture(TextureId::Managed(0), &full(4, 4), Some(texture(10)));
    let delta = TexturesDelta {
        set: vec![
            (TextureId::Managed(1), full(2, 2)),
            (TextureId::Managed(0), patch(1, 1)),
            (TextureId::Managed(2), full(3, 3)),
            (TextureId::Managed(1), patch(0, 0)),
        ],
        free: vec![TextureId::Managed(0), TextureId::Managed(9), TextureId::Managed(0)],
    };
    let primitives = [triangle(TextureId::Managed(0)), triangle(TextureId::Managed(2)), triangle(TextureId::Managed(9))];
    assert_eq!(painter.textures_needed(&delta), 2);
    let plan = painter.paint_and_update_textures([100, 100], &primitives, &delta, &vec![texture(20), texture(21)]);

    assert_eq!(plan.uploads.len(), 4);
    assert_eq!(bound(&plan.uploads[0]), vec![texture(20)]);
    assert_eq!(bound(&plan.uploads[1]), vec![texture(10)]);
    assert_eq!(bound(&plan.uploads[2]), vec![texture(21)]);
    assert_eq!(bound(&plan.uploads[3]), vec![texture(20)]);
    assert!(matches!(plan.uploads[0][6], Command::TexImage2d { width: 2, height: 2, .. }));
    assert!(matches!(plan.uploads[1][6], Command::TexSubImage2d { x_offset: 1, y_offset: 1, .. }));
    assert!(matches!(plan.uploads[2][6], Command::TexImage2d { width: 3, height: 3, .. }));
    assert!(matches!(plan.uploads[3][6], Command::TexSubImage2d { x_offset: 0, y_offset: 0, .. }));

    // The primitives see the textures of this frame, also the one that is freed after it.
    assert_eq!(bound(&plan.paint), vec![texture(10), texture(21)]);
    assert!(plan.paint.contains(&Command::Report(Diagnostic::MissingTexture(TextureId::Managed(9)))));

    assert_eq!(plan.frees, vec![Command::DeleteTexture(texture(10))]);
    assert_eq!(painter.texture(TextureId::Managed(0)), None);
    assert_eq!(painter.texture(TextureId::Managed(1)), Some(texture(20)));
    assert_eq!(painter.texture(TextureId::Managed(2)), Some(texture(21)));
}

#[test]
fn frame_plan_matches_separate_calls() {
    let delta = TexturesDelta {
        set: vec![(TextureId::Managed(1), full(2, 2)), (TextureId::Managed(1), patch(1, 0))],
        free: vec![TextureId::Managed(1)],
    };
    let primitives = [triangle(TextureId::Managed(1))];

    let mut whole = painter();
    let plan = whole.paint_and_update_textures([64, 32], &primitives, &delta, &vec![texture(30)]);

    let mut stepwise = painter();
    let first = stepwise.set_texture(TextureId::Managed(1), &delta.set[0].1, Some(texture(30)));
    let second = stepwise.set_texture(TextureId::Managed(1), &delta.set[1].1, None);
    let paint = stepwise.paint_primitives([64, 32], &primitives);
    let frees = stepwise.free_texture(TextureId::Managed(1));

    assert_eq!(plan.uploads, vec![first, second]);
    assert_eq!(plan.paint, paint);
    assert_eq!(plan.frees, frees);
}

#[test]
fn empty_frame_changes_nothing() {
    let mut painter = painter();
    painter.set_texture(TextureId::Managed(0), &full(4, 4), Some(texture(10)));
    let delta = TexturesDelta { set: vec![], free: vec![] };
    let plan = painter.paint_and_update_textures([10, 10], &[], &delta, &vec![]);
    assert_eq!(plan.uploads, Vec::<Vec<Command>>::new());
    assert_eq!(plan.frees, vec![]);
    assert_eq!(plan.paint.len(), 17);
    assert_eq!(painter.texture(TextureId::Managed(0)), Some(texture(10)));
}

#[test]
fn destroyed_painter_plans_no_frame() {
    let delta = TexturesDelta { set: vec![(TextureId::Managed(1), full(2, 2))], free: vec![TextureId::Managed(0)] };
    let primitives = [triangle(TextureId::Managed(1))];

    let mut live = painter();
    let mut twin = painter();
    assert_eq!(
        live.try_paint_and_update_textures([64, 32], &primitives, &delta, &vec![texture(30)]),
        Ok(twin.paint_and_update_textures([64, 32], &primitives, &delta, &vec![texture(30)]))
    );

    let mut destroyed = painter();
    destroyed.set_texture(TextureId::Managed(0), &full(1, 1), Some(texture(10)));
    destroyed.destroy();
    assert_eq!(
        destroyed.try_paint_and_update_textures([64, 32], &primitives, &delta, &vec![]),
        Err(ContractViolation::Destroyed)
    );
    assert_eq!(destroyed.texture(TextureId::Managed(0)), Some(texture(10)));
    assert_eq!(destroyed.texture(TextureId::Managed(1)), None);
}
