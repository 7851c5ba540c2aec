//! What holds of the painter across calls, proved from the definitions that
//! its contracts are stated in.

use vstd::prelude::*;
use crate::command::{Command, Diagnostic};
use crate::painter::{ContractViolation, PainterState, FIRST_NATIVE_TEXTURE_ID};
use crate::primitive::ClippedPrimitive;
use crate::scissor::scissor_command;
use crate::texture::{transfer_command, upload_commands, ImageDelta, TextureId};

verus! {

/// An upsert of an identifier that has no texture yet adds exactly one
/// texture to the table, the new one, and leaves every other entry alone.
pub proof fn law_upsert_of_new_id_adds_one_texture(
    state: PainterState,
    tex_id: TextureId,
    fresh: glow::Texture,
)
    requires
        state.wf(),
        !state.textures.contains_key(tex_id),
    ensures
        state.set_texture(tex_id, Some(fresh)).textures == state.textures.insert(tex_id, fresh),
        state.set_texture(tex_id, Some(fresh)).textures.dom().len() == state.textures.dom().len() + 1,
        forall|other: TextureId|
            other != tex_id ==> state.set_texture(tex_id, Some(fresh)).textures.get(other)
                == state.textures.get(other),
        state.set_texture(tex_id, Some(fresh)).wf(),
{
}

/// However often a list upserts one identifier, it needs one new texture
/// where the identifier has none, and no new texture where it has one.
pub proof fn law_upserts_of_one_id_need_one_texture(
    state: PainterState,
    tex_id: TextureId,
    set: Seq<(TextureId, ImageDelta)>,
)
    requires
        set.len() > 0,
        forall|i: int| 0 <= i < set.len() ==> (#[trigger] set[i]).0 == tex_id,
    ensures
        state.fresh_used(set, set.len()) == (if state.textures.contains_key(tex_id) {
            0nat
        } else {
            1nat
        }),
{
    lemma_fresh_used_of_one_id(state, tex_id, set, set.len());
}

proof fn lemma_fresh_used_of_one_id(
    state: PainterState,
    tex_id: TextureId,
    set: Seq<(TextureId, ImageDelta)>,
    count: nat,
)
    requires
        0 < count <= set.len(),
        forall|i: int| 0 <= i < set.len() ==> (#[trigger] set[i]).0 == tex_id,
    ensures
        state.fresh_used(set, count) == (if state.textures.contains_key(tex_id) {
            0nat
        } else {
            1nat
        }),
    decreases count,
{
    if count > 1 {
        lemma_fresh_used_of_one_id(state, tex_id, set, (count - 1) as nat);
        assert(set[0].0 == tex_id);
        assert(state.upsert_domain(set, (count - 1) as nat).contains(tex_id));
    } else {
        assert(state.fresh_used(set, 0) == 0);
        assert(set[0].0 == tex_id);
    }
}

/// An upsert of an identifier that has a texture takes no new texture and
/// leaves the painter as it is: the texture it has is written to.
pub proof fn law_upsert_of_known_id_keeps_texture(state: PainterState, tex_id: TextureId, delta: ImageDelta)
    requires
        state.textures.contains_key(tex_id),
    ensures
        state.set_texture(tex_id, None) == state,
        state.set_texture_commands(tex_id, delta, None)[0] == (Command::BindTexture {
            target: crate::gl::TEXTURE_2D,
            texture: state.textures[tex_id],
        }),
{
    assert(state.set_texture(tex_id, None).textures =~= state.textures);
}

/// A delta with an offset never allocates storage: none of its calls is a
/// full allocation, and the one call that moves pixels writes the region of
/// the delta's size at the delta's offset.
pub proof fn law_partial_upsert_keeps_storage(state: PainterState, tex_id: TextureId, delta: ImageDelta)
    requires
        state.textures.contains_key(tex_id),
        delta.pos is Some,
    ensures
        forall|i: int|
            0 <= i < state.set_texture_commands(tex_id, delta, None).len() ==> !(
            #[trigger] state.set_texture_commands(tex_id, delta, None)[i] is TexImage2d),
        state.set_texture_commands(tex_id, delta, None)[6] == transfer_command(
            state.is_webgl_1,
            state.srgb_textures,
            delta,
        ),
        transfer_command(state.is_webgl_1, state.srgb_textures, delta) is TexSubImage2d,
        transfer_command(state.is_webgl_1, state.srgb_textures, delta)->TexSubImage2d_x_offset
            == delta.pos->0@[0] as i32,
        transfer_command(state.is_webgl_1, state.srgb_textures, delta)->TexSubImage2d_y_offset
            == delta.pos->0@[1] as i32,
        forall|i: int|
            0 <= i < state.set_texture_commands(tex_id, delta, None).len() && i != 6 ==> !(
            #[trigger] state.set_texture_commands(tex_id, delta, None)[i] is TexSubImage2d),
{
    let upload = upload_commands(state.is_webgl_1, state.srgb_textures, delta);
    let commands = state.set_texture_commands(tex_id, delta, None);
    assert(upload.len() == if delta.options.mipmap_mode is Some {
        7nat
    } else {
        6nat
    });
    assert forall|i: int| 0 <= i < commands.len() implies !(#[trigger] commands[i] is TexImage2d) && (i != 6
        ==> !(commands[i] is TexSubImage2d)) by {
        if i > 0 {
            assert(commands[i] == upload[i - 1]);
        }
    }
    assert(commands[6] == upload[5]);
}

/// Whatever the dialect, a painter sends pixels as RGBA bytes, to the whole
/// texture or to a region of it, with the delta's size as it is given.
pub proof fn law_uploads_send_rgba(state: PainterState, delta: ImageDelta)
    requires
        state.wf(),
    ensures
        match transfer_command(state.is_webgl_1, state.srgb_textures, delta) {
            Command::TexSubImage2d { target, level, x_offset, y_offset, width, height, format, ty } => {
                &&& delta.pos is Some
                &&& target == crate::gl::TEXTURE_2D
                &&& level == 0
                &&& x_offset == delta.pos->0@[0] as i32
                &&& y_offset == delta.pos->0@[1] as i32
                &&& width == delta.width() as i32
                &&& height == delta.height() as i32
                &&& format == crate::gl::RGBA
                &&& ty == crate::gl::UNSIGNED_BYTE
            },
            Command::TexImage2d { target, level, internal_format, width, height, border, format, ty } => {
                &&& delta.pos is None
                &&& target == crate::gl::TEXTURE_2D
                &&& level == 0
                &&& internal_format == (if state.is_webgl_1 {
                    crate::gl::RGBA
                } else {
                    crate::gl::RGBA8
                }) as i32
                &&& width == delta.width() as i32
                &&& height == delta.height() as i32
                &&& border == 0
                &&& format == crate::gl::RGBA
                &&& ty == crate::gl::UNSIGNED_BYTE
            },
            _ => false,
        },
{
}

/// Freeing an identifier a second time changes nothing and deletes nothing.
pub proof fn law_free_twice_is_free_once(state: PainterState, tex_id: TextureId)
    ensures
        state.free_texture(tex_id).free_texture(tex_id) == state.free_texture(tex_id),
        state.free_texture(tex_id).free_texture_commands(tex_id) == Seq::<Command>::empty(),
        !state.free_texture(tex_id).textures.contains_key(tex_id),
{
    assert(state.free_texture(tex_id).free_texture(tex_id).textures =~= state.free_texture(tex_id).textures);
}

/// A live painter takes an image of a size that the context supports if and
/// only if its pixel data is exactly four bytes for each texel.
pub proof fn law_upload_needs_exact_bytes(state: PainterState, delta: ImageDelta)
    requires
        !state.destroyed,
        delta.spec_fits(state.max_texture_side),
    ensures
        state.upload_violation(delta) is None <==> delta.byte_len == delta.width() * delta.height() * 4,
        state.upload_violation(delta) is Some ==> state.upload_violation(delta)
            == Some(ContractViolation::TexelCountMismatch),
{
}

/// A render callback with area whose payload the painter cannot run gives
/// one report in the place where it would have run, and nothing of the
/// host's runs for it. The viewport is set and the fixed state is set again
/// all the same, so that what follows is painted as after any callback.
pub proof fn law_unsupported_callback_is_reported(
    state: PainterState,
    screen_size_px: [u32; 2],
    index: usize,
    clipped: ClippedPrimitive,
)
    requires
        clipped.primitive is Callback,
        clipped.primitive->Callback_0.positive_area,
        !clipped.primitive->Callback_0.recognized,
    ensures
        state.primitive_commands(screen_size_px, index, clipped) == seq![
            scissor_command(screen_size_px, clipped.clip_rect),
            Command::Viewport {
                x: clipped.primitive->Callback_0.viewport.left_px,
                y: clipped.primitive->Callback_0.viewport.from_bottom_px,
                width: clipped.primitive->Callback_0.viewport.width_px,
                height: clipped.primitive->Callback_0.viewport.height_px,
            },
            Command::Report(Diagnostic::UnsupportedCallback),
        ] + state.prepare_commands(screen_size_px),
        forall|i: int|
            0 <= i < state.primitive_commands(screen_size_px, index, clipped).len() ==> !(
            #[trigger] state.primitive_commands(screen_size_px, index, clipped)[i] is Callback),
{
    let commands = state.primitive_commands(screen_size_px, index, clipped);
    let head = seq![
        scissor_command(screen_size_px, clipped.clip_rect),
        Command::Viewport {
            x: clipped.primitive->Callback_0.viewport.left_px,
            y: clipped.primitive->Callback_0.viewport.from_bottom_px,
            width: clipped.primitive->Callback_0.viewport.width_px,
            height: clipped.primitive->Callback_0.viewport.height_px,
        },
        Command::Report(Diagnostic::UnsupportedCallback),
    ];
    let prepare = state.prepare_commands(screen_size_px);
    assert(commands =~= head + prepare);
    lemma_prepare_runs_no_callback(state, screen_size_px);
    assert forall|i: int| 0 <= i < commands.len() implies !(#[trigger] commands[i] is Callback) by {
        if i >= 3 {
            assert(commands[i] == prepare[i - 3]);
        }
    }
}

/// Setting the fixed state runs nothing of the host's.
proof fn lemma_prepare_runs_no_callback(state: PainterState, screen_size_px: [u32; 2])
    ensures
        forall|i: int|
            0 <= i < state.prepare_commands(screen_size_px).len() ==> !(#[trigger] state.prepare_commands(
                screen_size_px,
            )[i] is Callback),
{
    let prepare = state.prepare_commands(screen_size_px);
    assert(prepare.len() == if state.supports_srgb_framebuffer {
        15nat
    } else {
        14nat
    });
}

/// A valid mesh whose texture the painter does not hold gives one scissor
/// call and one report, and no other call: nothing is bound, uploaded or
/// drawn for it.
pub proof fn law_missing_texture_draws_nothing(
    state: PainterState,
    screen_size_px: [u32; 2],
    index: usize,
    clipped: ClippedPrimitive,
)
    requires
        clipped.primitive is Mesh,
        clipped.primitive->Mesh_0.spec_is_valid(),
        !state.textures.contains_key(clipped.primitive->Mesh_0.texture_id),
    ensures
        state.primitive_commands(screen_size_px, index, clipped) == seq![
            scissor_command(screen_size_px, clipped.clip_rect),
            Command::Report(Diagnostic::MissingTexture(clipped.primitive->Mesh_0.texture_id)),
        ],
{
    assert(state.primitive_commands(screen_size_px, index, clipped) =~= seq![
        scissor_command(screen_size_px, clipped.clip_rect),
        Command::Report(Diagnostic::MissingTexture(clipped.primitive->Mesh_0.texture_id)),
    ]);
}

impl PainterState {
    /// What the painter does with the primitives from position `from` up to
    /// position `to`, in their order.
    pub open spec fn primitives_commands_between(
        self,
        screen_size_px: [u32; 2],
        primitives: Seq<ClippedPrimitive>,
        from: nat,
        to: nat,
    ) -> Seq<Command>
        decreases to,
    {
        if to <= from {
            Seq::empty()
        } else {
            self.primitives_commands_between(screen_size_px, primitives, from, (to - 1) as nat)
                + self.primitive_commands(screen_size_px, (to - 1) as usize, primitives[to - 1])
        }
    }
}

/// What the painter does with the first primitives of a frame is what it
/// does with fewer of them, followed by what it does with the others.
pub proof fn law_primitives_in_order(
    state: PainterState,
    screen_size_px: [u32; 2],
    primitives: Seq<ClippedPrimitive>,
    from: nat,
    to: nat,
)
    requires
        from <= to,
    ensures
        state.primitives_commands(screen_size_px, primitives, to) == state.primitives_commands(
            screen_size_px,
            primitives,
            from,
        ) + state.primitives_commands_between(screen_size_px, primitives, from, to),
    decreases to,
{
    if from < to {
        law_primitives_in_order(state, screen_size_px, primitives, from, (to - 1) as nat);
        let head = state.primitives_commands(screen_size_px, primitives, from);
        let middle = state.primitives_commands_between(screen_size_px, primitives, from, (to - 1) as nat);
        let last = state.primitive_commands(screen_size_px, (to - 1) as usize, primitives[to - 1]);
        assert(head + middle + last =~= head + (middle + last));
    } else {
        let head = state.primitives_commands(screen_size_px, primitives, from);
        assert(head + Seq::<Command>::empty() =~= head);
    }
}

/// What the painter does with the primitives after position `position` does
/// not depend on the primitive at that position: a mesh that is skipped
/// there, or anything else, leaves the later ones as they are.
pub proof fn law_later_primitives_unaffected(
    state: PainterState,
    screen_size_px: [u32; 2],
    primitives: Seq<ClippedPrimitive>,
    position: int,
    other: ClippedPrimitive,
    to: nat,
)
    requires
        0 <= position < primitives.len(),
        to <= primitives.len(),
    ensures
        state.primitives_commands_between(
            screen_size_px,
            primitives.update(position, other),
            (position + 1) as nat,
            to,
        ) == state.primitives_commands_between(screen_size_px, primitives, (position + 1) as nat, to),
    decreases to,
{
    if to > position + 1 {
        law_later_primitives_unaffected(state, screen_size_px, primitives, position, other, (to - 1) as nat);
    }
}

/// Once torn down, the painter stays so: whatever image it is offered, the
/// answer is that it is destroyed, a second teardown leaves it as the first
/// did, and teardown touches nothing but the mark that it has happened.
pub proof fn law_destroyed_stays_destroyed(state: PainterState, delta: ImageDelta)
    ensures
        state.destroy().destroyed,
        state.destroy().upload_violation(delta) == Some(ContractViolation::Destroyed),
        state.destroy().destroy() == state.destroy(),
        state.destroy().textures == state.textures,
        state.destroy().textures_to_destroy == state.textures_to_destroy,
        state.destroy().next_native_tex_id == state.next_native_tex_id,
{
}

/// Teardown deletes every texture of the table and every displaced texture,
/// the program and both buffers, each once, and nothing else.
pub proof fn law_teardown_deletes_everything(state: PainterState, commands: Seq<Command>)
    requires
        state.wf(),
        state.is_teardown(commands),
    ensures
        commands.len() == 3 + state.textures.dom().len() + state.textures_to_destroy.len(),
        commands[0] == Command::DeleteProgram(state.objects.program),
        forall|id: TextureId|
            state.textures.contains_key(id) ==> commands.contains(Command::DeleteTexture(state.textures[id])),
        forall|i: int|
            0 <= i < state.textures_to_destroy.len() ==> commands.contains(
                Command::DeleteTexture(#[trigger] state.textures_to_destroy[i]),
            ),
        commands.contains(Command::DeleteBuffer(state.objects.vbo)),
        commands.contains(Command::DeleteBuffer(state.objects.element_array_buffer)),
{
    let order = choose|order: Seq<TextureId>|
        crate::table::enumerates(order, state.textures.dom()) && commands == #[trigger] state.teardown_commands(
            order,
        );
    let deletes = order.map_values(|id: TextureId| Command::DeleteTexture(state.textures[id]));
    let pending = state.textures_to_destroy.map_values(|t: glow::Texture| Command::DeleteTexture(t));
    assert(order.len() == state.textures.dom().len()) by {
        order.unique_seq_to_set();
        assert(order.to_set() =~= state.textures.dom());
    }
    let n = order.len() as int;
    assert(commands.len() == 3 + n + pending.len());
    assert forall|id: TextureId| state.textures.contains_key(id) implies commands.contains(
        Command::DeleteTexture(state.textures[id]),
    ) by {
        assert(order.contains(id));
        let j = choose|j: int| 0 <= j < order.len() && order[j] == id;
        assert(commands[1 + j] == deletes[j]);
    }
    assert forall|i: int| 0 <= i < state.textures_to_destroy.len() implies commands.contains(
        Command::DeleteTexture(#[trigger] state.textures_to_destroy[i]),
    ) by {
        assert(commands[3 + n + i] == pending[i]);
    }
    assert(commands[1 + n] == Command::DeleteBuffer(state.objects.vbo));
    assert(commands[2 + n] == Command::DeleteBuffer(state.objects.element_array_buffer));
}

/// Two textures that the host registers one after the other get different
/// identifiers of the host's kind, the second numbered one above the first,
/// and neither number is one that the toolkit uses for its own textures.
pub proof fn law_native_ids_rise(state: PainterState, first: glow::Texture, second: glow::Texture)
    requires
        state.wf(),
        state.next_native_tex_id + 1 < u64::MAX,
    ensures
        state.next_native_id() is User,
        state.register_native_texture(first).next_native_id() is User,
        state.next_native_id()->User_0 >= FIRST_NATIVE_TEXTURE_ID,
        state.register_native_texture(first).next_native_id()->User_0 == state.next_native_id()->User_0 + 1,
        state.next_native_id() != state.register_native_texture(first).next_native_id(),
        state.register_native_texture(first).register_native_texture(second).textures[state.next_native_id()]
            == first,
        state.register_native_texture(first).register_native_texture(
            second,
        ).textures[state.register_native_texture(first).next_native_id()] == second,
        state.register_native_texture(first).register_native_texture(second).wf(),
{
}

} // verus!
