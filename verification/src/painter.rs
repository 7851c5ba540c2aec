//! The painter: the GPU objects it owns, its texture table, and its life
//! from construction to teardown.

use vstd::prelude::*;
use crate::command::{Command, Diagnostic};
use crate::gl;
use crate::shader_version::ShaderVersion;
use crate::table::{enumerates, TextureTable};
use crate::texture::{texture_formats, upload_commands, ImageDelta, TextureId};

verus! {

/// The number of the first identifier given to a host-registered texture.
/// The toolkit numbers its own textures from zero and stays far below.
pub const FIRST_NATIVE_TEXTURE_ID: u64 = 0x1_0000_0000;

/// The objects that the host created on the context for the painter.
#[derive(Clone, Copy, Debug, PartialEq, Eq)]
pub struct GpuObjects {
    pub program: glow::Program,
    pub u_screen_size: glow::UniformLocation,
    pub u_sampler: glow::UniformLocation,
    pub vbo: glow::Buffer,
    pub element_array_buffer: glow::Buffer,
}

/// A misuse of the painter by its caller.
#[derive(Clone, Copy, Debug, PartialEq, Eq, Structural)]
pub enum ContractViolation {
    /// The painter has been destroyed.
    Destroyed,
    /// The pixel data is not four bytes for each texel of the image.
    TexelCountMismatch,
    /// A side of the image is longer than the context supports.
    TextureTooLarge,
}

/// Hands out the identifiers of host-registered textures, in rising order.
pub(crate) struct NativeTextureIds {
    pub(crate) next: u64,
}

impl NativeTextureIds {
    /// No number of the toolkit's range is ever handed out.
    #[verifier::type_invariant]
    pub(crate) open spec fn above_managed_range(self) -> bool {
        self.next >= FIRST_NATIVE_TEXTURE_ID
    }

    /// The number that the next registration gets.
    pub(crate) open spec fn next(&self) -> u64 {
        self.next
    }

    fn new() -> (ids: NativeTextureIds)
        ensures
            ids.next() == FIRST_NATIVE_TEXTURE_ID,
    {
        NativeTextureIds { next: FIRST_NATIVE_TEXTURE_ID }
    }

    fn peek(&self) -> (n: u64)
        ensures
            n == self.next(),
            n >= FIRST_NATIVE_TEXTURE_ID,
    {
        proof {
            use_type_invariant(self);
        }
        self.next
    }

    fn take(&mut self) -> (n: u64)
        requires
            old(self).next() < u64::MAX,
        ensures
            n == old(self).next(),
            n >= FIRST_NATIVE_TEXTURE_ID,
            final(self).next() == n + 1,
    {
        proof {
            use_type_invariant(&*self);
        }
        let n: u64 = self.next;
        self.next = n + 1;
        n
    }
}

/// How textures are stored. The toolkit's colours are not linear and its
/// textures are stored as they come, never in an sRGB-aware format.
pub(crate) struct TextureStorage {
    pub(crate) srgb_textures: bool,
}

impl TextureStorage {
    /// sRGB-aware storage is never asked for.
    #[verifier::type_invariant]
    pub(crate) open spec fn srgb_unaware(self) -> bool {
        !self.srgb_textures
    }

    fn new() -> (storage: TextureStorage)
        ensures
            !storage.srgb_textures,
    {
        TextureStorage { srgb_textures: false }
    }

    fn srgb_textures(&self) -> (srgb: bool)
        ensures
            srgb == self.srgb_textures,
            !srgb,
    {
        proof {
            use_type_invariant(self);
        }
        self.srgb_textures
    }
}

/// What a painter is, as far as its contracts speak of it.
#[verifier::ext_equal]
pub struct PainterState {
    pub max_texture_side: usize,
    pub is_webgl_1: bool,
    pub srgb_textures: bool,
    pub supports_srgb_framebuffer: bool,
    pub objects: GpuObjects,
    /// The texture table.
    pub textures: Map<TextureId, glow::Texture>,
    pub next_native_tex_id: u64,
    /// Displaced textures that wait for teardown, oldest first.
    pub textures_to_destroy: Seq<glow::Texture>,
    pub destroyed: bool,
}

impl PainterState {
    /// Holds of every painter: the table is finite, no host-registered
    /// texture gets a number of the toolkit's range, and textures are not
    /// stored in an sRGB-aware format.
    pub open spec fn wf(self) -> bool {
        &&& self.textures.dom().finite()
        &&& self.next_native_tex_id >= FIRST_NATIVE_TEXTURE_ID
        &&& !self.srgb_textures
    }

    /// Why the painter must not be asked to take `delta`, if it must not.
    pub open spec fn upload_violation(self, delta: ImageDelta) -> Option<ContractViolation> {
        if self.destroyed {
            Some(ContractViolation::Destroyed)
        } else if !delta.spec_is_packed() {
            Some(ContractViolation::TexelCountMismatch)
        } else if !delta.spec_fits(self.max_texture_side) {
            Some(ContractViolation::TextureTooLarge)
        } else {
            None
        }
    }

    /// The texture that an upsert of `tex_id` writes to: the one in the
    /// table, or `fresh` where the table has none.
    pub open spec fn upsert_target(self, tex_id: TextureId, fresh: Option<glow::Texture>) -> glow::Texture {
        if self.textures.contains_key(tex_id) {
            self.textures[tex_id]
        } else {
            fresh->0
        }
    }

    /// The painter after an upsert of `tex_id`.
    pub open spec fn set_texture(self, tex_id: TextureId, fresh: Option<glow::Texture>) -> PainterState {
        PainterState { textures: self.textures.insert(tex_id, self.upsert_target(tex_id, fresh)), ..self }
    }

    /// The calls of an upsert of `tex_id` with `delta`: the target is bound,
    /// then the delta is brought onto it.
    pub open spec fn set_texture_commands(
        self,
        tex_id: TextureId,
        delta: ImageDelta,
        fresh: Option<glow::Texture>,
    ) -> Seq<Command> {
        seq![Command::BindTexture { target: gl::TEXTURE_2D, texture: self.upsert_target(tex_id, fresh) }]
            + upload_commands(self.is_webgl_1, self.srgb_textures, delta)
    }

    /// The painter after `tex_id` is freed.
    pub open spec fn free_texture(self, tex_id: TextureId) -> PainterState {
        PainterState { textures: self.textures.remove(tex_id), ..self }
    }

    /// The calls that free `tex_id`: its texture is deleted, if it has one.
    pub open spec fn free_texture_commands(self, tex_id: TextureId) -> Seq<Command> {
        if self.textures.contains_key(tex_id) {
            seq![Command::DeleteTexture(self.textures[tex_id])]
        } else {
            Seq::empty()
        }
    }

    /// The identifier that the next host-registered texture gets.
    pub open spec fn next_native_id(self) -> TextureId {
        TextureId::User(self.next_native_tex_id)
    }

    /// The painter after the host registered `native`.
    pub open spec fn register_native_texture(self, native: glow::Texture) -> PainterState {
        PainterState {
            textures: self.textures.insert(self.next_native_id(), native),
            next_native_tex_id: (self.next_native_tex_id + 1) as u64,
            ..self
        }
    }

    /// The painter after `replacing` took the place of the texture of `id`:
    /// the displaced texture is not deleted but waits for teardown.
    pub open spec fn replace_native_texture(self, id: TextureId, replacing: glow::Texture) -> PainterState {
        PainterState {
            textures: self.textures.insert(id, replacing),
            textures_to_destroy: if self.textures.contains_key(id) {
                self.textures_to_destroy.push(self.textures[id])
            } else {
                self.textures_to_destroy
            },
            ..self
        }
    }

    /// The painter after teardown.
    pub open spec fn destroy(self) -> PainterState {
        PainterState { destroyed: true, ..self }
    }

    /// The calls of a teardown that deletes the table's textures in `order`:
    /// the program, those textures, the two buffers, then the displaced
    /// textures, oldest first.
    pub open spec fn teardown_commands(self, order: Seq<TextureId>) -> Seq<Command> {
        seq![Command::DeleteProgram(self.objects.program)]
            + order.map_values(|id: TextureId| Command::DeleteTexture(self.textures[id]))
            + seq![
                Command::DeleteBuffer(self.objects.vbo),
                Command::DeleteBuffer(self.objects.element_array_buffer),
            ]
            + self.textures_to_destroy.map_values(|t: glow::Texture| Command::DeleteTexture(t))
    }

    /// `commands` is a teardown of this painter. The order in which the
    /// table's textures go is left open, the rest is not.
    pub open spec fn is_teardown(self, commands: Seq<Command>) -> bool {
        exists|order: Seq<TextureId>|
            enumerates(order, self.textures.dom()) && commands == #[trigger] self.teardown_commands(order)
    }
}

/// Paints the toolkit's output and looks after the textures it needs.
///
/// A painter must be destroyed with [`Painter::destroy`] before it is
/// discarded, or the objects it owns stay on the context.
pub struct Painter {
    pub(crate) max_texture_side: usize,
    pub(crate) is_webgl_1: bool,
    pub(crate) storage: TextureStorage,
    pub(crate) supports_srgb_framebuffer: bool,
    pub(crate) objects: GpuObjects,
    pub(crate) textures: TextureTable,
    pub(crate) native_ids: NativeTextureIds,
    /// Outdated textures that are yet to be deleted.
    pub(crate) textures_to_destroy: Vec<glow::Texture>,
    /// Set by teardown, and never cleared.
    pub(crate) destroyed: bool,
}

impl View for Painter {
    type V = PainterState;

    open(crate) spec fn view(&self) -> PainterState {
        PainterState {
            max_texture_side: self.max_texture_side,
            is_webgl_1: self.is_webgl_1,
            srgb_textures: self.storage.srgb_textures,
            supports_srgb_framebuffer: self.supports_srgb_framebuffer,
            objects: self.objects,
            textures: self.textures@,
            next_native_tex_id: self.native_ids.next(),
            textures_to_destroy: self.textures_to_destroy@,
            destroyed: self.destroyed,
        }
    }
}

impl Painter {
    /// A live painter with an empty texture table, for a context of which
    /// `max_texture_side`, `shader_version` and `supports_srgb_framebuffer`
    /// hold, around the objects that the host created on it.
    pub fn new(
        max_texture_side: usize,
        shader_version: ShaderVersion,
        supports_srgb_framebuffer: bool,
        objects: GpuObjects,
    ) -> (painter: Painter)
        ensures
            painter@ == (PainterState {
                max_texture_side,
                is_webgl_1: shader_version == ShaderVersion::Es100,
                srgb_textures: false,
                supports_srgb_framebuffer,
                objects,
                textures: Map::empty(),
                next_native_tex_id: FIRST_NATIVE_TEXTURE_ID,
                textures_to_destroy: Seq::empty(),
                destroyed: false,
            }),
            painter@.wf(),
    {
        let is_webgl_1 = match shader_version {
            ShaderVersion::Es100 => true,
            _ => false,
        };
        Painter {
            max_texture_side,
            is_webgl_1,
            storage: TextureStorage::new(),
            supports_srgb_framebuffer,
            objects,
            textures: TextureTable::new(),
            native_ids: NativeTextureIds::new(),
            textures_to_destroy: Vec::new(),
            destroyed: false,
        }
    }

    pub fn max_texture_side(&self) -> (side: usize)
        ensures
            side == self@.max_texture_side,
    {
        self.max_texture_side
    }

    /// The framebuffer that render callbacks draw onto, or `None` where the
    /// painter draws to the screen directly, which it always does.
    pub fn intermediate_fbo(&self) -> (fbo: Option<glow::Framebuffer>)
        ensures
            fbo is None,
    {
        None
    }

    /// Whether teardown has happened.
    pub fn is_destroyed(&self) -> (destroyed: bool)
        ensures
            destroyed == self@.destroyed,
    {
        self.destroyed
    }

    /// The texture object bound to `texture_id`.
    pub fn texture(&self, texture_id: TextureId) -> (texture: Option<glow::Texture>)
        ensures
            texture == self@.textures.get(texture_id),
    {
        self.textures.get(texture_id)
    }
}

impl Painter {
    /// The calls that bring `delta` onto the texture that is bound.
    ///
    /// The pixel data must be four bytes for each texel, and neither side of
    /// the image longer than the context supports.
    pub fn upload_texture_srgb(&self, delta: &ImageDelta) -> (commands: Vec<Command>)
        requires
            delta.spec_is_packed(),
            delta.spec_fits(self@.max_texture_side),
        ensures
            commands@ == upload_commands(self@.is_webgl_1, self@.srgb_textures, *delta),
            self@.wf(),
    {
        proof {
            self.textures.lemma_finite();
            use_type_invariant(&self.native_ids);
            use_type_invariant(&self.storage);
        }
        let options = delta.options;
        let mut commands: Vec<Command> = Vec::new();
        commands.push(
            Command::TexParameterI32 {
                target: gl::TEXTURE_2D,
                parameter: gl::TEXTURE_MAG_FILTER,
                value: options.magnification.glow_code(None) as i32,
            },
        );
        commands.push(
            Command::TexParameterI32 {
                target: gl::TEXTURE_2D,
                parameter: gl::TEXTURE_MIN_FILTER,
                value: options.minification.glow_code(options.mipmap_mode) as i32,
            },
        );
        commands.push(
            Command::TexParameterI32 {
                target: gl::TEXTURE_2D,
                parameter: gl::TEXTURE_WRAP_S,
                value: options.wrap_mode.glow_code() as i32,
            },
        );
        commands.push(
            Command::TexParameterI32 {
                target: gl::TEXTURE_2D,
                parameter: gl::TEXTURE_WRAP_T,
                value: options.wrap_mode.glow_code() as i32,
            },
        );

        let formats = texture_formats(self.is_webgl_1, self.storage.srgb_textures());

        // The pixels are packed: a row starts where the one before it ends.
        commands.push(Command::PixelStoreI32 { parameter: gl::UNPACK_ALIGNMENT, value: 1 });

        let width: i32 = #[verifier::truncate]
        (delta.size[0] as i32);
        let height: i32 = #[verifier::truncate]
        (delta.size[1] as i32);
        match delta.pos {
            Some(pos) => {
                let x_offset: i32 = #[verifier::truncate]
                (pos[0] as i32);
                let y_offset: i32 = #[verifier::truncate]
                (pos[1] as i32);
                commands.push(
                    Command::TexSubImage2d {
                        target: gl::TEXTURE_2D,
                        level: 0,
                        x_offset,
                        y_offset,
                        width,
                        height,
                        format: formats.1,
                        ty: gl::UNSIGNED_BYTE,
                    },
                );
            },
            None => {
                commands.push(
                    Command::TexImage2d {
                        target: gl::TEXTURE_2D,
                        level: 0,
                        internal_format: formats.0 as i32,
                        width,
                        height,
                        border: 0,
                        format: formats.1,
                        ty: gl::UNSIGNED_BYTE,
                    },
                );
            },
        }

        if options.mipmap_mode.is_some() {
            commands.push(Command::GenerateMipmap(gl::TEXTURE_2D));
        }
        assert(commands@ =~= upload_commands(self@.is_webgl_1, self@.srgb_textures, *delta));
        commands
    }

    /// Says whether the painter may be asked to take `delta`, and if not, why
    /// not: it is destroyed, or the pixel data is not exactly four bytes for
    /// each texel, or the image is too large, in this order.
    pub fn check_set_texture(&self, delta: &ImageDelta) -> (verdict: Result<(), ContractViolation>)
        ensures
            verdict == match self@.upload_violation(*delta) {
                Some(violation) => Err::<(), ContractViolation>(violation),
                None => Ok(()),
            },
    {
        if self.destroyed {
            Err(ContractViolation::Destroyed)
        } else if !delta.is_packed() {
            Err(ContractViolation::TexelCountMismatch)
        } else if !delta.fits(self.max_texture_side) {
            Err(ContractViolation::TextureTooLarge)
        } else {
            Ok(())
        }
    }

    /// Says whether the painter may still be used: it may until it is
    /// destroyed.
    pub fn check_not_destroyed(&self) -> (verdict: Result<(), ContractViolation>)
        ensures
            verdict == (if self@.destroyed {
                Err::<(), ContractViolation>(ContractViolation::Destroyed)
            } else {
                Ok(())
            }),
    {
        if self.destroyed {
            Err(ContractViolation::Destroyed)
        } else {
            Ok(())
        }
    }

    /// Upserts the texture of `tex_id` from `delta`.
    ///
    /// Where `tex_id` has no texture yet, `fresh` is a texture object that
    /// the host has just created, and it becomes the texture of `tex_id`.
    /// Where it has one, that one is written to and `fresh` is `None`.
    pub fn set_texture(
        &mut self,
        tex_id: TextureId,
        delta: &ImageDelta,
        fresh: Option<glow::Texture>,
    ) -> (commands: Vec<Command>)
        requires
            old(self)@.upload_violation(*delta) is None,
            fresh is Some <==> !old(self)@.textures.contains_key(tex_id),
        ensures
            final(self)@ == old(self)@.set_texture(tex_id, fresh),
            final(self)@.wf(),
            commands@ == old(self)@.set_texture_commands(tex_id, *delta, fresh),
    {
        let glow_texture = match self.textures.get(tex_id) {
            Some(texture) => texture,
            None => {
                let texture = fresh.unwrap();
                self.textures.insert(tex_id, texture);
                texture
            },
        };
        let mut commands: Vec<Command> = Vec::new();
        commands.push(Command::BindTexture { target: gl::TEXTURE_2D, texture: glow_texture });
        let mut upload = self.upload_texture_srgb(delta);
        commands.append(&mut upload);
        assert(self@.textures =~= old(self)@.set_texture(tex_id, fresh).textures);
        assert(commands@ =~= old(self)@.set_texture_commands(tex_id, *delta, fresh));
        proof {
            self.textures.lemma_finite();
            use_type_invariant(&self.native_ids);
            use_type_invariant(&self.storage);
        }
        commands
    }

    /// Frees the texture of `tex_id`; does nothing where it has none.
    pub fn free_texture(&mut self, tex_id: TextureId) -> (commands: Vec<Command>)
        requires
            !old(self)@.destroyed,
        ensures
            final(self)@ == old(self)@.free_texture(tex_id),
            final(self)@.wf(),
            commands@ == old(self)@.free_texture_commands(tex_id),
    {
        let mut commands: Vec<Command> = Vec::new();
        if let Some(old_tex) = self.textures.remove(tex_id) {
            commands.push(Command::DeleteTexture(old_tex));
        }
        assert(commands@ =~= old(self)@.free_texture_commands(tex_id));
        proof {
            self.textures.lemma_finite();
            use_type_invariant(&self.native_ids);
            use_type_invariant(&self.storage);
        }
        commands
    }

    /// Whether one more texture of the host can be registered: whether a
    /// number is left for it.
    pub fn native_ids_left(&self) -> (left: bool)
        ensures
            left == (self@.next_native_tex_id < u64::MAX),
    {
        self.native_ids.peek() < u64::MAX
    }

    /// Registers a texture that the host created, under a new identifier.
    pub fn register_native_texture(&mut self, native: glow::Texture) -> (id: TextureId)
        requires
            !old(self)@.destroyed,
            old(self)@.next_native_tex_id < u64::MAX,
        ensures
            id == old(self)@.next_native_id(),
            final(self)@ == old(self)@.register_native_texture(native),
            final(self)@.wf(),
    {
        let id = TextureId::User(self.native_ids.take());
        self.textures.insert(id, native);
        proof {
            self.textures.lemma_finite();
            use_type_invariant(&self.native_ids);
            use_type_invariant(&self.storage);
        }
        id
    }

    /// Lets `replacing` take the place of the texture of `id`. A texture
    /// that it displaces may still be in use by calls of this frame: it is
    /// kept, and deleted at teardown.
    pub fn replace_native_texture(&mut self, id: TextureId, replacing: glow::Texture)
        requires
            !old(self)@.destroyed,
        ensures
            final(self)@ == old(self)@.replace_native_texture(id, replacing),
            final(self)@.wf(),
    {
        if let Some(old_tex) = self.textures.insert(id, replacing) {
            self.textures_to_destroy.push(old_tex);
        }
        proof {
            self.textures.lemma_finite();
            use_type_invariant(&self.native_ids);
            use_type_invariant(&self.storage);
        }
    }

    /// The calls that delete every object that the painter owns.
    pub fn destroy_gl(&self) -> (commands: Vec<Command>)
        ensures
            self@.is_teardown(commands@),
    {
        let mut commands: Vec<Command> = Vec::new();
        commands.push(Command::DeleteProgram(self.objects.program));
        let ids = self.textures.ids();
        let mut i: usize = 0;
        while i < ids.len()
            invariant
                i <= ids@.len(),
                enumerates(ids@, self@.textures.dom()),
                commands@ == seq![Command::DeleteProgram(self@.objects.program)] + ids@.take(i as int).map_values(
                    |id: TextureId| Command::DeleteTexture(self@.textures[id]),
                ),
            decreases ids@.len() - i,
        {
            assert(ids@.contains(ids@[i as int]));
            let texture = self.textures.get(ids[i]).unwrap();
            commands.push(Command::DeleteTexture(texture));
            assert(ids@.take(i + 1) == ids@.take(i as int).push(ids@[i as int]));
            i = i + 1;
        }
        assert(ids@.take(i as int) == ids@);
        commands.push(Command::DeleteBuffer(self.objects.vbo));
        commands.push(Command::DeleteBuffer(self.objects.element_array_buffer));
        let ghost before = commands@;
        let mut j: usize = 0;
        while j < self.textures_to_destroy.len()
            invariant
                j <= self.textures_to_destroy@.len(),
                commands@ == before + self@.textures_to_destroy.take(j as int).map_values(
                    |t: glow::Texture| Command::DeleteTexture(t),
                ),
            decreases self.textures_to_destroy@.len() - j,
        {
            commands.push(Command::DeleteTexture(self.textures_to_destroy[j]));
            assert(self@.textures_to_destroy.take(j + 1) == self@.textures_to_destroy.take(j as int).push(
                self@.textures_to_destroy[j as int],
            ));
            j = j + 1;
        }
        assert(self@.textures_to_destroy.take(j as int) == self@.textures_to_destroy);
        assert(commands@ =~= self@.teardown_commands(ids@));
        commands
    }

    /// Tears the painter down: deletes the program, every texture of the
    /// table, the two buffers and every displaced texture. A second teardown
    /// does nothing.
    pub fn destroy(&mut self) -> (commands: Vec<Command>)
        ensures
            final(self)@ == old(self)@.destroy(),
            final(self)@.wf(),
            old(self)@.destroyed ==> commands@ == Seq::<Command>::empty(),
            !old(self)@.destroyed ==> old(self)@.is_teardown(commands@),
    {
        proof {
            self.textures.lemma_finite();
            use_type_invariant(&self.native_ids);
            use_type_invariant(&self.storage);
        }
        if !self.destroyed {
            let commands = self.destroy_gl();
            self.destroyed = true;
            commands
        } else {
            Vec::new()
        }
    }

    /// Upserts the texture of `tex_id` from `delta` if the painter may take
    /// it. A painter that is destroyed, or a delta whose pixel data or size
    /// is wrong, is refused: no call is planned and the painter stays as it
    /// is. `fresh` is as for [`Painter::set_texture`] where the delta is
    /// taken; where it is refused, nothing is asked of `fresh`.
    pub fn try_set_texture(
        &mut self,
        tex_id: TextureId,
        delta: &ImageDelta,
        fresh: Option<glow::Texture>,
    ) -> (outcome: Result<Vec<Command>, ContractViolation>)
        requires
            old(self)@.upload_violation(*delta) is None ==> (fresh is Some <==> !old(self)@.textures.contains_key(
                tex_id,
            )),
        ensures
            final(self)@.wf(),
            old(self)@.upload_violation(*delta) matches Some(violation) ==> outcome is Err && outcome->Err_0
                == violation && final(self)@ == old(self)@,
            old(self)@.upload_violation(*delta) is None ==> outcome is Ok && outcome->Ok_0@ == old(self)@.set_texture_commands(tex_id, *delta, fresh) && final(self)@ == old(self)@.set_texture(
                tex_id,
                fresh,
            ),
    {
        proof {
            self.textures.lemma_finite();
            use_type_invariant(&self.native_ids);
            use_type_invariant(&self.storage);
        }
        match self.check_set_texture(delta) {
            Err(violation) => Err(violation),
            Ok(()) => Ok(self.set_texture(tex_id, delta, fresh)),
        }
    }

    /// Frees the texture of `tex_id` if the painter is live. A destroyed
    /// painter refuses: it deletes nothing and stays as it is.
    pub fn try_free_texture(&mut self, tex_id: TextureId) -> (outcome: Result<Vec<Command>, ContractViolation>)
        ensures
            final(self)@.wf(),
            old(self)@.destroyed ==> outcome is Err && outcome->Err_0 == ContractViolation::Destroyed && final(self)@ == old(self)@,
            !old(self)@.destroyed ==> outcome is Ok && outcome->Ok_0@ == old(self)@.free_texture_commands(
                tex_id,
            ) && final(self)@ == old(self)@.free_texture(tex_id),
    {
        proof {
            self.textures.lemma_finite();
            use_type_invariant(&self.native_ids);
            use_type_invariant(&self.storage);
        }
        if self.destroyed {
            Err(ContractViolation::Destroyed)
        } else {
            Ok(self.free_texture(tex_id))
        }
    }

    /// Registers a texture of the host if the painter is live. A destroyed
    /// painter refuses: it hands out no identifier and stays as it is.
    pub fn try_register_native_texture(&mut self, native: glow::Texture) -> (outcome: Result<
        TextureId,
        ContractViolation,
    >)
        requires
            old(self)@.next_native_tex_id < u64::MAX,
        ensures
            final(self)@.wf(),
            old(self)@.destroyed ==> outcome is Err && outcome->Err_0 == ContractViolation::Destroyed && final(self)@ == old(self)@,
            !old(self)@.destroyed ==> outcome is Ok && outcome->Ok_0 == old(self)@.next_native_id() && final(self)@ == old(self)@.register_native_texture(native),
    {
        proof {
            self.textures.lemma_finite();
            use_type_invariant(&self.native_ids);
            use_type_invariant(&self.storage);
        }
        if self.destroyed {
            Err(ContractViolation::Destroyed)
        } else {
            Ok(self.register_native_texture(native))
        }
    }

    /// Replaces the texture of `id` if the painter is live. A destroyed
    /// painter refuses: it queues nothing for a teardown that is over, and
    /// stays as it is.
    pub fn try_replace_native_texture(&mut self, id: TextureId, replacing: glow::Texture) -> (outcome: Result<
        (),
        ContractViolation,
    >)
        ensures
            final(self)@.wf(),
            old(self)@.destroyed ==> outcome is Err && outcome->Err_0 == ContractViolation::Destroyed && final(self)@ == old(self)@,
            !old(self)@.destroyed ==> outcome is Ok && final(self)@ == old(self)@.replace_native_texture(
                id,
                replacing,
            ),
    {
        proof {
            self.textures.lemma_finite();
            use_type_invariant(&self.native_ids);
            use_type_invariant(&self.storage);
        }
        if self.destroyed {
            Err(ContractViolation::Destroyed)
        } else {
            self.replace_native_texture(id, replacing);
            Ok(())
        }
    }

    /// What there is to report when the painter is discarded: that its
    /// objects leak, unless it has been destroyed.
    pub fn on_drop(&self) -> (report: Option<Diagnostic>)
        ensures
            report == (if self@.destroyed {
                None
            } else {
                Some(Diagnostic::ResourcesLeaked)
            }),
    {
        if !self.destroyed {
            Some(Diagnostic::ResourcesLeaked)
        } else {
            None
        }
    }
}

} // verus!
