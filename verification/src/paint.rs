//! Painting a frame: the fixed state of the context, then for each primitive
//! its scissor rectangle and either a draw call or a render callback.

use vstd::prelude::*;
use crate::command::{Command, Diagnostic, MeshData};
use crate::gl;
use crate::painter::{ContractViolation, Painter, PainterState};
use crate::primitive::{ClippedPrimitive, Mesh, PaintCallback, Primitive};
use crate::scissor::{scissor_command, set_clip_rect, target_fits};

verus! {

impl PainterState {
    /// The fixed state that the painter draws in, for a target of
    /// `screen_size_px`: scissoring on, culling and depth test off, every
    /// colour channel written, blending for premultiplied alpha, the
    /// sRGB-aware output path off where the context has one, the viewport on
    /// the whole target, the painter's program with both uniforms set, its
    /// vertex layout and its index buffer bound.
    pub open spec fn prepare_commands(self, screen_size_px: [u32; 2]) -> Seq<Command> {
        let blend = seq![
            Command::Enable(gl::SCISSOR_TEST),
            Command::Disable(gl::CULL_FACE),
            Command::Disable(gl::DEPTH_TEST),
            Command::ColorMask { red: true, green: true, blue: true, alpha: true },
            Command::Enable(gl::BLEND),
            Command::BlendEquationSeparate { mode_rgb: gl::FUNC_ADD, mode_alpha: gl::FUNC_ADD },
            Command::BlendFuncSeparate {
                src_rgb: gl::ONE,
                dst_rgb: gl::ONE_MINUS_SRC_ALPHA,
                src_alpha: gl::ONE_MINUS_DST_ALPHA,
                dst_alpha: gl::ONE,
            },
        ];
        let srgb = if self.supports_srgb_framebuffer {
            blend.push(Command::Disable(gl::FRAMEBUFFER_SRGB))
        } else {
            blend
        };
        srgb.push(
            Command::Viewport {
                x: 0,
                y: 0,
                width: screen_size_px@[0] as i32,
                height: screen_size_px@[1] as i32,
            },
        ).push(Command::UseProgram(self.objects.program)).push(
            Command::ScreenSizeUniform {
                location: self.objects.u_screen_size,
                width_px: screen_size_px@[0],
                height_px: screen_size_px@[1],
            },
        ).push(Command::Uniform1I32 { location: self.objects.u_sampler, value: 0 }).push(
            Command::ActiveTexture(gl::TEXTURE0),
        ).push(Command::BindVertexLayout).push(
            Command::BindBuffer {
                target: gl::ELEMENT_ARRAY_BUFFER,
                buffer: Some(self.objects.element_array_buffer),
            },
        )
    }

    /// The calls that draw the mesh at position `index` with `texture`: both
    /// shared buffers are filled anew, for one use, the texture is bound, and
    /// all the mesh's indices are drawn as triangles.
    pub open spec fn draw_commands(self, index: usize, mesh: Mesh, texture: glow::Texture) -> Seq<
        Command,
    > {
        seq![
            Command::BindBuffer { target: gl::ARRAY_BUFFER, buffer: Some(self.objects.vbo) },
            Command::BufferData {
                target: gl::ARRAY_BUFFER,
                primitive: index,
                data: MeshData::Vertices,
                usage: gl::STREAM_DRAW,
            },
            Command::BindBuffer {
                target: gl::ELEMENT_ARRAY_BUFFER,
                buffer: Some(self.objects.element_array_buffer),
            },
            Command::BufferData {
                target: gl::ELEMENT_ARRAY_BUFFER,
                primitive: index,
                data: MeshData::Indices,
                usage: gl::STREAM_DRAW,
            },
            Command::BindTexture { target: gl::TEXTURE_2D, texture },
            Command::DrawElements {
                mode: gl::TRIANGLES,
                count: mesh.indices.len() as i32,
                element_type: gl::UNSIGNED_INT,
                offset: 0,
            },
        ]
    }

    /// What the painter does with the mesh at position `index`. A mesh that
    /// is not valid, or whose texture the painter does not hold, is reported
    /// and not drawn.
    pub open spec fn mesh_commands(self, index: usize, mesh: Mesh) -> Seq<Command> {
        if !mesh.spec_is_valid() {
            seq![Command::Report(Diagnostic::InvalidMesh)]
        } else if !self.textures.contains_key(mesh.texture_id) {
            seq![Command::Report(Diagnostic::MissingTexture(mesh.texture_id))]
        } else {
            self.draw_commands(index, mesh, self.textures[mesh.texture_id])
        }
    }

    /// The one step that stands for the render callback at position `index`:
    /// it runs where its payload is of the painter's kind, else it is
    /// reported and nothing of the host's runs.
    pub open spec fn callback_step(index: usize, callback: PaintCallback) -> Command {
        if callback.recognized {
            Command::Callback { primitive: index }
        } else {
            Command::Report(Diagnostic::UnsupportedCallback)
        }
    }

    /// What the painter does with the render callback at position `index`.
    /// One without area is passed over. Else the viewport is set to the
    /// callback's, the callback runs or is reported, and the fixed state is
    /// set again, whatever the callback did to it.
    pub open spec fn callback_commands(self, screen_size_px: [u32; 2], index: usize, callback: PaintCallback) -> Seq<
        Command,
    > {
        if callback.positive_area {
            seq![
                Command::Viewport {
                    x: callback.viewport.left_px,
                    y: callback.viewport.from_bottom_px,
                    width: callback.viewport.width_px,
                    height: callback.viewport.height_px,
                },
                Self::callback_step(index, callback),
            ] + self.prepare_commands(screen_size_px)
        } else {
            Seq::empty()
        }
    }

    /// What the painter does with the primitive at position `index`: it sets
    /// the scissor rectangle, then draws the mesh or runs the callback.
    pub open spec fn primitive_commands(self, screen_size_px: [u32; 2], index: usize, clipped: ClippedPrimitive) -> Seq<
        Command,
    > {
        seq![scissor_command(screen_size_px, clipped.clip_rect)] + match clipped.primitive {
            Primitive::Mesh(mesh) => self.mesh_commands(index, mesh),
            Primitive::Callback(callback) => self.callback_commands(screen_size_px, index, callback),
        }
    }

    /// What the painter does with the first `count` of `primitives`, in
    /// their order.
    pub open spec fn primitives_commands(
        self,
        screen_size_px: [u32; 2],
        primitives: Seq<ClippedPrimitive>,
        count: nat,
    ) -> Seq<Command>
        decreases count,
    {
        if count == 0 {
            Seq::empty()
        } else {
            self.primitives_commands(screen_size_px, primitives, (count - 1) as nat)
                + self.primitive_commands(screen_size_px, (count - 1) as usize, primitives[count - 1])
        }
    }

    /// The calls after the last primitive: the vertex layout and the index
    /// buffer are unbound, and scissoring is switched off.
    pub open spec fn finish_commands() -> Seq<Command> {
        seq![
            Command::UnbindVertexLayout,
            Command::BindBuffer { target: gl::ELEMENT_ARRAY_BUFFER, buffer: None },
            Command::Disable(gl::SCISSOR_TEST),
        ]
    }

    /// A whole frame of `primitives` on a target of `screen_size_px`.
    pub open spec fn paint_commands(self, screen_size_px: [u32; 2], primitives: Seq<ClippedPrimitive>) -> Seq<
        Command,
    > {
        self.prepare_commands(screen_size_px) + self.primitives_commands(
            screen_size_px,
            primitives,
            primitives.len(),
        ) + Self::finish_commands()
    }
}

/// The calls that clear a target of `screen_size_in_pixels`: scissoring is
/// switched off, so that all of the target is cleared, the viewport is set to
/// the whole target, and the colour buffer is filled with the clear colour.
pub open spec fn clear_commands(screen_size_in_pixels: [u32; 2]) -> Seq<Command> {
    seq![
        Command::Disable(gl::SCISSOR_TEST),
        Command::Viewport {
            x: 0,
            y: 0,
            width: screen_size_in_pixels@[0] as i32,
            height: screen_size_in_pixels@[1] as i32,
        },
        Command::ClearColor,
        Command::Clear(gl::COLOR_BUFFER_BIT),
    ]
}

/// Clears a target of `screen_size_in_pixels` to the colour that the host
/// was given.
pub fn clear(screen_size_in_pixels: [u32; 2]) -> (commands: Vec<Command>)
    requires
        target_fits(screen_size_in_pixels),
    ensures
        commands@ == clear_commands(screen_size_in_pixels),
{
    let mut commands: Vec<Command> = Vec::new();
    commands.push(Command::Disable(gl::SCISSOR_TEST));

    commands.push(
        Command::Viewport {
            x: 0,
            y: 0,
            width: screen_size_in_pixels[0] as i32,
            height: screen_size_in_pixels[1] as i32,
        },
    );
    commands.push(Command::ClearColor);
    commands.push(Command::Clear(gl::COLOR_BUFFER_BIT));
    assert(commands@ =~= clear_commands(screen_size_in_pixels));
    commands
}

/// Puts the commands of `more` behind those of `commands`.
fn push_all(commands: &mut Vec<Command>, more: &Vec<Command>)
    ensures
        final(commands)@ == old(commands)@ + more@,
{
    let mut i: usize = 0;
    while i < more.len()
        invariant
            i <= more@.len(),
            commands@ == old(commands)@ + more@.take(i as int),
        decreases more@.len() - i,
    {
        commands.push(more[i]);
        assert(more@.take(i + 1) == more@.take(i as int).push(more@[i as int]));
        i = i + 1;
    }
    assert(more@.take(i as int) == more@);
}

impl Painter {
    /// Clears a target of `screen_size_in_pixels` to the colour that the
    /// host was given.
    pub fn clear(&self, screen_size_in_pixels: [u32; 2]) -> (commands: Vec<Command>)
        requires
            target_fits(screen_size_in_pixels),
        ensures
            commands@ == clear_commands(screen_size_in_pixels),
    {
        clear(screen_size_in_pixels)
    }

    /// The calls that set the fixed state of the context for a target of
    /// `screen_size_px`.
    pub fn prepare_painting(&self, screen_size_px: [u32; 2]) -> (commands: Vec<Command>)
        requires
            target_fits(screen_size_px),
        ensures
            commands@ == self@.prepare_commands(screen_size_px),
    {
        let mut commands: Vec<Command> = Vec::new();
        commands.push(Command::Enable(gl::SCISSOR_TEST));
        // Meshes come in both winding orders.
        commands.push(Command::Disable(gl::CULL_FACE));
        commands.push(Command::Disable(gl::DEPTH_TEST));

        commands.push(Command::ColorMask { red: true, green: true, blue: true, alpha: true });

        commands.push(Command::Enable(gl::BLEND));
        commands.push(Command::BlendEquationSeparate { mode_rgb: gl::FUNC_ADD, mode_alpha: gl::FUNC_ADD });
        commands.push(
            Command::BlendFuncSeparate {
                // Colours come with premultiplied alpha.
                src_rgb: gl::ONE,
                dst_rgb: gl::ONE_MINUS_SRC_ALPHA,
                // What the alpha of the framebuffer needs, for screenshots and compositing.
                src_alpha: gl::ONE_MINUS_DST_ALPHA,
                dst_alpha: gl::ONE,
            },
        );

        assert(commands@ =~= seq![
            Command::Enable(gl::SCISSOR_TEST),
            Command::Disable(gl::CULL_FACE),
            Command::Disable(gl::DEPTH_TEST),
            Command::ColorMask { red: true, green: true, blue: true, alpha: true },
            Command::Enable(gl::BLEND),
            Command::BlendEquationSeparate { mode_rgb: gl::FUNC_ADD, mode_alpha: gl::FUNC_ADD },
            Command::BlendFuncSeparate {
                src_rgb: gl::ONE,
                dst_rgb: gl::ONE_MINUS_SRC_ALPHA,
                src_alpha: gl::ONE_MINUS_DST_ALPHA,
                dst_alpha: gl::ONE,
            },
        ]);

        if self.supports_srgb_framebuffer {
            commands.push(Command::Disable(gl::FRAMEBUFFER_SRGB));
        }

        commands.push(
            Command::Viewport {
                x: 0,
                y: 0,
                width: screen_size_px[0] as i32,
                height: screen_size_px[1] as i32,
            },
        );
        commands.push(Command::UseProgram(self.objects.program));

        commands.push(
            Command::ScreenSizeUniform {
                location: self.objects.u_screen_size,
                width_px: screen_size_px[0],
                height_px: screen_size_px[1],
            },
        );
        commands.push(Command::Uniform1I32 { location: self.objects.u_sampler, value: 0 });
        commands.push(Command::ActiveTexture(gl::TEXTURE0));

        commands.push(Command::BindVertexLayout);
        commands.push(
            Command::BindBuffer {
                target: gl::ELEMENT_ARRAY_BUFFER,
                buffer: Some(self.objects.element_array_buffer),
            },
        );
        assert(commands@ =~= self@.prepare_commands(screen_size_px));
        commands
    }

    /// What to do with the mesh at position `index` of the frame's
    /// primitives: draw it, or report why it is not drawn.
    pub fn paint_mesh(&self, index: usize, mesh: &Mesh) -> (commands: Vec<Command>)
        ensures
            commands@ == self@.mesh_commands(index, *mesh),
    {
        let mut commands: Vec<Command> = Vec::new();
        if !mesh.is_valid() {
            commands.push(Command::Report(Diagnostic::InvalidMesh));
        } else if let Some(texture) = self.texture(mesh.texture_id) {
            commands.push(Command::BindBuffer { target: gl::ARRAY_BUFFER, buffer: Some(self.objects.vbo) });
            commands.push(
                Command::BufferData {
                    target: gl::ARRAY_BUFFER,
                    primitive: index,
                    data: MeshData::Vertices,
                    usage: gl::STREAM_DRAW,
                },
            );

            commands.push(
                Command::BindBuffer {
                    target: gl::ELEMENT_ARRAY_BUFFER,
                    buffer: Some(self.objects.element_array_buffer),
                },
            );
            commands.push(
                Command::BufferData {
                    target: gl::ELEMENT_ARRAY_BUFFER,
                    primitive: index,
                    data: MeshData::Indices,
                    usage: gl::STREAM_DRAW,
                },
            );

            commands.push(Command::BindTexture { target: gl::TEXTURE_2D, texture });

            let count: i32 = #[verifier::truncate]
            (mesh.indices.len() as i32);
            commands.push(
                Command::DrawElements {
                    mode: gl::TRIANGLES,
                    count,
                    element_type: gl::UNSIGNED_INT,
                    offset: 0,
                },
            );
        } else {
            commands.push(Command::Report(Diagnostic::MissingTexture(mesh.texture_id)));
        }
        assert(commands@ =~= self@.mesh_commands(index, *mesh));
        commands
    }

    /// Paints a frame if the painter is live. A destroyed painter refuses:
    /// it plans no call and stays as it is.
    pub fn try_paint_primitives(
        &mut self,
        screen_size_px: [u32; 2],
        clipped_primitives: &[ClippedPrimitive],
    ) -> (outcome: Result<Vec<Command>, ContractViolation>)
        requires
            target_fits(screen_size_px),
        ensures
            final(self)@ == old(self)@,
            final(self)@.wf(),
            old(self)@.destroyed ==> outcome is Err && outcome->Err_0 == ContractViolation::Destroyed,
            !old(self)@.destroyed ==> outcome is Ok && outcome->Ok_0@ == old(self)@.paint_commands(
                screen_size_px,
                clipped_primitives@,
            ),
    {
        proof {
            self.textures.lemma_finite();
            use_type_invariant(&self.native_ids);
            use_type_invariant(&self.storage);
        }
        if self.destroyed {
            Err(ContractViolation::Destroyed)
        } else {
            Ok(self.paint_primitives(screen_size_px, clipped_primitives))
        }
    }

    /// Paints a frame. The colour buffer is expected to have been cleared.
    ///
    /// Afterwards scissoring is off, blending is on, culling and depth test
    /// are off, and the scissor rectangle and the blend parameters are the
    /// painter's. The vertex layout and the index buffer are unbound; the
    /// program, the array buffer, the texture and the active texture unit
    /// stay as the last primitive left them.
    pub fn paint_primitives(&mut self, screen_size_px: [u32; 2], clipped_primitives: &[ClippedPrimitive]) -> (commands:
        Vec<Command>)
        requires
            !old(self)@.destroyed,
            target_fits(screen_size_px),
        ensures
            final(self)@ == old(self)@,
            final(self)@.wf(),
            commands@ == old(self)@.paint_commands(screen_size_px, clipped_primitives@),
    {
        proof {
            self.textures.lemma_finite();
            use_type_invariant(&self.native_ids);
            use_type_invariant(&self.storage);
        }
        let mut commands = self.prepare_painting(screen_size_px);

        let mut i: usize = 0;
        while i < clipped_primitives.len()
            invariant
                i <= clipped_primitives@.len(),
                target_fits(screen_size_px),
                self@ == old(self)@,
                commands@ == self@.prepare_commands(screen_size_px) + self@.primitives_commands(
                    screen_size_px,
                    clipped_primitives@,
                    i as nat,
                ),
            decreases clipped_primitives@.len() - i,
        {
            let clipped = &clipped_primitives[i];
            let ghost before = commands@;
            commands.push(set_clip_rect(screen_size_px, clipped.clip_rect));

            match &clipped.primitive {
                Primitive::Mesh(mesh) => {
                    let draw = self.paint_mesh(i, mesh);
                    push_all(&mut commands, &draw);
                },
                Primitive::Callback(callback) => {
                    if callback.positive_area {
                        commands.push(
                            Command::Viewport {
                                x: callback.viewport.left_px,
                                y: callback.viewport.from_bottom_px,
                                width: callback.viewport.width_px,
                                height: callback.viewport.height_px,
                            },
                        );
                        if callback.recognized {
                            commands.push(Command::Callback { primitive: i });
                        } else {
                            commands.push(Command::Report(Diagnostic::UnsupportedCallback));
                        }

                        // The callback may have left the context in any state.
                        let restore = self.prepare_painting(screen_size_px);
                        push_all(&mut commands, &restore);
                    }
                },
            }
            assert(commands@ =~= before + self@.primitive_commands(screen_size_px, i, clipped_primitives@[i as int]));
            i = i + 1;
        }

        commands.push(Command::UnbindVertexLayout);
        commands.push(Command::BindBuffer { target: gl::ELEMENT_ARRAY_BUFFER, buffer: None });

        commands.push(Command::Disable(gl::SCISSOR_TEST));
        assert(commands@ =~= self@.paint_commands(screen_size_px, clipped_primitives@));
        commands
    }
}

} // verus!
