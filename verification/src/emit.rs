//! The render command emitter: walking a draw component's command stream and
//! producing the host render-command buffer for one pass.
//!
//! Clip regions become scissor commands scaled by the host's display scale
//! factor (given in hundredths). Colored geometry needs some texture bound
//! because the pipeline layout requires a bound slot, so the first available
//! texture is bound as a placeholder once; textured geometry binds its own
//! texture. An entity without a vertex buffer emits nothing at all.

use vstd::prelude::*;

use crate::draw::{Command, Rect};
use crate::reconcile::UiDraw;

verus! {

/// One host render command, as executed inside the render graph node.
#[derive(Clone, Copy, Debug, PartialEq, Eq, Structural)]
pub enum RenderCommand {
    /// Bind the UI pipeline.
    SetPipeline {
        /// Handle of the compiled pipeline.
        pipeline: u64,
    },
    /// Confine rasterization to a rectangle in physical pixels.
    SetScissorRect {
        x: u32,
        y: u32,
        w: u32,
        h: u32,
    },
    /// Bind a vertex buffer to a slot.
    SetVertexBuffer {
        /// The vertex buffer slot.
        slot: u32,
        /// Handle of the buffer to bind.
        buffer: u64,
        /// Byte offset into the buffer.
        offset: u64,
    },
    /// Bind a texture together with the shared sampler.
    SetBindGroup {
        /// The bind group index in the pipeline layout.
        index: u32,
        /// Handle of the texture to bind.
        texture: u64,
        /// Handle of the sampler to bind.
        sampler: u64,
    },
    /// Draw a contiguous vertex range, one instance.
    Draw {
        /// First vertex, inclusive.
        start_vertex: u32,
        /// Last vertex, exclusive.
        end_vertex: u32,
    },
}

/// One length scaled by a display scale factor given in hundredths,
/// truncated to whole pixels.
pub open spec fn spec_scale(v: int, scale_percent: u32) -> int {
    v * scale_percent / 100
}

/// The scissor command for a clip rectangle under a display scale factor.
pub open spec fn spec_scaled_scissor(s: Rect, scale_percent: u32) -> RenderCommand {
    RenderCommand::SetScissorRect {
        x: spec_scale(s.left as int, scale_percent) as u32,
        y: spec_scale(s.top as int, scale_percent) as u32,
        w: spec_scale(s.right - s.left, scale_percent) as u32,
        h: spec_scale(s.bottom - s.top, scale_percent) as u32,
    }
}

/// Scales one clip rectangle into a scissor command, by the display scale
/// factor in hundredths.
pub fn scale_scissor(s: &Rect, scale_percent: u32) -> (r: RenderCommand)
    requires
        s.wf(),
        spec_scale(s.left as int, scale_percent) <= u32::MAX,
        spec_scale(s.top as int, scale_percent) <= u32::MAX,
        spec_scale(s.right - s.left, scale_percent) <= u32::MAX,
        spec_scale(s.bottom - s.top, scale_percent) <= u32::MAX,
    ensures
        r == spec_scaled_scissor(*s, scale_percent),
{
    proof {
        assert((s.left as int) * (scale_percent as int) <= 0xFFFF_FFFF * 0xFFFF_FFFF)
            by (nonlinear_arith)
            requires
                0 <= s.left <= 0xFFFF_FFFF,
                0 <= scale_percent <= 0xFFFF_FFFF,
        ;
        assert((s.top as int) * (scale_percent as int) <= 0xFFFF_FFFF * 0xFFFF_FFFF)
            by (nonlinear_arith)
            requires
                0 <= s.top <= 0xFFFF_FFFF,
                0 <= scale_percent <= 0xFFFF_FFFF,
        ;
        assert((s.right - s.left) * (scale_percent as int) <= 0xFFFF_FFFF * 0xFFFF_FFFF)
            by (nonlinear_arith)
            requires
                0 <= s.right - s.left <= 0xFFFF_FFFF,
                0 <= scale_percent <= 0xFFFF_FFFF,
        ;
        assert((s.bottom - s.top) * (scale_percent as int) <= 0xFFFF_FFFF * 0xFFFF_FFFF)
            by (nonlinear_arith)
            requires
                0 <= s.bottom - s.top <= 0xFFFF_FFFF,
                0 <= scale_percent <= 0xFFFF_FFFF,
        ;
    }
    let sp = scale_percent as u64;
    let x = ((s.left as u64) * sp / 100) as u32;
    let y = ((s.top as u64) * sp / 100) as u32;
    let w = (((s.right - s.left) as u64) * sp / 100) as u32;
    let h = (((s.bottom - s.top) as u64) * sp / 100) as u32;
    RenderCommand::SetScissorRect { x, y, w, h }
}

/// Whether one draw command can be emitted: clip rectangles are ordered and
/// scale within range, vertex ranges fit the host's index width, and
/// textured commands reference a live texture id.
pub open spec fn spec_command_ok(c: Command, textures: Map<u64, u64>, scale_percent: u32) -> bool {
    match c {
        Command::Nop => true,
        Command::Clip { scissor } => scissor.wf() && spec_scale(scissor.left as int, scale_percent)
            <= u32::MAX && spec_scale(scissor.top as int, scale_percent) <= u32::MAX && spec_scale(
            scissor.right - scissor.left,
            scale_percent,
        ) <= u32::MAX && spec_scale(scissor.bottom - scissor.top, scale_percent) <= u32::MAX,
        Command::Colored { offset, count } => offset + count <= u32::MAX,
        Command::Textured { texture, offset, count } => offset + count <= u32::MAX
            && textures.contains_key(texture),
    }
}

/// Every command of the stream can be emitted.
pub open spec fn spec_commands_ok(
    cmds: Seq<Command>,
    textures: Map<u64, u64>,
    scale_percent: u32,
) -> bool {
    forall|i: int| 0 <= i < cmds.len() ==> spec_command_ok(#[trigger] cmds[i], textures, scale_percent)
}

/// Whether the stream contains colored geometry, which needs the placeholder
/// binding.
pub open spec fn spec_has_colored(cmds: Seq<Command>) -> bool {
    exists|i: int| 0 <= i < cmds.len() && (#[trigger] cmds[i]) matches Command::Colored { .. }
}

/// Whether a bind group is set after one command: draws bind, clip and no-op
/// leave the state alone.
pub open spec fn spec_bound_after_one(c: Command, bound: bool) -> bool {
    match c {
        Command::Nop => bound,
        Command::Clip { .. } => bound,
        Command::Colored { .. } => true,
        Command::Textured { .. } => true,
    }
}

/// Whether a bind group is set after a whole command stream.
pub open spec fn spec_bound_after(cmds: Seq<Command>, bound: bool) -> bool
    decreases cmds.len(),
{
    if cmds.len() == 0 {
        bound
    } else {
        spec_bound_after(cmds.drop_first(), spec_bound_after_one(cmds[0], bound))
    }
}

/// The render commands one draw command emits. `placeholder` is the handle
/// bound for colored geometry while no bind group is set yet.
pub open spec fn spec_emit_one(
    c: Command,
    textures: Map<u64, u64>,
    placeholder: u64,
    sampler: u64,
    scale_percent: u32,
    bound: bool,
) -> Seq<RenderCommand> {
    match c {
        Command::Nop => Seq::empty(),
        Command::Clip { scissor } => seq![spec_scaled_scissor(scissor, scale_percent)],
        Command::Colored { offset, count } => {
            let draw = RenderCommand::Draw {
                start_vertex: offset as u32,
                end_vertex: (offset + count) as u32,
            };
            if bound {
                seq![draw]
            } else {
                seq![
                    RenderCommand::SetBindGroup { index: 0, texture: placeholder, sampler },
                    draw,
                ]
            }
        },
        Command::Textured { texture, offset, count } => seq![
            RenderCommand::SetBindGroup { index: 0, texture: textures[texture], sampler },
            RenderCommand::Draw {
                start_vertex: offset as u32,
                end_vertex: (offset + count) as u32,
            },
        ],
    }
}

/// The render commands a whole command stream emits.
pub open spec fn spec_emit(
    cmds: Seq<Command>,
    textures: Map<u64, u64>,
    placeholder: u64,
    sampler: u64,
    scale_percent: u32,
    bound: bool,
) -> Seq<RenderCommand>
    decreases cmds.len(),
{
    if cmds.len() == 0 {
        Seq::empty()
    } else {
        spec_emit_one(cmds[0], textures, placeholder, sampler, scale_percent, bound) + spec_emit(
            cmds.drop_first(),
            textures,
            placeholder,
            sampler,
            scale_percent,
            spec_bound_after_one(cmds[0], bound),
        )
    }
}

/// Appending one command to the stream appends exactly that command's
/// emission, taken in the bind state the prefix leaves behind.
pub proof fn lemma_spec_emit_snoc(
    cmds: Seq<Command>,
    c: Command,
    textures: Map<u64, u64>,
    placeholder: u64,
    sampler: u64,
    scale_percent: u32,
    bound: bool,
)
    ensures
        spec_emit(cmds.push(c), textures, placeholder, sampler, scale_percent, bound) == spec_emit(
            cmds,
            textures,
            placeholder,
            sampler,
            scale_percent,
            bound,
        ) + spec_emit_one(
            c,
            textures,
            placeholder,
            sampler,
            scale_percent,
            spec_bound_after(cmds, bound),
        ),
        spec_bound_after(cmds.push(c), bound) == spec_bound_after_one(
            c,
            spec_bound_after(cmds, bound),
        ),
    decreases cmds.len(),
{
    if cmds.len() == 0 {
        let pushed = cmds.push(c);
        let one = spec_emit_one(c, textures, placeholder, sampler, scale_percent, bound);
        assert(pushed.len() == 1);
        assert(pushed[0] == c);
        assert(pushed.drop_first() =~= Seq::<Command>::empty());
        assert(spec_emit(pushed, textures, placeholder, sampler, scale_percent, bound) == one
            + spec_emit(
            pushed.drop_first(),
            textures,
            placeholder,
            sampler,
            scale_percent,
            spec_bound_after_one(c, bound),
        ));
        assert(spec_emit(
            pushed.drop_first(),
            textures,
            placeholder,
            sampler,
            scale_percent,
            spec_bound_after_one(c, bound),
        ) =~= Seq::<RenderCommand>::empty());
        assert(one + Seq::<RenderCommand>::empty() =~= one);
        assert(spec_emit(cmds, textures, placeholder, sampler, scale_percent, bound)
            =~= Seq::<RenderCommand>::empty());
        assert(Seq::<RenderCommand>::empty() + one =~= one);
        assert(spec_bound_after(cmds, bound) == bound);
        assert(spec_bound_after(pushed, bound) == spec_bound_after(
            pushed.drop_first(),
            spec_bound_after_one(c, bound),
        ));
        assert(spec_bound_after(pushed.drop_first(), spec_bound_after_one(c, bound))
            == spec_bound_after_one(c, bound));
    } else {
        assert(cmds.push(c)[0] == cmds[0]);
        assert(cmds.push(c).drop_first() =~= cmds.drop_first().push(c));
        lemma_spec_emit_snoc(
            cmds.drop_first(),
            c,
            textures,
            placeholder,
            sampler,
            scale_percent,
            spec_bound_after_one(cmds[0], bound),
        );
        assert(spec_emit_one(cmds[0], textures, placeholder, sampler, scale_percent, bound)
            + (spec_emit(
            cmds.drop_first(),
            textures,
            placeholder,
            sampler,
            scale_percent,
            spec_bound_after_one(cmds[0], bound),
        ) + spec_emit_one(
            c,
            textures,
            placeholder,
            sampler,
            scale_percent,
            spec_bound_after(cmds.drop_first(), spec_bound_after_one(cmds[0], bound)),
        )) =~= spec_emit(cmds, textures, placeholder, sampler, scale_percent, bound)
            + spec_emit_one(
            c,
            textures,
            placeholder,
            sampler,
            scale_percent,
            spec_bound_after(cmds, bound),
        ));
    }
}

/// Starts one pass command buffer: the pipeline is bound once per pass,
/// not per entity, and no bind group is set yet.
pub fn begin_pass(pipeline: u64, out: &mut Vec<RenderCommand>, bound: &mut bool)
    ensures
        final(out)@ == old(out)@.push((RenderCommand::SetPipeline { pipeline })),
        !*final(bound),
{
    out.push(RenderCommand::SetPipeline { pipeline });
    *bound = false;
}

/// The placeholder handle for a draw component: the handle of its first
/// registered texture. Meaningful only when some texture is live.
pub open spec fn spec_placeholder(d: &UiDraw) -> u64 {
    d.texture_map()[d.texture_order()[0]]
}

/// Emits the render commands of one UI entity into the shared pass command
/// buffer: nothing at all without a vertex buffer — whatever the command
/// stream holds — otherwise the vertex buffer bind, a scissor reset to the
/// full physical window, and the emission of the entity's command stream.
/// `bound` tracks across entities whether some bind group was already set
/// this pass.
pub fn emit_entity(
    d: &UiDraw,
    sampler: u64,
    physical_width: u32,
    physical_height: u32,
    scale_percent: u32,
    bound: &mut bool,
    out: &mut Vec<RenderCommand>,
)
    requires
        d.wf(),
        d.vertex_buffer() is Some ==> spec_commands_ok(
            d.command_list(),
            d.texture_map(),
            scale_percent,
        ),
        d.vertex_buffer() is Some && !*old(bound) && spec_has_colored(d.command_list())
            ==> d.texture_order().len() > 0,
    ensures
        d.vertex_buffer() is None ==> final(out)@ == old(out)@ && *final(bound) == *old(bound),
        d.vertex_buffer() matches Some(buf) ==> final(out)@ == old(out)@ + seq![
            (RenderCommand::SetVertexBuffer { slot: 0, buffer: buf, offset: 0 }),
            (RenderCommand::SetScissorRect {
                x: 0,
                y: 0,
                w: physical_width,
                h: physical_height,
            }),
        ] + spec_emit(
            d.command_list(),
            d.texture_map(),
            spec_placeholder(d),
            sampler,
            scale_percent,
            *old(bound),
        ) && *final(bound) == spec_bound_after(d.command_list(), *old(bound)),
{
    let ghost bound0: bool = *bound;
    let ghost out0: Seq<RenderCommand> = out@;
    let buffer = match d.current_vertex_buffer() {
        None => {
            return ;
        },
        Some(b) => b,
    };
    out.push(RenderCommand::SetVertexBuffer { slot: 0, buffer, offset: 0 });
    out.push(
        RenderCommand::SetScissorRect { x: 0, y: 0, w: physical_width, h: physical_height },
    );
    let ghost mid: Seq<RenderCommand> = out@;
    let commands = d.commands();
    let n = commands.len();
    let mut i: usize = 0;
    while i < n
        invariant
            n == d.command_list().len(),
            i <= n,
            d.wf(),
            spec_commands_ok(d.command_list(), d.texture_map(), scale_percent),
            !*bound && spec_has_colored(d.command_list()) ==> d.texture_order().len() > 0,
            commands@ == d.command_list(),
            out@ == mid + spec_emit(
                d.command_list().take(i as int),
                d.texture_map(),
                spec_placeholder(d),
                sampler,
                scale_percent,
                bound0,
            ),
            *bound == spec_bound_after(d.command_list().take(i as int), bound0),
        decreases n - i,
    {
        let ghost prefix = d.command_list().take(i as int);
        proof {
            assert(spec_command_ok(d.command_list()[i as int], d.texture_map(), scale_percent));
            lemma_spec_emit_snoc(
                prefix,
                d.command_list()[i as int],
                d.texture_map(),
                spec_placeholder(d),
                sampler,
                scale_percent,
                bound0,
            );
            assert(d.command_list().take(i as int + 1) =~= prefix.push(
                d.command_list()[i as int],
            ));
        }
        let c = commands[i];
        match c {
            Command::Nop => {},
            Command::Clip { scissor } => {
                let sc = scale_scissor(&scissor, scale_percent);
                out.push(sc);
            },
            Command::Colored { offset, count } => {
                if !*bound {
                    proof {
                        assert(d.command_list()[i as int] matches Command::Colored { .. });
                        assert(spec_has_colored(d.command_list()));
                    }
                    let placeholder = match d.first_texture_handle() {
                        Some(h) => h,
                        None => {
                            proof {
                                assert(false);
                            }
                            0
                        },
                    };
                    out.push(
                        RenderCommand::SetBindGroup { index: 0, texture: placeholder, sampler },
                    );
                }
                out.push(
                    RenderCommand::Draw {
                        start_vertex: offset as u32,
                        end_vertex: (offset + count) as u32,
                    },
                );
                *bound = true;
            },
            Command::Textured { texture, offset, count } => {
                let handle = match d.texture_handle(texture) {
                    Some(h) => h,
                    None => {
                        proof {
                            assert(false);
                        }
                        0
                    },
                };
                out.push(RenderCommand::SetBindGroup { index: 0, texture: handle, sampler });
                out.push(
                    RenderCommand::Draw {
                        start_vertex: offset as u32,
                        end_vertex: (offset + count) as u32,
                    },
                );
                *bound = true;
            },
        }
        i = i + 1;
        proof {
            assert(out@ =~= mid + spec_emit(
                d.command_list().take(i as int),
                d.texture_map(),
                spec_placeholder(d),
                sampler,
                scale_percent,
                bound0,
            ));
        }
    }
    proof {
        assert(d.command_list().take(n as int) =~= d.command_list());
        assert(out@ =~= out0 + seq![
            (RenderCommand::SetVertexBuffer { slot: 0, buffer, offset: 0 }),
            (RenderCommand::SetScissorRect {
                x: 0,
                y: 0,
                w: physical_width,
                h: physical_height,
            }),
        ] + spec_emit(
            d.command_list(),
            d.texture_map(),
            spec_placeholder(d),
            sampler,
            scale_percent,
            bound0,
        ));
    }
}

} // verus!
