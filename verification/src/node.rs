//! The render graph node hosting the UI pass: which attachment slots it
//! consumes, how the pass descriptor's attachments map onto those slots, how
//! the node is wired into the host's render graph exactly once, and the
//! replay of the accumulated command buffer with a draw-state guard.

use vstd::prelude::*;

use crate::emit::RenderCommand;

verus! {

/// Slot name of the color attachment input.
pub const SLOT_COLOR_ATTACHMENT: u64 = 1;

/// Slot name of the color resolve target input.
pub const SLOT_COLOR_RESOLVE_TARGET: u64 = 2;

/// Slot name of the depth attachment input.
pub const SLOT_DEPTH: u64 = 3;

/// A pass attachment: either resolved at graph execution time from a named
/// input slot, or already a concrete texture handle.
#[derive(Clone, Copy, Debug, PartialEq, Eq, Structural)]
pub enum TextureAttachment {
    /// Resolved from the input slot with this name.
    Input(u64),
    /// A concrete texture handle.
    Id(u64),
}

/// One color attachment of the pass descriptor.
#[derive(Clone, Copy, Debug, PartialEq, Eq, Structural)]
pub struct ColorAttachment {
    /// The rendered-to attachment.
    pub attachment: TextureAttachment,
    /// The multisample resolve target, if any.
    pub resolve_target: Option<TextureAttachment>,
}

/// The UI pass descriptor: its color attachments, optional depth attachment,
/// and sample count.
pub struct PassDescriptor {
    /// The color attachments, in slot order.
    pub color_attachments: Vec<ColorAttachment>,
    /// The depth-stencil attachment, if depth testing is on.
    pub depth_stencil_attachment: Option<TextureAttachment>,
    /// The multisample count.
    pub sample_count: u32,
}

/// The input slots one color attachment contributes, in resolution order:
/// first the attachment itself if it is an input, then its resolve target if
/// that is an input.
pub open spec fn spec_color_contrib(c: ColorAttachment) -> Seq<u64> {
    (match c.attachment {
        TextureAttachment::Input(name) => seq![name],
        _ => Seq::empty(),
    }) + (match c.resolve_target {
        Some(TextureAttachment::Input(name)) => seq![name],
        _ => Seq::empty(),
    })
}

/// The input slots a sequence of color attachments contributes.
pub open spec fn spec_colors_contrib(colors: Seq<ColorAttachment>) -> Seq<u64>
    decreases colors.len(),
{
    if colors.len() == 0 {
        Seq::empty()
    } else {
        spec_colors_contrib(colors.drop_last()) + spec_color_contrib(colors.last())
    }
}

/// The input slot the depth attachment contributes, if it is an input.
pub open spec fn spec_depth_contrib(depth: Option<TextureAttachment>) -> Seq<u64> {
    match depth {
        Some(TextureAttachment::Input(name)) => seq![name],
        _ => Seq::empty(),
    }
}

/// The render graph node of the UI pass: the input slots computed from the
/// pass descriptor, the per-attachment slot indices used to patch the
/// descriptor each frame, and the command buffer the render system fills.
pub struct UiNode {
    descriptor: PassDescriptor,
    inputs: Vec<u64>,
    color_attachment_input_indices: Vec<Option<usize>>,
    color_resolve_target_indices: Vec<Option<usize>>,
    depth_stencil_attachment_input_index: Option<usize>,
    command_buffer: Vec<RenderCommand>,
}

impl UiNode {
    /// The input slot names, in resolution order.
    pub closed spec fn input_slots(&self) -> Seq<u64> {
        self.inputs@
    }

    /// The slot index each color attachment resolves from, if it is an
    /// input.
    pub closed spec fn color_indices(&self) -> Seq<Option<usize>> {
        self.color_attachment_input_indices@
    }

    /// The slot index each resolve target resolves from, if it is an input.
    pub closed spec fn resolve_indices(&self) -> Seq<Option<usize>> {
        self.color_resolve_target_indices@
    }

    /// The slot index the depth attachment resolves from, if it is an
    /// input.
    pub closed spec fn depth_index(&self) -> Option<usize> {
        self.depth_stencil_attachment_input_index
    }

    /// The pass descriptor the node was built from.
    pub closed spec fn descriptor(&self) -> &PassDescriptor {
        &self.descriptor
    }

    /// The pass command buffer accumulated for this frame.
    pub closed spec fn commands(&self) -> Seq<RenderCommand> {
        self.command_buffer@
    }

    /// Builds the node from a pass descriptor: every attachment that is a
    /// named input gets one slot, in resolution order — each color
    /// attachment, then its resolve target, then the depth attachment — and
    /// the per-attachment indices point at exactly those slots.
    pub fn new(descriptor: PassDescriptor) -> (node: Self)
        ensures
            node.descriptor().color_attachments@ == descriptor.color_attachments@,
            node.descriptor().depth_stencil_attachment
                == descriptor.depth_stencil_attachment,
            node.descriptor().sample_count == descriptor.sample_count,
            node.input_slots() == spec_colors_contrib(descriptor.color_attachments@)
                + spec_depth_contrib(descriptor.depth_stencil_attachment),
            node.color_indices().len() == descriptor.color_attachments@.len(),
            node.resolve_indices().len() == descriptor.color_attachments@.len(),
            forall|i: int|
                0 <= i < descriptor.color_attachments@.len() ==> #[trigger] node.color_indices()[i]
                    == (match descriptor.color_attachments@[i].attachment {
                    TextureAttachment::Input(_) => Some(
                        spec_colors_contrib(descriptor.color_attachments@.take(i)).len() as usize,
                    ),
                    _ => Option::<usize>::None,
                }),
            forall|i: int|
                0 <= i < descriptor.color_attachments@.len() ==> #[trigger] node.resolve_indices()[i]
                    == (match descriptor.color_attachments@[i].resolve_target {
                    Some(TextureAttachment::Input(_)) => Some(
                        (spec_colors_contrib(descriptor.color_attachments@.take(i)).len() + (
                        match descriptor.color_attachments@[i].attachment {
                            TextureAttachment::Input(_) => 1int,
                            _ => 0int,
                        })) as usize,
                    ),
                    _ => Option::<usize>::None,
                }),
            node.depth_index() == (match descriptor.depth_stencil_attachment {
                Some(TextureAttachment::Input(_)) => Some(
                    spec_colors_contrib(descriptor.color_attachments@).len() as usize,
                ),
                _ => Option::<usize>::None,
            }),
            forall|i: int|
                0 <= i < node.color_indices().len() ==> ((#[trigger] node.color_indices()[i])
                    matches Some(k) ==> k < node.input_slots().len()),
            node.commands() == Seq::<RenderCommand>::empty(),
    {
        let mut inputs: Vec<u64> = Vec::new();
        let mut color_attachment_input_indices: Vec<Option<usize>> = Vec::new();
        let mut color_resolve_target_indices: Vec<Option<usize>> = Vec::new();
        let n = descriptor.color_attachments.len();
        let mut i: usize = 0;
        while i < n
            invariant
                i <= n,
                n == descriptor.color_attachments@.len(),
                inputs@ == spec_colors_contrib(descriptor.color_attachments@.take(i as int)),
                color_attachment_input_indices@.len() == i,
                color_resolve_target_indices@.len() == i,
                forall|j: int|
                    0 <= j < i ==> #[trigger] color_attachment_input_indices@[j] == (
                    match descriptor.color_attachments@[j].attachment {
                        TextureAttachment::Input(_) => Some(
                            spec_colors_contrib(
                                descriptor.color_attachments@.take(j),
                            ).len() as usize,
                        ),
                        _ => Option::<usize>::None,
                    }),
                forall|j: int|
                    0 <= j < i ==> #[trigger] color_resolve_target_indices@[j] == (
                    match descriptor.color_attachments@[j].resolve_target {
                        Some(TextureAttachment::Input(_)) => Some(
                            (spec_colors_contrib(descriptor.color_attachments@.take(j)).len() + (
                            match descriptor.color_attachments@[j].attachment {
                                TextureAttachment::Input(_) => 1int,
                                _ => 0int,
                            })) as usize,
                        ),
                        _ => Option::<usize>::None,
                    }),
                forall|j: int|
                    0 <= j < i ==> ((#[trigger] color_attachment_input_indices@[j]) matches Some(
                    k) ==> k < inputs@.len()),
            decreases n - i,
        {
            let ghost prefix = descriptor.color_attachments@.take(i as int);
            proof {
                assert(descriptor.color_attachments@.take(i as int + 1).drop_last() =~= prefix);
                assert(descriptor.color_attachments@.take(i as int + 1).last()
                    == descriptor.color_attachments@[i as int]);
            }
            let attachment = descriptor.color_attachments[i];
            match attachment.attachment {
                TextureAttachment::Input(name) => {
                    color_attachment_input_indices.push(Some(inputs.len()));
                    inputs.push(name);
                },
                _ => {
                    color_attachment_input_indices.push(None);
                },
            }
            match attachment.resolve_target {
                Some(TextureAttachment::Input(name)) => {
                    color_resolve_target_indices.push(Some(inputs.len()));
                    inputs.push(name);
                },
                _ => {
                    color_resolve_target_indices.push(None);
                },
            }
            i = i + 1;
            proof {
                assert(inputs@ =~= spec_colors_contrib(
                    descriptor.color_attachments@.take(i as int),
                ));
            }
        }
        proof {
            assert(descriptor.color_attachments@.take(n as int)
                =~= descriptor.color_attachments@);
        }
        let depth_stencil_attachment_input_index: Option<usize> =
            match descriptor.depth_stencil_attachment {
            Some(TextureAttachment::Input(name)) => {
                let k = inputs.len();
                inputs.push(name);
                Some(k)
            },
            _ => None,
        };
        UiNode {
            descriptor,
            inputs,
            color_attachment_input_indices,
            color_resolve_target_indices,
            depth_stencil_attachment_input_index,
            command_buffer: Vec::new(),
        }
    }

    /// The input slots the node declares to the render graph.
    pub fn input(&self) -> (r: &Vec<u64>)
        ensures
            r@ == self.input_slots(),
    {
        &self.inputs
    }

    /// Replaces the pass command buffer with this frame's commands, handing
    /// back last frame's buffer.
    pub fn set_commands(&mut self, commands: Vec<RenderCommand>) -> (prev: Vec<RenderCommand>)
        ensures
            final(self).commands() == commands@,
            prev@ == old(self).commands(),
            final(self).input_slots() == old(self).input_slots(),
            final(self).color_indices() == old(self).color_indices(),
            final(self).resolve_indices() == old(self).resolve_indices(),
            final(self).depth_index() == old(self).depth_index(),
    {
        let mut commands = commands;
        core::mem::swap(&mut commands, &mut self.command_buffer);
        commands
    }

    /// Takes the accumulated commands for execution, leaving the buffer
    /// empty.
    pub fn take_commands(&mut self) -> (r: Vec<RenderCommand>)
        ensures
            r@ == old(self).commands(),
            final(self).commands() == Seq::<RenderCommand>::empty(),
            final(self).input_slots() == old(self).input_slots(),
            final(self).color_indices() == old(self).color_indices(),
            final(self).resolve_indices() == old(self).resolve_indices(),
            final(self).depth_index() == old(self).depth_index(),
    {
        let mut taken: Vec<RenderCommand> = Vec::new();
        core::mem::swap(&mut taken, &mut self.command_buffer);
        taken
    }
}

/// A node of the host render graph the UI pass is wired against.
#[derive(Clone, Copy, Debug, PartialEq, Eq, Structural)]
pub enum GraphNodeRef {
    /// The primary swap chain node.
    PrimarySwapChain,
    /// The main depth texture node.
    MainDepthTexture,
    /// The main sampled color attachment node.
    MainSampledColorAttachment,
    /// The main opaque pass node.
    MainPass,
}

/// One edge to add to the host render graph.
#[derive(Clone, Copy, Debug, PartialEq, Eq, Structural)]
pub enum GraphEdge {
    /// Connect an output texture of `from` to one of the UI node's input
    /// slots.
    Slot {
        /// The upstream node.
        from: GraphNodeRef,
        /// The UI node input slot receiving the texture.
        to_slot: u64,
    },
    /// Order the UI node after `from`.
    Node {
        /// The upstream node.
        from: GraphNodeRef,
    },
}

/// Plans the render-graph wiring of the UI node. Registration is idempotent:
/// a graph that already holds the node gets no edges at all. Otherwise the
/// swap chain feeds the resolve target under multisampling and the color
/// attachment without it, the depth texture feeds the depth slot, the
/// sampled color attachment feeds the color slot under multisampling, and
/// the node is ordered after the main pass.
pub fn plan_graph_wiring(msaa_samples: u32, already_registered: bool) -> (edges: Vec<GraphEdge>)
    ensures
        already_registered ==> edges@ == Seq::<GraphEdge>::empty(),
        !already_registered && msaa_samples > 1 ==> edges@ == seq![
            (GraphEdge::Slot {
                from: GraphNodeRef::PrimarySwapChain,
                to_slot: SLOT_COLOR_RESOLVE_TARGET,
            }),
            (GraphEdge::Slot { from: GraphNodeRef::MainDepthTexture, to_slot: SLOT_DEPTH }),
            (GraphEdge::Slot {
                from: GraphNodeRef::MainSampledColorAttachment,
                to_slot: SLOT_COLOR_ATTACHMENT,
            }),
            (GraphEdge::Node { from: GraphNodeRef::MainPass }),
        ],
        !already_registered && msaa_samples <= 1 ==> edges@ == seq![
            (GraphEdge::Slot {
                from: GraphNodeRef::PrimarySwapChain,
                to_slot: SLOT_COLOR_ATTACHMENT,
            }),
            (GraphEdge::Slot { from: GraphNodeRef::MainDepthTexture, to_slot: SLOT_DEPTH }),
            (GraphEdge::Node { from: GraphNodeRef::MainPass }),
        ],
{
    let mut edges: Vec<GraphEdge> = Vec::new();
    if already_registered {
        return edges;
    }
    if msaa_samples > 1 {
        edges.push(
            GraphEdge::Slot {
                from: GraphNodeRef::PrimarySwapChain,
                to_slot: SLOT_COLOR_RESOLVE_TARGET,
            },
        );
    } else {
        edges.push(
            GraphEdge::Slot {
                from: GraphNodeRef::PrimarySwapChain,
                to_slot: SLOT_COLOR_ATTACHMENT,
            },
        );
    }
    edges.push(GraphEdge::Slot { from: GraphNodeRef::MainDepthTexture, to_slot: SLOT_DEPTH });
    if msaa_samples > 1 {
        edges.push(
            GraphEdge::Slot {
                from: GraphNodeRef::MainSampledColorAttachment,
                to_slot: SLOT_COLOR_ATTACHMENT,
            },
        );
    }
    edges.push(GraphEdge::Node { from: GraphNodeRef::MainPass });
    proof {
        if msaa_samples > 1 {
            assert(edges@ =~= seq![
                (GraphEdge::Slot {
                    from: GraphNodeRef::PrimarySwapChain,
                    to_slot: SLOT_COLOR_RESOLVE_TARGET,
                }),
                (GraphEdge::Slot {
                    from: GraphNodeRef::MainDepthTexture,
                    to_slot: SLOT_DEPTH,
                }),
                (GraphEdge::Slot {
                    from: GraphNodeRef::MainSampledColorAttachment,
                    to_slot: SLOT_COLOR_ATTACHMENT,
                }),
                (GraphEdge::Node { from: GraphNodeRef::MainPass }),
            ]);
        } else {
            assert(edges@ =~= seq![
                (GraphEdge::Slot {
                    from: GraphNodeRef::PrimarySwapChain,
                    to_slot: SLOT_COLOR_ATTACHMENT,
                }),
                (GraphEdge::Slot {
                    from: GraphNodeRef::MainDepthTexture,
                    to_slot: SLOT_DEPTH,
                }),
                (GraphEdge::Node { from: GraphNodeRef::MainPass }),
            ]);
        }
    }
    edges
}

/// The pass descriptor of the UI pass for a given multisample count: one
/// color attachment resolved from the named input slots — with a resolve
/// target only under multisampling — and a depth attachment from the depth
/// slot.
pub fn ui_pass_descriptor(msaa_samples: u32) -> (d: PassDescriptor)
    ensures
        d.color_attachments@.len() == 1,
        d.color_attachments@[0].attachment == TextureAttachment::Input(SLOT_COLOR_ATTACHMENT),
        d.color_attachments@[0].resolve_target == if msaa_samples > 1 {
            Some(TextureAttachment::Input(SLOT_COLOR_RESOLVE_TARGET))
        } else {
            Option::<TextureAttachment>::None
        },
        d.depth_stencil_attachment == Some(TextureAttachment::Input(SLOT_DEPTH)),
        d.sample_count == msaa_samples,
{
    let resolve_target: Option<TextureAttachment> = if msaa_samples > 1 {
        Some(TextureAttachment::Input(SLOT_COLOR_RESOLVE_TARGET))
    } else {
        None
    };
    let mut color_attachments: Vec<ColorAttachment> = Vec::new();
    color_attachments.push(
        ColorAttachment {
            attachment: TextureAttachment::Input(SLOT_COLOR_ATTACHMENT),
            resolve_target,
        },
    );
    PassDescriptor {
        color_attachments,
        depth_stencil_attachment: Some(TextureAttachment::Input(SLOT_DEPTH)),
        sample_count: msaa_samples,
    }
}

/// The layout of the compiled UI pipeline, as far as the draw-state guard
/// needs it: how many bind group slots and vertex buffer slots it has.
#[derive(Clone, Copy, Debug, PartialEq, Eq, Structural)]
pub struct PipelineLayout {
    /// The number of bind group slots.
    pub bind_group_count: usize,
    /// The number of vertex buffer slots.
    pub vertex_buffer_count: usize,
}

/// The draw state at one point of the command replay, at specification
/// level.
pub struct SpecDrawState {
    /// The bound pipeline, if any.
    pub pipeline: Option<u64>,
    /// Per bind group slot, the bound group.
    pub bind_groups: Seq<Option<u64>>,
    /// Per vertex buffer slot, the bound buffer.
    pub vertex_buffers: Seq<Option<u64>>,
    /// The bound index buffer, if any.
    pub index_buffer: Option<u64>,
}

/// The draw state before any command ran.
pub open spec fn spec_empty_draw_state() -> SpecDrawState {
    SpecDrawState {
        pipeline: None,
        bind_groups: Seq::empty(),
        vertex_buffers: Seq::empty(),
        index_buffer: None,
    }
}

/// A draw call is valid once every bind group slot and every vertex buffer
/// slot of the pipeline layout is bound.
pub open spec fn spec_can_draw(s: SpecDrawState) -> bool {
    (forall|i: int| 0 <= i < s.bind_groups.len() ==> (#[trigger] s.bind_groups[i]) is Some)
        && (forall|i: int|
        0 <= i < s.vertex_buffers.len() ==> (#[trigger] s.vertex_buffers[i]) is Some)
}

/// Whether a command's slot references stay within the current draw state.
pub open spec fn spec_state_ok(s: SpecDrawState, c: RenderCommand) -> bool {
    match c {
        RenderCommand::SetVertexBuffer { slot, .. } => slot < s.vertex_buffers.len(),
        RenderCommand::SetBindGroup { index, .. } => index < s.bind_groups.len(),
        _ => true,
    }
}

/// The draw state after one command: binding a pipeline resets every slot to
/// unbound at the layout's slot counts, binds fill their slot, scissor and
/// draw commands leave the state alone.
pub open spec fn spec_apply_command(
    s: SpecDrawState,
    c: RenderCommand,
    layout: PipelineLayout,
) -> SpecDrawState {
    match c {
        RenderCommand::SetPipeline { pipeline } => SpecDrawState {
            pipeline: Some(pipeline),
            bind_groups: Seq::new(
                layout.bind_group_count as nat,
                |i: int| Option::<u64>::None,
            ),
            vertex_buffers: Seq::new(
                layout.vertex_buffer_count as nat,
                |i: int| Option::<u64>::None,
            ),
            index_buffer: None,
        },
        RenderCommand::SetScissorRect { .. } => s,
        RenderCommand::SetVertexBuffer { slot, buffer, .. } => SpecDrawState {
            vertex_buffers: s.vertex_buffers.update(slot as int, Some(buffer)),
            ..s
        },
        RenderCommand::SetBindGroup { index, texture, .. } => SpecDrawState {
            bind_groups: s.bind_groups.update(index as int, Some(texture)),
            ..s
        },
        RenderCommand::Draw { .. } => s,
    }
}

/// The draw state after a whole command stream.
pub open spec fn spec_state_after(
    s: SpecDrawState,
    cmds: Seq<RenderCommand>,
    layout: PipelineLayout,
) -> SpecDrawState
    decreases cmds.len(),
{
    if cmds.len() == 0 {
        s
    } else {
        spec_state_after(spec_apply_command(s, cmds[0], layout), cmds.drop_first(), layout)
    }
}

/// Every command of the stream keeps its slot references within the draw
/// state it runs under.
pub open spec fn spec_replay_ok(
    s: SpecDrawState,
    cmds: Seq<RenderCommand>,
    layout: PipelineLayout,
) -> bool
    decreases cmds.len(),
{
    if cmds.len() == 0 {
        true
    } else {
        spec_state_ok(s, cmds[0]) && spec_replay_ok(
            spec_apply_command(s, cmds[0], layout),
            cmds.drop_first(),
            layout,
        )
    }
}

/// What one command contributes to the executed pass: itself, except that a
/// draw call under an incompletely bound layout is skipped.
pub open spec fn spec_step_executed(s: SpecDrawState, c: RenderCommand) -> Seq<RenderCommand> {
    match c {
        RenderCommand::Draw { .. } => if spec_can_draw(s) {
            seq![c]
        } else {
            Seq::empty()
        },
        _ => seq![c],
    }
}

/// The commands a whole stream actually executes on the pass.
pub open spec fn spec_executed(
    s: SpecDrawState,
    cmds: Seq<RenderCommand>,
    layout: PipelineLayout,
) -> Seq<RenderCommand>
    decreases cmds.len(),
{
    if cmds.len() == 0 {
        Seq::empty()
    } else {
        spec_step_executed(s, cmds[0]) + spec_executed(
            spec_apply_command(s, cmds[0], layout),
            cmds.drop_first(),
            layout,
        )
    }
}

/// Appending one command appends exactly its contribution, taken in the
/// draw state the prefix leaves behind.
pub proof fn lemma_replay_snoc(
    s: SpecDrawState,
    cmds: Seq<RenderCommand>,
    c: RenderCommand,
    layout: PipelineLayout,
)
    ensures
        spec_state_after(s, cmds.push(c), layout) == spec_apply_command(
            spec_state_after(s, cmds, layout),
            c,
            layout,
        ),
        spec_executed(s, cmds.push(c), layout) == spec_executed(s, cmds, layout)
            + spec_step_executed(spec_state_after(s, cmds, layout), c),
    decreases cmds.len(),
{
    if cmds.len() == 0 {
        let pushed = cmds.push(c);
        let one = spec_step_executed(s, c);
        assert(pushed.len() == 1);
        assert(pushed[0] == c);
        assert(pushed.drop_first() =~= Seq::<RenderCommand>::empty());
        assert(pushed.drop_first() == Seq::<RenderCommand>::empty());
        let s1 = spec_apply_command(s, c, layout);
        assert(spec_executed(s1, pushed.drop_first(), layout)
            == Seq::<RenderCommand>::empty());
        assert(spec_state_after(s1, pushed.drop_first(), layout) == s1);
        assert(spec_executed(s, pushed, layout) == one + Seq::<RenderCommand>::empty());
        assert(one + Seq::<RenderCommand>::empty() =~= one);
        assert(spec_executed(s, cmds, layout) == Seq::<RenderCommand>::empty());
        assert(Seq::<RenderCommand>::empty() + one =~= one);
        assert(spec_state_after(s, cmds, layout) == s);
        assert(spec_state_after(s, pushed, layout) == spec_state_after(
            s1,
            pushed.drop_first(),
            layout,
        ));
    } else {
        assert(cmds.push(c)[0] == cmds[0]);
        assert(cmds.push(c).drop_first() =~= cmds.drop_first().push(c));
        lemma_replay_snoc(spec_apply_command(s, cmds[0], layout), cmds.drop_first(), c, layout);
        assert(spec_step_executed(s, cmds[0]) + (spec_executed(
            spec_apply_command(s, cmds[0], layout),
            cmds.drop_first(),
            layout,
        ) + spec_step_executed(
            spec_state_after(spec_apply_command(s, cmds[0], layout), cmds.drop_first(), layout),
            c,
        )) =~= spec_executed(s, cmds, layout) + spec_step_executed(
            spec_state_after(s, cmds, layout),
            c,
        ));
    }
}

/// Tracks the current pipeline state to ensure draw calls are valid: a draw
/// is issued only once every slot the pipeline layout declares is bound.
pub struct DrawState {
    pipeline: Option<u64>,
    bind_groups: Vec<Option<u64>>,
    vertex_buffers: Vec<Option<u64>>,
    index_buffer: Option<u64>,
}

impl View for DrawState {
    type V = SpecDrawState;

    /// The draw state at specification level.
    closed spec fn view(&self) -> SpecDrawState {
        SpecDrawState {
            pipeline: self.pipeline,
            bind_groups: self.bind_groups@,
            vertex_buffers: self.vertex_buffers@,
            index_buffer: self.index_buffer,
        }
    }
}

impl DrawState {
    /// The state before any command ran: nothing bound, no slots.
    pub fn new() -> (s: Self)
        ensures
            s@ == spec_empty_draw_state(),
    {
        let s = DrawState {
            pipeline: None,
            bind_groups: Vec::new(),
            vertex_buffers: Vec::new(),
            index_buffer: None,
        };
        proof {
            assert(s@.bind_groups =~= spec_empty_draw_state().bind_groups);
            assert(s@.vertex_buffers =~= spec_empty_draw_state().vertex_buffers);
        }
        s
    }

    /// Binds a group into its slot.
    pub fn set_bind_group(&mut self, index: u32, bind_group: u64)
        requires
            index < old(self)@.bind_groups.len(),
        ensures
            final(self)@ == (SpecDrawState {
                bind_groups: old(self)@.bind_groups.update(index as int, Some(bind_group)),
                ..old(self)@
            }),
    {
        self.bind_groups.set(index as usize, Some(bind_group));
    }

    /// Binds a vertex buffer into its slot.
    pub fn set_vertex_buffer(&mut self, slot: u32, buffer: u64)
        requires
            slot < old(self)@.vertex_buffers.len(),
        ensures
            final(self)@ == (SpecDrawState {
                vertex_buffers: old(self)@.vertex_buffers.update(slot as int, Some(buffer)),
                ..old(self)@
            }),
    {
        self.vertex_buffers.set(slot as usize, Some(buffer));
    }

    /// Whether a draw call is valid now: every bind group slot and vertex
    /// buffer slot of the current layout is bound.
    pub fn can_draw(&self) -> (r: bool)
        ensures
            r == spec_can_draw(self@),
    {
        let mut i: usize = 0;
        let n = self.bind_groups.len();
        while i < n
            invariant
                i <= n,
                n == self@.bind_groups.len(),
                forall|j: int| 0 <= j < i ==> (#[trigger] self@.bind_groups[j]) is Some,
            decreases n - i,
        {
            if self.bind_groups[i].is_none() {
                return false;
            }
            i = i + 1;
        }
        let mut i: usize = 0;
        let n = self.vertex_buffers.len();
        while i < n
            invariant
                i <= n,
                n == self@.vertex_buffers.len(),
                forall|j: int| 0 <= j < self@.bind_groups.len() ==> (#[trigger] self@.bind_groups[j]) is Some,
                forall|j: int| 0 <= j < i ==> (#[trigger] self@.vertex_buffers[j]) is Some,
            decreases n - i,
        {
            if self.vertex_buffers[i].is_none() {
                return false;
            }
            i = i + 1;
        }
        true
    }

    /// Binds a pipeline: every slot the layout declares becomes unbound and
    /// must be re-bound before the next draw call.
    pub fn set_pipeline(&mut self, pipeline: u64, layout: &PipelineLayout)
        ensures
            final(self)@ == spec_apply_command(
                old(self)@,
                (RenderCommand::SetPipeline { pipeline }),
                *layout,
            ),
    {
        self.pipeline = Some(pipeline);
        self.index_buffer = None;
        self.bind_groups.clear();
        let mut i: usize = 0;
        while i < layout.bind_group_count
            invariant
                i <= layout.bind_group_count,
                self.pipeline == Some(pipeline),
                self.index_buffer is None,
                self.bind_groups@.len() == i,
                forall|j: int| 0 <= j < i ==> (#[trigger] self.bind_groups@[j]) is None,
            decreases layout.bind_group_count - i,
        {
            self.bind_groups.push(None);
            i = i + 1;
        }
        self.vertex_buffers.clear();
        let mut i: usize = 0;
        while i < layout.vertex_buffer_count
            invariant
                i <= layout.vertex_buffer_count,
                self.pipeline == Some(pipeline),
                self.index_buffer is None,
                self.bind_groups@.len() == layout.bind_group_count,
                forall|j: int|
                    0 <= j < self.bind_groups@.len() ==> (#[trigger] self.bind_groups@[j]) is None,
                self.vertex_buffers@.len() == i,
                forall|j: int| 0 <= j < i ==> (#[trigger] self.vertex_buffers@[j]) is None,
            decreases layout.vertex_buffer_count - i,
        {
            self.vertex_buffers.push(None);
            i = i + 1;
        }
        proof {
            let expected = spec_apply_command(
                old(self)@,
                (RenderCommand::SetPipeline { pipeline }),
                *layout,
            );
            assert(self@.bind_groups =~= expected.bind_groups);
            assert(self@.vertex_buffers =~= expected.vertex_buffers);
        }
    }
}

/// Replays an accumulated pass command buffer against a fresh draw state:
/// every command is executed in order, except that a draw call whose
/// pipeline layout is not fully bound yet is skipped rather than issued.
pub fn replay_commands(commands: &Vec<RenderCommand>, layout: &PipelineLayout) -> (executed: Vec<
    RenderCommand,
>)
    requires
        spec_replay_ok(spec_empty_draw_state(), commands@, *layout),
    ensures
        executed@ == spec_executed(spec_empty_draw_state(), commands@, *layout),
{
    let mut state = DrawState::new();
    let mut out: Vec<RenderCommand> = Vec::new();
    let n = commands.len();
    let mut i: usize = 0;
    proof {
        assert(commands@.skip(0) =~= commands@);
        assert(commands@.take(0) =~= Seq::<RenderCommand>::empty());
    }
    while i < n
        invariant
            i <= n,
            n == commands@.len(),
            spec_replay_ok(spec_empty_draw_state(), commands@, *layout),
            state@ == spec_state_after(spec_empty_draw_state(), commands@.take(i as int), *layout),
            out@ == spec_executed(spec_empty_draw_state(), commands@.take(i as int), *layout),
            spec_replay_ok(state@, commands@.skip(i as int), *layout),
        decreases n - i,
    {
        let ghost prefix = commands@.take(i as int);
        proof {
            lemma_replay_snoc(spec_empty_draw_state(), prefix, commands@[i as int], *layout);
            assert(commands@.take(i as int + 1) =~= prefix.push(commands@[i as int]));
            assert(commands@.skip(i as int)[0] == commands@[i as int]);
            assert(commands@.skip(i as int).drop_first() =~= commands@.skip(i as int + 1));
        }
        let c = commands[i];
        match c {
            RenderCommand::SetPipeline { pipeline } => {
                state.set_pipeline(pipeline, layout);
                out.push(c);
            },
            RenderCommand::SetScissorRect { .. } => {
                out.push(c);
            },
            RenderCommand::SetVertexBuffer { slot, buffer, .. } => {
                state.set_vertex_buffer(slot, buffer);
                out.push(c);
            },
            RenderCommand::SetBindGroup { index, texture, .. } => {
                state.set_bind_group(index, texture);
                out.push(c);
            },
            RenderCommand::Draw { .. } => {
                if state.can_draw() {
                    out.push(c);
                }
            },
        }
        i = i + 1;
        proof {
            assert(state@ == spec_state_after(
                spec_empty_draw_state(),
                commands@.take(i as int),
                *layout,
            ));
            assert(out@ =~= spec_executed(
                spec_empty_draw_state(),
                commands@.take(i as int),
                *layout,
            ));
        }
    }
    proof {
        assert(commands@.take(n as int) =~= commands@);
    }
    out
}

} // verus!
