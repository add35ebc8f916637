use widget_bridge::emit::RenderCommand;
use widget_bridge::node::{
    plan_graph_wiring, replay_commands, ui_pass_descriptor, ColorAttachment, DrawState,
    GraphEdge, GraphNodeRef, PassDescriptor, PipelineLayout, TextureAttachment, UiNode,
    SLOT_COLOR_ATTACHMENT, SLOT_COLOR_RESOLVE_TARGET, SLOT_DEPTH,
};

#[test]
fn node_assigns_slots_in_resolution_order() {
    let descriptor = PassDescriptor {
        color_attachments: vec![ColorAttachment {
            attachment: TextureAttachment::Input(SLOT_COLOR_ATTACHMENT),
            resolve_target: Some(TextureAttachment::Input(SLOT_COLOR_RESOLVE_TARGET)),
        }],
        depth_stencil_attachment: Some(TextureAttachment::Input(SLOT_DEPTH)),
        sample_count: 4,
    };
    let node = UiNode::new(descriptor);
    assert_eq!(
        node.input().as_slice(),
        &[SLOT_COLOR_ATTACHMENT, SLOT_COLOR_RESOLVE_TARGET, SLOT_DEPTH]
    );
}

#[test]
fn node_skips_resolved_attachments() {
    let descriptor = PassDescriptor {
        color_attachments: vec![
            ColorAttachment {
                attachment: TextureAttachment::Id(999),
                resolve_target: None,
            },
            ColorAttachment {
                attachment: TextureAttachment::Input(SLOT_COLOR_ATTACHMENT),
                resolve_target: None,
            },
        ],
        depth_stencil_attachment: None,
        sample_count: 1,
    };
    let node = UiNode::new(descriptor);
    assert_eq!(node.input().as_slice(), &[SLOT_COLOR_ATTACHMENT]);
}

#[test]
fn wiring_without_multisampling_feeds_the_swap_chain_directly() {
    let edges = plan_graph_wiring(1, false);
    assert_eq!(
        edges,
        vec![
            GraphEdge::Slot {
                from: GraphNodeRef::PrimarySwapChain,
                to_slot: SLOT_COLOR_ATTACHMENT,
            },
            GraphEdge::Slot { from: GraphNodeRef::MainDepthTexture, to_slot: SLOT_DEPTH },
            GraphEdge::Node { from: GraphNodeRef::MainPass },
        ]
    );
}

#[test]
fn wiring_with_multisampling_adds_the_sampled_attachment() {
    let edges = plan_graph_wiring(4, false);
    assert_eq!(
        edges,
        vec![
            GraphEdge::Slot {
                from: GraphNodeRef::PrimarySwapChain,
                to_slot: SLOT_COLOR_RESOLVE_TARGET,
            },
            GraphEdge::Slot { from: GraphNodeRef::MainDepthTexture, to_slot: SLOT_DEPTH },
            GraphEdge::Slot {
                from: GraphNodeRef::MainSampledColorAttachment,
                to_slot: SLOT_COLOR_ATTACHMENT,
            },
            GraphEdge::Node { from: GraphNodeRef::MainPass },
        ]
    );
}

#[test]
fn registration_is_idempotent() {
    assert_eq!(plan_graph_wiring(4, true), Vec::new());
    assert_eq!(plan_graph_wiring(1, true), Vec::new());
}

#[test]
fn pass_descriptor_resolves_from_named_slots() {
    let d = ui_pass_descriptor(4);
    assert_eq!(d.color_attachments.len(), 1);
    assert_eq!(
        d.color_attachments[0].attachment,
        TextureAttachment::Input(SLOT_COLOR_ATTACHMENT)
    );
    assert_eq!(
        d.color_attachments[0].resolve_target,
        Some(TextureAttachment::Input(SLOT_COLOR_RESOLVE_TARGET))
    );
    assert_eq!(d.depth_stencil_attachment, Some(TextureAttachment::Input(SLOT_DEPTH)));
    assert_eq!(d.sample_count, 4);
    let single = ui_pass_descriptor(1);
    assert_eq!(single.color_attachments[0].resolve_target, None);
}

#[test]
fn replay_executes_fully_bound_draws() {
    let layout = PipelineLayout { bind_group_count: 1, vertex_buffer_count: 1 };
    let commands = vec![
        RenderCommand::SetPipeline { pipeline: 1 },
        RenderCommand::SetVertexBuffer { slot: 0, buffer: 10, offset: 0 },
        RenderCommand::SetBindGroup { index: 0, texture: 20, sampler: 30 },
        RenderCommand::Draw { start_vertex: 0, end_vertex: 3 },
    ];
    let executed = replay_commands(&commands, &layout);
    assert_eq!(executed, commands);
}

#[test]
fn replay_skips_draws_with_unbound_slots() {
    let layout = PipelineLayout { bind_group_count: 1, vertex_buffer_count: 1 };
    let commands = vec![
        RenderCommand::SetPipeline { pipeline: 1 },
        RenderCommand::SetVertexBuffer { slot: 0, buffer: 10, offset: 0 },
        // no bind group was set: the draw cannot be issued
        RenderCommand::Draw { start_vertex: 0, end_vertex: 3 },
        RenderCommand::SetBindGroup { index: 0, texture: 20, sampler: 30 },
        RenderCommand::Draw { start_vertex: 0, end_vertex: 3 },
    ];
    let executed = replay_commands(&commands, &layout);
    assert_eq!(
        executed,
        vec![
            RenderCommand::SetPipeline { pipeline: 1 },
            RenderCommand::SetVertexBuffer { slot: 0, buffer: 10, offset: 0 },
            RenderCommand::SetBindGroup { index: 0, texture: 20, sampler: 30 },
            RenderCommand::Draw { start_vertex: 0, end_vertex: 3 },
        ]
    );
}

#[test]
fn binding_a_pipeline_resets_the_draw_state() {
    let layout = PipelineLayout { bind_group_count: 1, vertex_buffer_count: 1 };
    let mut state = DrawState::new();
    state.set_pipeline(1, &layout);
    assert!(!state.can_draw());
    state.set_bind_group(0, 20);
    assert!(!state.can_draw());
    state.set_vertex_buffer(0, 10);
    assert!(state.can_draw());
    // re-binding the pipeline unbinds every slot again
    state.set_pipeline(2, &layout);
    assert!(!state.can_draw());
}

#[test]
fn empty_layout_can_always_draw() {
    let state = DrawState::new();
    assert!(state.can_draw());
}

#[test]
fn node_command_buffer_swaps_per_frame() {
    let descriptor = ui_pass_descriptor(1);
    let mut node = UiNode::new(descriptor);
    let frame = vec![RenderCommand::SetPipeline { pipeline: 1 }];
    let previous = node.set_commands(frame.clone());
    assert_eq!(previous, Vec::new());
    let taken = node.take_commands();
    assert_eq!(taken, frame);
    assert_eq!(node.take_commands(), Vec::new());
}
