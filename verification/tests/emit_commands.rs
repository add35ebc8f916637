use widget_bridge::draw::{Command, DrawList, Rect};
use widget_bridge::emit::{begin_pass, emit_entity, scale_scissor, RenderCommand};
use widget_bridge::reconcile::UiDraw;

#[test]
fn clip_regions_scale_by_the_display_factor() {
    // clip {left:10, top:20, width:100, height:50} under scale factor 2.0
    let clip = Rect { left: 10, top: 20, right: 110, bottom: 70 };
    let scaled = scale_scissor(&clip, 200);
    assert_eq!(scaled, RenderCommand::SetScissorRect { x: 20, y: 40, w: 200, h: 100 });
}

#[test]
fn clip_scaling_truncates_to_whole_pixels() {
    let clip = Rect { left: 3, top: 0, right: 10, bottom: 1 };
    // scale factor 1.5: 3 * 1.5 = 4.5 truncates to 4, 7 * 1.5 = 10.5 to 10
    let scaled = scale_scissor(&clip, 150);
    assert_eq!(scaled, RenderCommand::SetScissorRect { x: 4, y: 0, w: 10, h: 1 });
    // scale factor 1.0 is the identity
    let unscaled = scale_scissor(&clip, 100);
    assert_eq!(unscaled, RenderCommand::SetScissorRect { x: 3, y: 0, w: 7, h: 1 });
}

fn draw_with(commands: Vec<Command>, vertex_count: usize) -> UiDraw {
    let mut draw = UiDraw::new();
    draw.ingest_draw_list(DrawList { updates: Vec::new(), commands, vertex_count });
    draw
}

#[test]
fn entity_without_vertex_buffer_emits_nothing() {
    // after an empty draw the buffer is gone; emission must produce zero
    // commands for that entity, draw calls included
    let mut draw = draw_with(vec![Command::Colored { offset: 0, count: 3 }], 3);
    draw.register_texture(1, 100);
    draw.clear_vertex_buffer();
    let mut out: Vec<RenderCommand> = Vec::new();
    let mut bound = false;
    emit_entity(&draw, 77, 1280, 720, 100, &mut bound, &mut out);
    assert_eq!(out, Vec::new());
    assert!(!bound);
}

#[test]
fn colored_geometry_binds_the_first_texture_once() {
    let mut draw = draw_with(
        vec![
            Command::Colored { offset: 0, count: 3 },
            Command::Colored { offset: 3, count: 6 },
        ],
        9,
    );
    draw.register_texture(5, 500);
    draw.register_texture(6, 600);
    draw.replace_vertex_buffer(42);
    let mut out: Vec<RenderCommand> = Vec::new();
    let mut bound = false;
    emit_entity(&draw, 77, 1280, 720, 100, &mut bound, &mut out);
    assert_eq!(
        out,
        vec![
            RenderCommand::SetVertexBuffer { slot: 0, buffer: 42, offset: 0 },
            RenderCommand::SetScissorRect { x: 0, y: 0, w: 1280, h: 720 },
            // the first registered texture is bound as a placeholder, once
            RenderCommand::SetBindGroup { index: 0, texture: 500, sampler: 77 },
            RenderCommand::Draw { start_vertex: 0, end_vertex: 3 },
            RenderCommand::Draw { start_vertex: 3, end_vertex: 9 },
        ]
    );
    assert!(bound);
}

#[test]
fn textured_geometry_binds_its_own_texture() {
    let mut draw = draw_with(
        vec![
            Command::Nop,
            Command::Clip { scissor: Rect { left: 0, top: 0, right: 100, bottom: 50 } },
            Command::Textured { texture: 5, offset: 0, count: 3 },
        ],
        3,
    );
    draw.register_texture(5, 500);
    draw.replace_vertex_buffer(42);
    let mut out: Vec<RenderCommand> = Vec::new();
    let mut bound = false;
    emit_entity(&draw, 77, 800, 600, 100, &mut bound, &mut out);
    assert_eq!(
        out,
        vec![
            RenderCommand::SetVertexBuffer { slot: 0, buffer: 42, offset: 0 },
            RenderCommand::SetScissorRect { x: 0, y: 0, w: 800, h: 600 },
            RenderCommand::SetScissorRect { x: 0, y: 0, w: 100, h: 50 },
            RenderCommand::SetBindGroup { index: 0, texture: 500, sampler: 77 },
            RenderCommand::Draw { start_vertex: 0, end_vertex: 3 },
        ]
    );
    assert!(bound);
}

#[test]
fn a_pass_binds_the_pipeline_once() {
    let mut out: Vec<RenderCommand> = Vec::new();
    let mut bound = true;
    begin_pass(9, &mut out, &mut bound);
    assert_eq!(out, vec![RenderCommand::SetPipeline { pipeline: 9 }]);
    assert!(!bound);
}

#[test]
fn bind_state_carries_across_entities() {
    // once some entity bound a group, colored geometry of the next entity
    // needs no placeholder bind
    let mut first = draw_with(vec![Command::Textured { texture: 1, offset: 0, count: 3 }], 3);
    first.register_texture(1, 100);
    first.replace_vertex_buffer(41);
    let mut second = draw_with(vec![Command::Colored { offset: 0, count: 3 }], 3);
    second.replace_vertex_buffer(43);
    let mut out: Vec<RenderCommand> = Vec::new();
    let mut bound = false;
    emit_entity(&first, 77, 640, 480, 100, &mut bound, &mut out);
    emit_entity(&second, 77, 640, 480, 100, &mut bound, &mut out);
    assert_eq!(
        out,
        vec![
            RenderCommand::SetVertexBuffer { slot: 0, buffer: 41, offset: 0 },
            RenderCommand::SetScissorRect { x: 0, y: 0, w: 640, h: 480 },
            RenderCommand::SetBindGroup { index: 0, texture: 100, sampler: 77 },
            RenderCommand::Draw { start_vertex: 0, end_vertex: 3 },
            RenderCommand::SetVertexBuffer { slot: 0, buffer: 43, offset: 0 },
            RenderCommand::SetScissorRect { x: 0, y: 0, w: 640, h: 480 },
            RenderCommand::Draw { start_vertex: 0, end_vertex: 3 },
        ]
    );
}
