use widget_bridge::event::{Event, Key};
use widget_bridge::session::{CommandQueue, SendResult, Ui, COMMAND_CAPACITY};

#[test]
fn commands_drain_in_fifo_order_without_loss() {
    // three producers send before one frame update; the drain yields
    // everything in send order
    let mut ui: Ui<&'static str> = Ui::new();
    assert_eq!(ui.send_command("A"), SendResult::Sent);
    assert_eq!(ui.send_command("B"), SendResult::Sent);
    assert_eq!(ui.send_command("C"), SendResult::Sent);
    let drained = ui.update_commands();
    assert_eq!(drained, vec!["A", "B", "C"]);
    assert_eq!(drained.len(), 3);
    // the queue is empty afterwards and applying the commands marked the
    // session dirty
    assert!(ui.needs_redraw());
    let empty = ui.update_commands();
    assert_eq!(empty.len(), 0);
}

#[test]
fn queue_applies_backpressure_at_capacity() {
    let mut q: CommandQueue<u32> = CommandQueue::new();
    for i in 0..COMMAND_CAPACITY {
        assert_eq!(q.try_send(i as u32), SendResult::Sent);
    }
    assert_eq!(q.len(), COMMAND_CAPACITY);
    assert_eq!(q.try_send(999), SendResult::Full);
    assert_eq!(q.len(), COMMAND_CAPACITY);
    let drained = q.drain();
    assert_eq!(drained.len(), COMMAND_CAPACITY);
    assert_eq!(drained[0], 0);
    assert_eq!(drained[COMMAND_CAPACITY - 1], (COMMAND_CAPACITY - 1) as u32);
    assert_eq!(q.try_send(999), SendResult::Sent);
}

#[test]
fn closed_queue_reports_disconnect() {
    let mut q: CommandQueue<u32> = CommandQueue::new();
    assert_eq!(q.try_send(1), SendResult::Sent);
    q.close();
    assert_eq!(q.try_send(2), SendResult::Disconnected);
    // what was pending before the close still drains
    assert_eq!(q.drain(), vec![1]);
}

#[test]
fn resize_triggers_redraw_only_on_size_change() {
    let mut ui: Ui<u32> = Ui::new();
    assert!(!ui.needs_redraw());
    // first resize: no size was applied yet
    assert!(ui.resize(800, 600));
    assert!(ui.needs_redraw());
    ui.mark_drawn();
    // repeating the same size triggers nothing
    assert!(!ui.resize(800, 600));
    assert!(!ui.needs_redraw());
    assert!(!ui.resize(800, 600));
    assert!(!ui.needs_redraw());
    // an actual change triggers again
    assert!(ui.resize(801, 600));
    assert!(ui.needs_redraw());
}

#[test]
fn input_and_stylesheet_changes_mark_dirty() {
    let mut ui: Ui<u32> = Ui::new();
    assert!(!ui.needs_redraw());
    ui.event(&Event::Press(Key::A));
    assert!(ui.needs_redraw());
    ui.mark_drawn();
    assert!(!ui.needs_redraw());
    ui.replace_stylesheet(7);
    assert!(ui.needs_redraw());
}

#[test]
fn draw_extraction_is_idempotent_on_clean_sessions() {
    let mut ui: Ui<u32> = Ui::new();
    ui.mark_drawn();
    assert!(!ui.needs_redraw());
    ui.mark_drawn();
    assert!(!ui.needs_redraw());
}

#[test]
fn sending_does_not_dirty_until_drained() {
    let mut ui: Ui<u32> = Ui::new();
    ui.send_command(1);
    assert!(!ui.needs_redraw());
    ui.update_commands();
    assert!(ui.needs_redraw());
}
