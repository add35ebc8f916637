use widget_bridge::draw::{Command, DrawList, Update};
use widget_bridge::reconcile::{pad_rows, padded_stride, prepare_upload, TextureCache, UiDraw};

#[test]
fn row_padding_reaches_next_alignment_multiple() {
    // 100 pixels of 4 bytes are 400 bytes per row, padded to 512
    assert_eq!(padded_stride(100), 512);
    // an already aligned row stays as it is
    assert_eq!(padded_stride(64), 256);
    assert_eq!(padded_stride(128), 512);
    assert_eq!(padded_stride(0), 0);
    assert_eq!(padded_stride(1), 256);
}

#[test]
fn padded_buffer_length_is_stride_times_height() {
    // texture width 100 px, 25 rows: each 400-byte row becomes 512 bytes
    let height = 25u32;
    let data = vec![0xabu8; 400 * height as usize];
    let padded = pad_rows(&data, 100, height);
    assert_eq!(padded.len(), 512 * height as usize);
}

#[test]
fn padded_rows_copy_pixels_and_zero_fill() {
    // two rows of 1 pixel each: 4 data bytes per row, 252 zero bytes appended
    let data = vec![1u8, 2, 3, 4, 5, 6, 7, 8];
    let padded = pad_rows(&data, 1, 2);
    assert_eq!(padded.len(), 512);
    assert_eq!(&padded[0..4], &[1, 2, 3, 4]);
    assert!(padded[4..256].iter().all(|&b| b == 0));
    assert_eq!(&padded[256..260], &[5, 6, 7, 8]);
    assert!(padded[260..512].iter().all(|&b| b == 0));
}

#[test]
fn aligned_rows_need_no_padding() {
    // 64 px of 4 bytes are exactly 256 bytes: the data passes through
    let data: Vec<u8> = (0..=255u8).collect();
    let padded = pad_rows(&data, 64, 1);
    assert_eq!(padded, data);
}

#[test]
fn texture_replacement_keeps_one_handle_live() {
    // two successive texture updates with the same id: exactly one host
    // texture stays live, the superseded handle comes back for release
    let mut cache = TextureCache::new();
    let mut released: Vec<u64> = Vec::new();
    if let Some(old) = cache.insert(7, 100) {
        released.push(old);
    }
    if let Some(old) = cache.insert(7, 200) {
        released.push(old);
    }
    assert_eq!(released, vec![100]);
    assert_eq!(released.len(), 1);
    assert_eq!(cache.get(7), Some(200));
    assert_eq!(cache.len(), 1);
}

#[test]
fn cache_tracks_first_registered_texture() {
    let mut cache = TextureCache::new();
    assert_eq!(cache.first_handle(), None);
    cache.insert(5, 500);
    cache.insert(3, 300);
    assert_eq!(cache.first_handle(), Some(500));
    assert!(cache.contains(3));
    assert!(!cache.contains(4));
    assert_eq!(cache.len(), 2);
}

#[test]
fn vertex_buffer_replacement_releases_old_after_new_is_ready() {
    let mut draw = UiDraw::new();
    assert!(!draw.has_vertex_buffer());
    assert_eq!(draw.replace_vertex_buffer(11), None);
    assert!(draw.has_vertex_buffer());
    // the next draw produced vertices again: the old buffer is handed back
    // only once the new one is installed
    assert_eq!(draw.replace_vertex_buffer(12), Some(11));
    assert_eq!(draw.current_vertex_buffer(), Some(12));
}

#[test]
fn empty_draw_releases_the_buffer_and_marks_none_present() {
    let mut draw = UiDraw::new();
    draw.replace_vertex_buffer(11);
    // a draw list with zero vertices: release and record "no buffer"
    assert_eq!(draw.clear_vertex_buffer(), Some(11));
    assert!(!draw.has_vertex_buffer());
    assert_eq!(draw.current_vertex_buffer(), None);
    // clearing again releases nothing
    assert_eq!(draw.clear_vertex_buffer(), None);
}

#[test]
fn empty_vertex_list_triggers_the_buffer_release() {
    let mut draw = UiDraw::new();
    // a non-empty draw installs the freshly created buffer
    assert_eq!(draw.apply_vertex_buffer(3, Some(11)), None);
    assert_eq!(draw.current_vertex_buffer(), Some(11));
    // the next draw has zero vertices: the old buffer comes back for
    // release exactly once and "no buffer present" is recorded
    assert_eq!(draw.apply_vertex_buffer(0, None), Some(11));
    assert!(!draw.has_vertex_buffer());
    assert_eq!(draw.apply_vertex_buffer(0, None), None);
}

#[test]
fn ingested_draw_lists_queue_updates_and_replace_commands() {
    let mut draw = UiDraw::new();
    let first = DrawList {
        updates: vec![Update::Texture { id: 1, width: 2, height: 2, data: vec![9; 16], atlas: false }],
        commands: vec![Command::Colored { offset: 0, count: 3 }],
        vertex_count: 3,
    };
    assert_eq!(draw.ingest_draw_list(first), 3);
    let second = DrawList {
        updates: vec![Update::TextureSubresource {
            id: 1,
            x: 0,
            y: 0,
            width: 1,
            height: 1,
            data: vec![8; 4],
        }],
        commands: vec![Command::Nop],
        vertex_count: 0,
    };
    assert_eq!(draw.ingest_draw_list(second), 0);
    // updates accumulate in order, commands are replaced wholesale
    let updates = draw.take_updates();
    assert_eq!(updates.len(), 2);
    assert!(matches!(updates[0], Update::Texture { id: 1, .. }));
    assert!(matches!(updates[1], Update::TextureSubresource { id: 1, .. }));
    assert_eq!(draw.commands().as_slice(), &[Command::Nop]);
    assert_eq!(draw.take_updates().len(), 0);
}

#[test]
fn prepare_upload_pads_new_textures_at_origin() {
    let update = Update::Texture { id: 3, width: 1, height: 1, data: vec![1, 2, 3, 4], atlas: true };
    let upload = prepare_upload(&update);
    assert_eq!(upload.id, 3);
    assert_eq!((upload.x, upload.y), (0, 0));
    assert_eq!((upload.width, upload.height), (1, 1));
    assert_eq!(upload.row_stride, 256);
    assert_eq!(upload.data.len(), 256);
    assert_eq!(&upload.data[0..4], &[1, 2, 3, 4]);
    assert!(upload.creates);
    assert!(upload.atlas);
}

#[test]
fn prepare_upload_patches_subresources_at_their_offset() {
    let update = Update::TextureSubresource {
        id: 9,
        x: 16,
        y: 32,
        width: 2,
        height: 1,
        data: vec![5, 5, 5, 5, 6, 6, 6, 6],
    };
    let upload = prepare_upload(&update);
    assert_eq!(upload.id, 9);
    assert_eq!((upload.x, upload.y), (16, 32));
    assert_eq!(upload.row_stride, 256);
    assert_eq!(upload.data.len(), 256);
    assert_eq!(&upload.data[0..8], &[5, 5, 5, 5, 6, 6, 6, 6]);
    assert!(!upload.creates);
}
