use pet2d::{circle_fan_indices, frame_cell, Playback};

// 4 columns x 2 rows
const GRID: (u32, u32) = (4, 2);

#[test]
fn frame_cell_maps_row_major_frames_to_cells() {
    assert_eq!(frame_cell(GRID, 0), (0, 0));
    assert_eq!(frame_cell(GRID, 5), (1, 1));
    assert_eq!(frame_cell(GRID, 7), (3, 1));
}

#[test]
fn frames_beyond_the_grid_wrap_around() {
    assert_eq!(frame_cell(GRID, 8), (0, 0));
    assert_eq!(frame_cell(GRID, 13), frame_cell(GRID, 5));
}

#[test]
fn zero_sized_grids_count_as_one_cell() {
    assert_eq!(frame_cell((0, 0), 3), (0, 0));
    assert_eq!(frame_cell((3, 0), 4), (1, 0));
}

#[test]
fn looping_playback_wraps_back_to_the_first_frame() {
    let mut playback = Playback::new(3, true);
    playback.advance();
    assert_eq!(playback.current_frame(), 1);
    playback.advance();
    assert_eq!(playback.current_frame(), 2);
    playback.advance();
    assert_eq!(playback.current_frame(), 0);
    assert!(!playback.is_finished());
}

#[test]
fn one_shot_playback_holds_and_finishes_at_the_last_frame() {
    let mut playback = Playback::new(4, false);
    assert!(!playback.is_finished());
    for _ in 0..5 {
        playback.advance();
    }
    assert_eq!(playback.current_frame(), 3);
    assert!(playback.is_finished());
    playback.advance();
    assert_eq!(playback.current_frame(), 3);
}

#[test]
fn degenerate_lengths_report_finished_without_playing() {
    // nothing to play means already done; a single frame completes it
    assert!(Playback::new(0, false).is_finished());
    assert!(Playback::new(1, false).is_finished());
    assert!(!Playback::new(2, false).is_finished());
}

#[test]
fn looping_playbacks_are_never_finished() {
    let mut playback = Playback::new(4, true);
    assert!(!Playback::new(0, true).is_finished());
    for _ in 0..50 {
        playback.advance();
        assert!(!playback.is_finished());
    }
    assert_eq!(playback.current_frame(), 50 % 4);
}

#[test]
fn circle_fan_indices_close_the_ring_for_any_segment_count() {
    let segments = 48;
    let indices = circle_fan_indices(segments);
    assert_eq!(indices.len(), segments as usize * 3);
    // every triangle references the fan center and two adjacent rim
    // vertices, with the last triangle wrapping back to the first
    for (i, tri) in indices.chunks_exact(3).enumerate() {
        assert_eq!(tri, &[0, i as u32 + 1, (i as u32 + 1) % segments as u32 + 1]);
    }
}

#[test]
fn four_segment_fan_has_four_triangles() {
    assert_eq!(
        circle_fan_indices(4),
        vec![0, 1, 2, 0, 2, 3, 0, 3, 4, 0, 4, 1]
    );
    assert!(circle_fan_indices(0).is_empty());
}
