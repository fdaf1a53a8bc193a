use voiceforge::mode::PanelFocus;
use voiceforge::navigation::{
    band_left, band_right, block_char_for_pos, last_frame_start, slider_down, slider_up,
    PickerCursor, EQ_BAND_COUNT, VISIBLE_ROWS,
};

#[test]
fn test_slider_selection_stops_at_both_ends() {
    assert_eq!(slider_up(0), 0);
    assert_eq!(slider_up(3), 2);
    assert_eq!(slider_down(0, 6), 1);
    assert_eq!(slider_down(4, 6), 5);
    assert_eq!(slider_down(5, 6), 5);
    assert_eq!(slider_down(0, 0), 0);
    assert_eq!(slider_down(usize::MAX, 3), usize::MAX);
    assert_eq!(slider_down(usize::MAX, usize::MAX), usize::MAX);
}

#[test]
fn test_panel_slider_counts() {
    assert_eq!(PanelFocus::WorldSliders.slider_count(), 6);
    assert_eq!(PanelFocus::EffectsSliders.slider_count(), 5);
    assert_eq!(PanelFocus::Master.slider_count(), 1);
    assert_eq!(PanelFocus::EqBands.slider_count(), 0);
    assert_eq!(PanelFocus::Transport.slider_count(), 0);
}

#[test]
fn test_band_selection_stops_at_both_ends() {
    assert_eq!(EQ_BAND_COUNT, 12);
    assert_eq!(band_left(0), 0);
    assert_eq!(band_left(11), 10);
    assert_eq!(band_right(0), 1);
    assert_eq!(band_right(10), 11);
    assert_eq!(band_right(11), 11);
}

#[test]
fn test_last_frame_start() {
    assert_eq!(last_frame_start(1000, 2), 998);
    assert_eq!(last_frame_start(1000, 1), 999);
    assert_eq!(last_frame_start(1, 2), 0);
    assert_eq!(last_frame_start(0, 0), 0);
    assert_eq!(last_frame_start(2, 2), 0);
}

#[test]
fn test_picker_moves_down_and_scrolls() {
    assert_eq!(VISIBLE_ROWS, 5);
    let mut cursor = PickerCursor::new();
    cursor.move_down(0);
    assert_eq!(cursor, PickerCursor { selected: None, scroll: 0 });
    let mut seen: Vec<(Option<usize>, usize)> = Vec::new();
    for _ in 0..9 {
        cursor.move_down(8);
        seen.push((cursor.selected, cursor.scroll));
    }
    assert_eq!(
        seen,
        vec![
            (Some(0), 0),
            (Some(1), 0),
            (Some(2), 0),
            (Some(3), 0),
            (Some(4), 0),
            (Some(5), 1),
            (Some(6), 2),
            (Some(7), 3),
            (Some(7), 3),
        ]
    );
}

#[test]
fn test_picker_moves_up_and_scrolls_back() {
    let mut cursor = PickerCursor { selected: Some(7), scroll: 3 };
    let mut seen: Vec<(Option<usize>, usize)> = Vec::new();
    for _ in 0..9 {
        cursor.move_up();
        seen.push((cursor.selected, cursor.scroll));
    }
    assert_eq!(
        seen,
        vec![
            (Some(6), 3),
            (Some(5), 3),
            (Some(4), 3),
            (Some(3), 3),
            (Some(2), 2),
            (Some(1), 1),
            (Some(0), 0),
            (None, 0),
            (None, 0),
        ]
    );
}

#[test]
fn test_picker_refresh_clamps_selection() {
    let mut cursor = PickerCursor { selected: Some(7), scroll: 3 };
    cursor.refresh(4);
    assert_eq!(cursor, PickerCursor { selected: Some(3), scroll: 0 });
    cursor.refresh(10);
    assert_eq!(cursor, PickerCursor { selected: Some(3), scroll: 0 });
    cursor.refresh(0);
    assert_eq!(cursor, PickerCursor { selected: None, scroll: 0 });
}

#[test]
fn test_picker_completion() {
    let typed = PickerCursor::new();
    assert_eq!(typed.completion(0), None);
    assert_eq!(typed.completion(3), Some(0));
    let chosen = PickerCursor { selected: Some(2), scroll: 0 };
    assert_eq!(chosen.completion(3), Some(2));
    assert_eq!(chosen.completion(2), None);
}

#[test]
fn test_block_characters() {
    assert_eq!(block_char_for_pos(0, 0), "\u{2588}");
    assert_eq!(block_char_for_pos(0, 1), "\u{2588}");
    assert_eq!(block_char_for_pos(0, 8), "\u{258f}");
    assert_eq!(block_char_for_pos(1, 8), "\u{258e}");
    assert_eq!(block_char_for_pos(2, 8), "\u{258d}");
    assert_eq!(block_char_for_pos(3, 8), "\u{258c}");
    assert_eq!(block_char_for_pos(4, 8), "\u{258b}");
    assert_eq!(block_char_for_pos(5, 8), "\u{258a}");
    assert_eq!(block_char_for_pos(6, 8), "\u{2589}");
    assert_eq!(block_char_for_pos(7, 8), "\u{2588}");
    assert_eq!(block_char_for_pos(20, 8), "\u{2588}");
    assert_eq!(block_char_for_pos(1, 3), "\u{258c}");
    assert_eq!(block_char_for_pos(usize::MAX, usize::MAX), "\u{2588}");
}
