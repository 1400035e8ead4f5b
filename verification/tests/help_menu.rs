use utui::help::{help_groups, help_rows, owning_header_indices, entry_row_positions, HelpRow, HelpState};

#[test]
fn help_table_has_four_groups() {
    let groups = help_groups();
    let titles: Vec<&str> = groups.iter().map(|g| g.title).collect();
    assert_eq!(titles, vec!["Project List", "Editor List", "Dialogs & Input", "Global"]);
    let sizes: Vec<usize> = groups.iter().map(|g| g.entries.len()).collect();
    assert_eq!(sizes, vec![8, 4, 5, 2]);
}

#[test]
fn help_rows_put_each_title_before_its_entries() {
    let rows = help_rows();
    assert_eq!(rows.len(), 23);
    assert!(matches!(rows[0], HelpRow::Header("Project List")));
    assert!(matches!(rows[9], HelpRow::Header("Editor List")));
    assert!(matches!(rows[14], HelpRow::Header("Dialogs & Input")));
    assert!(matches!(rows[20], HelpRow::Header("Global")));
    match rows[22] {
        HelpRow::Entry(e) => {
            assert_eq!(e.key, "q");
            assert_eq!(e.desc, "Quit");
        }
        HelpRow::Header(_) => panic!("the last row is an entry"),
    }
}

#[test]
fn owners_are_the_nearest_headers() {
    let rows = help_rows();
    let owners = owning_header_indices(&rows);
    assert_eq!(owners.len(), rows.len());
    assert_eq!(owners[0], 0);
    assert_eq!(owners[8], 0);
    assert_eq!(owners[9], 9);
    assert_eq!(owners[13], 9);
    assert_eq!(owners[15], 14);
    assert_eq!(owners[22], 20);
}

#[test]
fn owners_default_to_zero_before_any_header() {
    let rows = help_rows();
    let tail = &rows[1..4];
    assert_eq!(owning_header_indices(tail), vec![0, 0, 0]);
}

#[test]
fn entry_positions_skip_headers() {
    let rows = help_rows();
    let positions = entry_row_positions(&rows);
    assert_eq!(positions.len(), 19);
    assert_eq!(positions[0], 1);
    assert_eq!(positions[8], 10);
    assert_eq!(positions[18], 22);
}

#[test]
fn help_state_starts_at_the_top() {
    let s = HelpState::new();
    assert_eq!(s.selected, 0);
    assert_eq!(s.scroll_offset, 0);
}

#[test]
fn help_selection_wraps_around() {
    let mut s = HelpState::new();
    s.move_selection(false);
    assert_eq!(s.selected, 18);
    s.move_selection(true);
    assert_eq!(s.selected, 0);
    s.move_selection(true);
    assert_eq!(s.selected, 1);
    s.move_selection(false);
    assert_eq!(s.selected, 0);
}

#[test]
fn layout_scrolls_down_and_pins_the_header() {
    let mut s = HelpState { selected: 12, scroll_offset: 0 };
    // entry 12 is the first entry of "Dialogs & Input", row 15
    let layout = s.layout(5);
    // first: 15 >= 0 + 5, so the offset becomes 11 (an entry row), a header is pinned
    // and the body shrinks to 4 rows: 15 >= 11 + 4, so the offset becomes 12
    assert_eq!(layout.selected_row, Some(15));
    assert_eq!(layout.top, 12);
    assert_eq!(s.scroll_offset, 12);
    assert_eq!(layout.body_height, 4);
    assert_eq!(layout.pinned_header, Some(9));
}

#[test]
fn layout_pins_nothing_when_a_header_ends_up_on_top() {
    let mut s = HelpState { selected: 10, scroll_offset: 0 };
    // entry 10 is row 12: the first scroll puts row 8 (an entry) on top, so a
    // line is kept for a header and the body then starts at row 9, which is
    // the "Editor List" header itself: nothing is pinned
    let layout = s.layout(5);
    assert_eq!(layout.selected_row, Some(12));
    assert_eq!(layout.top, 9);
    assert_eq!(layout.body_height, 5);
    assert_eq!(layout.pinned_header, None);
}

#[test]
fn layout_never_draws_a_header_twice() {
    let mut s = HelpState { selected: 17, scroll_offset: 0 };
    let layout = s.layout(9);
    assert_eq!(layout.selected_row, Some(21));
    assert_eq!(layout.top, 14);
    assert_eq!(layout.pinned_header, None);
    assert_eq!(layout.body_height, 9);
}

#[test]
fn layout_in_a_tiny_area_stays_within_the_rows() {
    for height in 0..2 {
        let mut s = HelpState { selected: 18, scroll_offset: 0 };
        let layout = s.layout(height);
        assert_eq!(layout.selected_row, Some(22));
        assert_eq!(layout.top, 22);
        assert!(s.scroll_offset < help_rows().len());
        assert_eq!(layout.body_height, 0);
        assert_eq!(layout.pinned_header, Some(20));
    }
}

#[test]
fn layout_in_a_tiny_area_scrolls_as_usual() {
    for height in 0..2 {
        let mut s = HelpState { selected: 0, scroll_offset: 0 };
        let layout = s.layout(height);
        assert_eq!(layout.top, 2);
        assert_eq!(layout.body_height, 0);
        assert_eq!(layout.pinned_header, Some(0));
    }
    let mut s = HelpState { selected: 40, scroll_offset: 0 };
    let layout = s.layout(0);
    assert_eq!(layout.selected_row, None);
    assert_eq!(layout.top, 1);
    assert_eq!(layout.pinned_header, Some(0));
}

#[test]
fn laying_out_twice_keeps_the_scroll() {
    for height in 2..12 {
        for selected in 0..19 {
            let mut s = HelpState { selected, scroll_offset: 3 };
            let first = s.layout(height);
            let second = s.layout(height);
            assert_eq!(first, second);
        }
    }
}

#[test]
fn nineteen_moves_come_back() {
    for next in [true, false] {
        let mut s = HelpState { selected: 5, scroll_offset: 0 };
        for _ in 0..19 {
            s.move_selection(next);
            assert!(s.selected < 19);
        }
        assert_eq!(s.selected, 5);
    }
}

#[test]
fn layout_without_pin_when_a_header_is_on_top() {
    let mut s = HelpState { selected: 0, scroll_offset: 0 };
    let layout = s.layout(10);
    assert_eq!(layout.top, 0);
    assert_eq!(layout.body_height, 10);
    assert_eq!(layout.pinned_header, None);
    assert_eq!(layout.selected_row, Some(1));
}

#[test]
fn layout_scrolls_up_to_the_selection() {
    let mut s = HelpState { selected: 0, scroll_offset: 7 };
    let layout = s.layout(10);
    // row 1 lies above the offset: the offset moves to it; row 1 is an entry,
    // so "Project List" (row 0) is pinned
    assert_eq!(layout.top, 1);
    assert_eq!(layout.pinned_header, Some(0));
    assert_eq!(layout.body_height, 9);
}

#[test]
fn layout_with_selection_past_the_entries() {
    let mut s = HelpState { selected: 40, scroll_offset: 3 };
    let layout = s.layout(6);
    assert_eq!(layout.selected_row, None);
    assert_eq!(layout.top, 0);
    assert_eq!(layout.pinned_header, None);
}
