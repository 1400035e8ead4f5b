use std::time::Duration;
use utui::duration::{format_duration, format_secs};
use utui::fuzzy::fuzzy_filter_sorted;
use utui::list::ListSelection;
use utui::model::{InputHandler, InputStep, Project};
use utui::sort::sort_by_lowercase;
use utui::text::{after_last, chars_of, contains_text, push_decimal, string_of, trim_str};

fn strings(v: &[&str]) -> Vec<String> {
    v.iter().map(|s| s.to_string()).collect()
}

#[test]
fn seconds_only() {
    assert_eq!(format_duration(Duration::from_secs(0)), "0s");
    assert_eq!(format_duration(Duration::from_millis(59_999)), "59s");
}

#[test]
fn minutes_and_seconds() {
    assert_eq!(format_duration(Duration::from_secs(61)), "1m 1s");
    assert_eq!(format_duration(Duration::from_secs(3599)), "59m 59s");
}

#[test]
fn hours_minutes_and_seconds() {
    assert_eq!(format_duration(Duration::from_secs(3600)), "1h 0m 0s");
    assert_eq!(format_duration(Duration::from_secs(3725)), "1h 2m 5s");
    assert_eq!(format_secs(90061), "25h 1m 1s");
}

#[test]
fn decimal_digits() {
    let mut s = String::from("n=");
    push_decimal(&mut s, 1_234_567_890);
    assert_eq!(s, "n=1234567890");
    let mut z = String::new();
    push_decimal(&mut z, u64::MAX);
    assert_eq!(z, "18446744073709551615");
}

#[test]
fn empty_query_keeps_the_list() {
    let items = strings(&["b", "a", "c"]);
    assert_eq!(fuzzy_filter_sorted("", items.clone()), items);
}

#[test]
fn fuzzy_keeps_close_matches_best_first() {
    let items = strings(&["kolbasobulko", "domo", "bulko"]);
    assert_eq!(fuzzy_filter_sorted("bulko", items), strings(&["bulko", "kolbasobulko"]));
}

#[test]
fn fuzzy_drops_everything_unrelated() {
    let items = strings(&["abc", "xyz"]);
    assert!(fuzzy_filter_sorted("qqq", items).is_empty());
}

#[test]
fn fuzzy_ties_keep_their_order() {
    let items = strings(&["unity", "other", "unity"]);
    assert_eq!(fuzzy_filter_sorted("unity", items), strings(&["unity", "unity"]));
}

#[test]
fn case_insensitive_sort_is_stable() {
    let items = strings(&["b", "A", "a", "C", "B"]);
    assert_eq!(sort_by_lowercase(items), strings(&["A", "a", "b", "B", "C"]));
}

#[test]
fn case_insensitive_sort_of_paths() {
    let items = strings(&["Assets", "build", "assets", "Library"]);
    assert_eq!(sort_by_lowercase(items), strings(&["Assets", "assets", "build", "Library"]));
}

#[test]
fn text_after_the_last_slash() {
    assert_eq!(after_last("/home/user/pro", '/'), "pro");
    assert_eq!(after_last("/home/", '/'), "");
    assert_eq!(after_last("nothing", '/'), "");
}

#[test]
fn characters_round_trip() {
    let cs = chars_of("ŝatas/é");
    assert_eq!(cs, vec!['ŝ', 'a', 't', 'a', 's', '/', 'é']);
    assert_eq!(string_of(&cs), "ŝatas/é");
}

#[test]
fn text_membership() {
    let v = strings(&["Game", "Other"]);
    assert!(contains_text(&v, "Game"));
    assert!(!contains_text(&v, "game"));
}

#[test]
fn list_selection_moves() {
    let mut l = ListSelection::new();
    l.select_previous();
    assert_eq!(l.selected(), Some(usize::MAX));
    l.fit_to(3);
    assert_eq!(l.selected(), Some(2));
    l.select_next();
    assert_eq!(l.selected(), Some(3));
    l.fit_to(0);
    assert_eq!(l.selected(), None);
    l.select_next();
    assert_eq!(l.selected(), Some(0));
    l.select_previous();
    assert_eq!(l.selected(), Some(0));
    l.offset = 4;
    l.select(None);
    assert_eq!(l.offset, 0);
}

#[test]
fn typing_and_editing_the_field() {
    let mut input = InputHandler::new();
    assert_eq!(input.step, InputStep::Name);
    for c in "Gme".chars() {
        input.enter_char(c);
    }
    input.move_cursor_left();
    input.move_cursor_left();
    input.enter_char('a');
    assert_eq!(input.value, "Game");
    assert_eq!(input.cursor, 2);
    input.delete_char();
    assert_eq!(input.value, "Gme");
    assert_eq!(input.cursor, 1);
    input.move_cursor_right();
    input.move_cursor_right();
    input.move_cursor_right();
    assert_eq!(input.cursor, 3);
    input.set_text("/tmp/");
    assert_eq!(input.cursor, 5);
    input.set_buffer("3D");
    input.submit_message();
    assert_eq!(input.value, "");
    assert_eq!(input.buff, "");
    assert_eq!(input.cursor, 0);
}

#[test]
fn delete_at_the_start_does_nothing() {
    let mut input = InputHandler::new();
    input.set_text("ab");
    input.cursor = 0;
    input.delete_char();
    assert_eq!(input.value, "ab");
    input.cursor = 99;
    input.delete_char();
    assert_eq!(input.value, "a");
}

#[test]
fn project_details_span_three_lines() {
    let p = Project {
        name: "Alpha".to_string(),
        path: "/work".to_string(),
        editor_version: "6000.0.1f1".to_string(),
        template: String::new(),
    };
    assert_eq!(p.details_text(), "Alpha\n  Path: /work\n  Editor: 6000.0.1f1");
}

#[test]
fn trimming_drops_white_space_at_both_ends() {
    assert_eq!(trim_str("  6000.0.1f1 \t"), "6000.0.1f1");
    assert_eq!(trim_str("\u{3000}a b\u{85}\n"), "a b");
    assert_eq!(trim_str(" \t\r\n "), "");
    assert_eq!(trim_str(""), "");
    assert_eq!(trim_str("x"), "x");
    for s in ["  héllo wörld ", "\u{2028}z\u{a0}", "\u{200b}y "] {
        assert_eq!(trim_str(s), s.trim());
    }
}
