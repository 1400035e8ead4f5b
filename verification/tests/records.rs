use utui::records::{editors_from, login_from, names_from, parse_records, projects_from, split_chars, templates_from};

fn chars(s: &str) -> Vec<char> {
    s.chars().collect()
}

#[test]
fn splitting_keeps_empty_pieces() {
    assert_eq!(split_chars(&chars("a\tb\t"), '\t'), vec!["a".to_string(), "b".to_string(), String::new()]);
    assert_eq!(split_chars(&chars(""), '\t'), vec![String::new()]);
    assert_eq!(split_chars(&chars("abc"), '\t'), vec!["abc".to_string()]);
}

#[test]
fn records_skip_blank_lines_and_trim_fields() {
    let rs = parse_records("Game\t/work \t6000.0.1f1\r\n\n   \n Other\t/play\n");
    assert_eq!(
        rs,
        vec![
            vec!["Game".to_string(), "/work".to_string(), "6000.0.1f1".to_string()],
            vec!["Other".to_string(), "/play".to_string()],
        ]
    );
    assert!(parse_records("").is_empty());
}

#[test]
fn projects_fill_missing_fields_with_nothing() {
    let ps = projects_from(&parse_records("Game\t/work\t6000.0.1f1\nOther\t/play\n"));
    assert_eq!(ps.len(), 2);
    assert_eq!(ps[0].name, "Game");
    assert_eq!(ps[0].path, "/work");
    assert_eq!(ps[0].editor_version, "6000.0.1f1");
    assert_eq!(ps[1].editor_version, "");
    assert_eq!(ps[1].template, "");
}

#[test]
fn editors_say_whether_they_are_installed() {
    let es = editors_from(&parse_records("6000.0.1f1\tinstalled\n2022.3.1f1\tavailable\n2021.1.0f1\n"));
    assert_eq!(
        es,
        vec![(true, "6000.0.1f1".to_string()), (false, "2022.3.1f1".to_string()), (false, "2021.1.0f1".to_string())]
    );
}

#[test]
fn names_and_templates_are_first_fields() {
    let rs = parse_records("3d\tcore\nurp\n");
    assert_eq!(names_from(&rs), vec!["3d".to_string(), "urp".to_string()]);
    let ts = templates_from(&rs);
    assert_eq!(ts[1].name, "urp");
}

#[test]
fn login_status_is_the_first_name() {
    assert_eq!(login_from(&parse_records("alice\tpro\n")), (true, "alice".to_string()));
    assert_eq!(login_from(&parse_records("\n\n")), (false, String::new()));
    assert_eq!(login_from(&parse_records("\tnobody\n")), (false, String::new()));
}
