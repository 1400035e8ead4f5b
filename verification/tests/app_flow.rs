use std::time::Duration;
use utui::app::tasks::TaskKind;
use utui::app::App;
use utui::model::{
    Action, Dialogue, DialogueSelection, Effect, InputStep, Key, KeyCode, Project, Screen, Template,
};

fn key(c: char) -> Key {
    Key { code: KeyCode::Char(c), ctrl: false, shift: false, meta: false }
}

fn code(code: KeyCode) -> Key {
    Key { code, ctrl: false, shift: false, meta: false }
}

fn press(app: &mut App, k: Key) -> bool {
    app.handle_key(k, &Vec::new())
}

fn project(name: &str, path: &str, version: &str) -> Project {
    Project {
        name: name.to_string(),
        path: path.to_string(),
        editor_version: version.to_string(),
        template: String::new(),
    }
}

fn started() -> App {
    let mut app = App::new();
    app.start(true);
    app.take_effects();
    app
}

fn loaded() -> App {
    let mut app = started();
    app.projects_finished(Ok((
        vec!["Alpha".to_string(), "Beta".to_string()],
        vec![project("Alpha", "/work", "6000.0.1f1"), project("Beta", "/play", "2022.3.1f1")],
    )));
    app.check_auth_finished(Ok((true, "alice".to_string())));
    app
}

#[test]
fn new_app_is_idle() {
    let app = App::new();
    assert_eq!(app.screen, Screen::ProjectList);
    assert_eq!(app.list_state.selected(), Some(0));
    assert!(matches!(app.dialogue.current, Dialogue::Closed));
    assert!(app.effects.is_empty());
    assert!(!app.show_help);
}

#[test]
fn start_without_unity_shows_a_fatal_dialogue() {
    let mut app = App::new();
    app.start(false);
    match &app.dialogue.current {
        Dialogue::Panic(m) => assert_eq!(m, "UnityCLI not found, please ensure installation."),
        other => panic!("unexpected dialogue {:?}", other),
    }
    assert!(app.effects.is_empty());
    assert!(!press(&mut app, key('x')));
    assert!(press(&mut app, key('q')));
}

#[test]
fn start_with_unity_lists_projects_and_checks_login() {
    let mut app = App::new();
    app.start(true);
    let effects = app.take_effects();
    assert_eq!(effects.len(), 2);
    assert!(matches!(effects[0], Effect::ListProjects));
    assert!(matches!(effects[1], Effect::CheckAuth));
    assert!(app.tasks.projects && app.tasks.check_auth);
    assert!(matches!(app.dialogue.current, Dialogue::Closed));
    assert!(app.effects.is_empty());
}

#[test]
fn refresh_does_not_list_projects_twice() {
    let mut app = App::new();
    app.start(true);
    app.take_effects();
    press(&mut app, key('r'));
    let effects = app.take_effects();
    assert!(effects.is_empty());
}

#[test]
fn projects_arrive() {
    let app = loaded();
    assert_eq!(app.list_items, vec!["Alpha".to_string(), "Beta".to_string()]);
    assert!(!app.tasks.projects);
    assert_eq!(app.username, "alice");
    assert!(matches!(app.dialogue.current, Dialogue::Closed));
}

#[test]
fn project_listing_failure_is_shown() {
    let mut app = started();
    app.projects_finished(Err("unity crashed".to_string()));
    match &app.dialogue.current {
        Dialogue::Error(m) => assert_eq!(m, "unity crashed"),
        other => panic!("unexpected dialogue {:?}", other),
    }
}

#[test]
fn enter_expands_and_collapses_a_project() {
    let mut app = loaded();
    press(&mut app, code(KeyCode::Enter));
    assert_eq!(app.list_items[0], "Alpha\n  Path: /work\n  Editor: 6000.0.1f1");
    assert!(app.proj_expanded);
    press(&mut app, code(KeyCode::Enter));
    assert_eq!(app.list_items[0], "Alpha");
    assert!(!app.proj_expanded);
}

#[test]
fn moving_down_collapses_the_expanded_project() {
    let mut app = loaded();
    press(&mut app, code(KeyCode::Enter));
    press(&mut app, key('j'));
    assert_eq!(app.list_items[0], "Alpha");
    assert_eq!(app.list_state.selected(), Some(1));
    press(&mut app, Key { code: KeyCode::Char('p'), ctrl: true, shift: false, meta: false });
    assert_eq!(app.list_state.selected(), Some(0));
}

#[test]
fn help_opens_moves_and_closes() {
    let mut app = loaded();
    assert!(!press(&mut app, key('?')));
    assert!(app.show_help);
    press(&mut app, key('j'));
    assert_eq!(app.help_state.selected, 1);
    press(&mut app, code(KeyCode::Up));
    press(&mut app, code(KeyCode::Up));
    assert_eq!(app.help_state.selected, 18);
    press(&mut app, code(KeyCode::Esc));
    assert!(!app.show_help);
    press(&mut app, key('?'));
    assert!(press(&mut app, key('q')));
}

#[test]
fn q_quits_from_the_project_list() {
    let mut app = loaded();
    assert!(press(&mut app, key('q')));
    assert!(!press(&mut app, key('z')));
}

#[test]
fn open_requests_the_selected_project() {
    let mut app = loaded();
    press(&mut app, key('j'));
    press(&mut app, key('o'));
    let effects = app.take_effects();
    assert_eq!(effects.len(), 1);
    match &effects[0] {
        Effect::OpenProject(p) => assert_eq!(p.name, "Beta"),
        other => panic!("unexpected effect {:?}", other),
    }
    assert!(app.tasks.proj_open);
    press(&mut app, key('o'));
    assert!(app.take_effects().is_empty());
    app.project_action_finished(true, Ok(()));
    match &app.dialogue.current {
        Dialogue::TimedInfo(m) => assert_eq!(m, "Project opened successfully!"),
        other => panic!("unexpected dialogue {:?}", other),
    }
    assert!(matches!(app.take_effects()[0], Effect::ArmNotice));
}

#[test]
fn delete_asks_then_deletes_with_the_directory() {
    let mut app = loaded();
    press(&mut app, Key { code: KeyCode::Char('D'), ctrl: false, shift: true, meta: false });
    assert!(matches!(app.dialogue.current, Dialogue::DeleteConfirm { with_dir: true }));
    assert_eq!(app.dialogue.selection, DialogueSelection::Cancel);
    assert_eq!(app.selected_index, Some(0));
    assert_eq!(app.list_state.selected(), None);
    press(&mut app, key('h'));
    assert_eq!(app.dialogue.selection, DialogueSelection::Accept);
    press(&mut app, code(KeyCode::Enter));
    let effects = app.take_effects();
    match &effects[0] {
        Effect::DeleteProject(p, with_dir) => {
            assert_eq!(p.name, "Alpha");
            assert!(*with_dir);
        }
        other => panic!("unexpected effect {:?}", other),
    }
    assert!(matches!(app.dialogue.current, Dialogue::Info(_)));
    app.project_action_finished(false, Err("busy".to_string()));
    match &app.dialogue.current {
        Dialogue::Error(m) => assert_eq!(m, "Failed to delete..."),
        other => panic!("unexpected dialogue {:?}", other),
    }
}

#[test]
fn escape_cancels_a_deletion() {
    let mut app = loaded();
    press(&mut app, key('d'));
    assert!(matches!(app.dialogue.current, Dialogue::DeleteConfirm { with_dir: false }));
    press(&mut app, code(KeyCode::Esc));
    assert!(matches!(app.dialogue.current, Dialogue::DeleteConfirm { with_dir: false }));
    assert_eq!(app.dialogue.selection, DialogueSelection::Cancel);
    assert!(app.take_effects().is_empty());
}

#[test]
fn progress_shows_a_spinner() {
    let mut app = started();
    app.dialogue.current = Dialogue::Info(String::new());
    app.task_pending(TaskKind::Projects, Duration::from_secs(0));
    match &app.dialogue.current {
        Dialogue::Info(m) => assert_eq!(m, "⠦ Loading projects..."),
        other => panic!("unexpected dialogue {:?}", other),
    }
    for _ in 0..8 {
        app.tick();
    }
    app.task_pending(TaskKind::Projects, Duration::from_secs(0));
    match &app.dialogue.current {
        Dialogue::Info(m) => assert_eq!(m, "⠖ Loading projects..."),
        other => panic!("unexpected dialogue {:?}", other),
    }
}

#[test]
fn no_progress_without_a_progress_dialogue() {
    let mut app = loaded();
    app.task_pending(TaskKind::Projects, Duration::from_secs(0));
    assert!(matches!(app.dialogue.current, Dialogue::Closed));
}

#[test]
fn login_is_offered_when_logged_out() {
    let mut app = started();
    app.check_auth_finished(Ok((false, String::new())));
    assert_eq!(app.username, "NONE");
    match &app.dialogue.current {
        Dialogue::ConfirmAction(m, Action::Login) => assert_eq!(m, "You're not logged in, would you like to log in?"),
        other => panic!("unexpected dialogue {:?}", other),
    }
    press(&mut app, code(KeyCode::Enter));
    let effects = app.take_effects();
    assert!(matches!(effects[0], Effect::Login));
    assert!(app.tasks.login);
    app.task_pending(TaskKind::Login, Duration::from_secs(0));
    match &app.dialogue.current {
        Dialogue::Info(m) => assert_eq!(m, "⠦ Logging in, please continue in browser..."),
        other => panic!("unexpected dialogue {:?}", other),
    }
    app.login_finished(Ok((true, "bob".to_string())));
    assert_eq!(app.username, "bob");
    assert!(matches!(app.dialogue.current, Dialogue::TimedInfo(_)));
}

#[test]
fn declining_login_is_remembered() {
    let mut app = started();
    app.check_auth_finished(Ok((false, String::new())));
    press(&mut app, key('l'));
    press(&mut app, code(KeyCode::Enter));
    assert!(app.declined_login);
    assert!(matches!(app.dialogue.current, Dialogue::Closed));
    app.check_auth_finished(Ok((false, String::new())));
    assert!(matches!(app.dialogue.current, Dialogue::Closed));
}

#[test]
fn login_check_failure_is_shown() {
    let mut app = started();
    app.check_auth_finished(Err("offline".to_string()));
    assert_eq!(app.username, "NONE");
    assert!(matches!(app.dialogue.current, Dialogue::Error(_)));
}

#[test]
fn failed_login_asks_to_try_later() {
    let mut app = started();
    app.login_finished(Ok((false, String::new())));
    match &app.dialogue.current {
        Dialogue::Confirm(m) => assert_eq!(m, "Failed to log in, please try again later."),
        other => panic!("unexpected dialogue {:?}", other),
    }
}

#[test]
fn wizard_refuses_an_empty_name() {
    let mut app = loaded();
    press(&mut app, key('c'));
    assert!(matches!(app.dialogue.current, Dialogue::Input));
    assert_eq!(app.dialogue.selection, DialogueSelection::Accept);
    let effects = app.take_effects();
    assert!(matches!(effects[0], Effect::ListInstalledEditors));
    press(&mut app, code(KeyCode::Enter));
    match &app.dialogue.current {
        Dialogue::Error(m) => assert_eq!(m, "No input!"),
        other => panic!("unexpected dialogue {:?}", other),
    }
    press(&mut app, code(KeyCode::Enter));
    assert!(matches!(app.dialogue.current, Dialogue::Input));
}

#[test]
fn wizard_walks_through_its_steps() {
    let mut app = loaded();
    press(&mut app, key('c'));
    app.take_effects();
    app.installed_editors_finished(Ok(vec!["6000.0.1f1".to_string()]));
    assert!(matches!(app.dialogue.current, Dialogue::Input));
    for c in "Game".chars() {
        press(&mut app, key(c));
    }
    press(&mut app, code(KeyCode::Enter));
    assert_eq!(app.input.step, InputStep::Path);
    assert_eq!(app.dialogue.selected_project.as_ref().unwrap().name, "Game");
    assert_eq!(app.input.value, "");
    for c in "/work".chars() {
        press(&mut app, key(c));
    }
    app.handle_key(code(KeyCode::Enter), &vec!["Other".to_string()]);
    assert_eq!(app.input.step, InputStep::Version);
    assert_eq!(app.dialogue.selected_project.as_ref().unwrap().path, "/work");
    for c in "2019".chars() {
        press(&mut app, key(c));
    }
    press(&mut app, code(KeyCode::Enter));
    match &app.dialogue.current {
        Dialogue::Error(m) => assert_eq!(m, "Please select a valid version!"),
        other => panic!("unexpected dialogue {:?}", other),
    }
    press(&mut app, code(KeyCode::Enter));
    assert!(matches!(app.dialogue.current, Dialogue::Input));
    app.input.set_text("6000.0.1f1");
    press(&mut app, code(KeyCode::Enter));
    assert_eq!(app.input.step, InputStep::Template);
    let effects = app.take_effects();
    match &effects[0] {
        Effect::ListTemplates(v) => assert_eq!(v, "6000.0.1f1"),
        other => panic!("unexpected effect {:?}", other),
    }
    app.templates_finished(TaskKind::Templates, Ok(vec![Template { name: "3D".to_string() }]));
    press(&mut app, code(KeyCode::Enter));
    match &app.dialogue.current {
        Dialogue::Error(m) => assert_eq!(m, "No selection!"),
        other => panic!("unexpected dialogue {:?}", other),
    }
    press(&mut app, code(KeyCode::Enter));
    press(&mut app, Key { code: KeyCode::Char('n'), ctrl: true, shift: false, meta: false });
    assert_eq!(app.input.buff, "3D");
    press(&mut app, code(KeyCode::Enter));
    let effects = app.take_effects();
    match &effects[0] {
        Effect::CreateProject(p) => {
            assert_eq!(p.name, "Game");
            assert_eq!(p.path, "/work");
            assert_eq!(p.editor_version, "6000.0.1f1");
            assert_eq!(p.template, "3D");
        }
        other => panic!("unexpected effect {:?}", other),
    }
    assert!(app.tasks.proj_create);
}

#[test]
fn wizard_refuses_an_existing_project() {
    let mut app = loaded();
    press(&mut app, key('c'));
    for c in "Game".chars() {
        press(&mut app, key(c));
    }
    press(&mut app, code(KeyCode::Enter));
    for c in "/work".chars() {
        press(&mut app, key(c));
    }
    app.handle_key(code(KeyCode::Enter), &vec!["Game".to_string()]);
    match &app.dialogue.current {
        Dialogue::Error(m) => assert_eq!(m, "Project already exists at path!"),
        other => panic!("unexpected dialogue {:?}", other),
    }
    assert_eq!(app.input.step, InputStep::Name);
    assert_eq!(app.input.value, "");
}

#[test]
fn escape_leaves_the_wizard() {
    let mut app = loaded();
    press(&mut app, key('c'));
    press(&mut app, key('x'));
    press(&mut app, code(KeyCode::Esc));
    assert!(matches!(app.dialogue.current, Dialogue::Closed));
    assert_eq!(app.input.step, InputStep::Name);
    assert_eq!(app.input.value, "");
}

#[test]
fn ctrl_v_asks_for_the_clipboard() {
    let mut app = loaded();
    press(&mut app, key('c'));
    app.take_effects();
    press(&mut app, Key { code: KeyCode::Char('v'), ctrl: true, shift: false, meta: false });
    assert!(matches!(app.take_effects()[0], Effect::PasteClipboard));
    app.paste_text("Pasted");
    assert_eq!(app.input.value, "Pasted");
    press(&mut app, Key { code: KeyCode::Char('v'), ctrl: false, shift: false, meta: true });
    assert_eq!(app.input.value, "Pastedv");
}

#[test]
fn path_suggestions_list_the_directory() {
    let mut app = loaded();
    press(&mut app, key('c'));
    for c in "Game".chars() {
        press(&mut app, key(c));
    }
    press(&mut app, code(KeyCode::Enter));
    assert_eq!(app.suggestion_dir(), Some("/".to_string()));
    app.prepare_input_lists(vec!["home".to_string(), "Applications".to_string(), "bin".to_string()]);
    assert_eq!(app.input.value, "/");
    assert_eq!(app.list_items, vec!["Applications".to_string(), "bin".to_string(), "home".to_string()]);
    assert_eq!(app.list_items_buffer, app.list_items);
    press(&mut app, code(KeyCode::Tab));
    assert_eq!(app.input.value, "/Applications/");
    assert!(app.list_items.is_empty());
    assert_eq!(app.list_state.selected(), None);
    assert_eq!(app.entered_dir(), Some("/Applications/".to_string()));
}

#[test]
fn path_suggestions_filter_by_the_last_component() {
    let mut app = loaded();
    press(&mut app, key('c'));
    for c in "Game".chars() {
        press(&mut app, key(c));
    }
    press(&mut app, code(KeyCode::Enter));
    app.input.set_text("/");
    app.prepare_input_lists(vec!["kolbasobulko".to_string(), "domo".to_string()]);
    app.input.set_text("/bulko");
    assert_eq!(app.suggestion_dir(), None);
    app.prepare_input_lists(Vec::new());
    assert_eq!(app.list_items_buffer, vec!["kolbasobulko".to_string()]);
}

#[test]
fn version_step_copies_the_trimmed_entry() {
    let mut app = loaded();
    press(&mut app, key('c'));
    app.input.step = InputStep::Version;
    app.list_items = vec!["  6000.0.1f1  ".to_string()];
    app.list_state.select(None);
    press(&mut app, Key { code: KeyCode::Char('n'), ctrl: true, shift: false, meta: false });
    assert_eq!(app.input.value, "6000.0.1f1");
}

#[test]
fn editor_screen_installs_and_uninstalls() {
    let mut app = loaded();
    press(&mut app, key('e'));
    assert_eq!(app.screen, Screen::EditorList);
    let effects = app.take_effects();
    assert!(matches!(effects[0], Effect::ListEditors));
    app.all_editors_finished(Ok(vec![(true, "6000.0.1f1".to_string()), (false, "2022.3.1f1".to_string())]));
    assert_eq!(app.list_items, vec!["✔ 6000.0.1f1".to_string(), "✘ 2022.3.1f1".to_string()]);
    press(&mut app, key('i'));
    assert!(app.take_effects().is_empty());
    press(&mut app, key('j'));
    press(&mut app, key('i'));
    let effects = app.take_effects();
    assert!(matches!(effects[0], Effect::RestartTimer));
    match &effects[1] {
        Effect::InstallEditor(v) => assert_eq!(v, "2022.3.1f1"),
        other => panic!("unexpected effect {:?}", other),
    }
    app.task_pending(TaskKind::EditorInstall, Duration::from_secs(65));
    match &app.dialogue.current {
        Dialogue::Info(m) => assert_eq!(m, "⠦ Installing editor... this may take a while.\n\nElapsed: 1m 5s"),
        other => panic!("unexpected dialogue {:?}", other),
    }
    app.editor_change_finished(true, Ok(()));
    assert!(matches!(app.dialogue.current, Dialogue::TimedInfo(_)));
    press(&mut app, key('x'));
    assert!(matches!(app.dialogue.current, Dialogue::Closed));
    assert!(matches!(app.take_effects()[1], Effect::ListEditors));
    press(&mut app, code(KeyCode::Esc));
    assert_eq!(app.screen, Screen::ProjectList);
}

#[test]
fn empty_editor_listing_is_an_error() {
    let mut app = loaded();
    press(&mut app, key('e'));
    app.all_editors_finished(Ok(Vec::new()));
    match &app.dialogue.current {
        Dialogue::Error(m) => assert_eq!(m, "Failed to fetch editors..."),
        other => panic!("unexpected dialogue {:?}", other),
    }
}

#[test]
fn slow_online_templates_give_way_to_offline_ones() {
    let mut app = loaded();
    press(&mut app, key('c'));
    app.input.step = InputStep::Template;
    app.dialogue.selected_project = Some(project("Game", "/work", "6000.0.1f1"));
    app.tasks.templates = true;
    app.timer = 1;
    app.tick_counter = 1000;
    app.take_effects();
    app.task_pending(TaskKind::Templates, Duration::from_secs(0));
    assert_eq!(app.timer, 0);
    assert!(!app.tasks.templates);
    assert!(app.tasks.local_templates);
    match &app.take_effects()[0] {
        Effect::ListOfflineTemplates(v) => assert_eq!(v, "6000.0.1f1"),
        other => panic!("unexpected effect {:?}", other),
    }
    app.task_pending(TaskKind::LocalTemplates, Duration::from_secs(0));
    match &app.dialogue.current {
        Dialogue::Info(m) => assert_eq!(m, "⠖ Timed out, Loading local templates..."),
        other => panic!("unexpected dialogue {:?}", other),
    }
    app.templates_finished(TaskKind::LocalTemplates, Ok(Vec::new()));
    match &app.dialogue.current {
        Dialogue::Error(m) => assert_eq!(m, "No templates found..."),
        other => panic!("unexpected dialogue {:?}", other),
    }
}

#[test]
fn created_project_is_opened_when_asked() {
    let mut app = loaded();
    press(&mut app, key('c'));
    app.dialogue.selected_project = Some(project("Game", "/work", "6000.0.1f1"));
    app.open_after_creation = true;
    app.take_effects();
    app.create_finished(Ok(()));
    let effects = app.take_effects();
    match &effects[0] {
        Effect::OpenProject(p) => assert_eq!(p.path, "/work/Game"),
        other => panic!("unexpected effect {:?}", other),
    }
    assert_eq!(app.input.step, InputStep::Name);
}

#[test]
fn created_project_is_announced() {
    let mut app = loaded();
    app.dialogue.current = Dialogue::Info(String::new());
    app.input.step = InputStep::Complete;
    app.task_pending(TaskKind::ProjCreate, Duration::from_secs(0));
    match &app.dialogue.current {
        Dialogue::Info(m) => assert_eq!(m, "⠦ Creating project... (O)pen: false"),
        other => panic!("unexpected dialogue {:?}", other),
    }
    press(&mut app, key('o'));
    assert!(app.open_after_creation);
    app.open_after_creation = false;
    app.create_finished(Ok(()));
    match &app.dialogue.current {
        Dialogue::TimedInfo(m) => assert_eq!(m, "Project created successfully!"),
        other => panic!("unexpected dialogue {:?}", other),
    }
    app.notice_expired();
    assert!(matches!(app.dialogue.current, Dialogue::Closed));
}

#[test]
fn template_labels_follow_the_query() {
    let mut app = loaded();
    app.templates = Some(vec![Template { name: "3D".to_string() }, Template { name: "2D".to_string() }]);
    assert_eq!(app.template_labels(), vec!["3D".to_string(), "2D".to_string()]);
}

#[test]
fn installing_twice_asks_once() {
    let mut app = loaded();
    press(&mut app, key('e'));
    app.all_editors_finished(Ok(vec![(false, "2022.3.1f1".to_string())]));
    app.take_effects();
    press(&mut app, key('i'));
    press(&mut app, key('i'));
    let effects = app.take_effects();
    assert_eq!(effects.len(), 2);
    assert!(matches!(effects[0], Effect::RestartTimer));
    assert!(matches!(effects[1], Effect::InstallEditor(_)));
    assert!(app.tasks.editor_install);
    app.editor_change_finished(true, Err("disk full".to_string()));
    assert!(!app.tasks.editor_install);
    assert!(app.take_effects().is_empty());
}

#[test]
fn finished_work_is_no_longer_under_way() {
    let mut app = loaded();
    assert!(!app.tasks.projects && !app.tasks.check_auth);
    app.tasks.login = true;
    app.login_finished(Ok((false, String::new())));
    assert!(!app.tasks.login);
    app.tasks.proj_delete = true;
    app.project_action_finished(false, Ok(()));
    assert!(!app.tasks.proj_delete);
    let effects = app.take_effects();
    assert_eq!(effects.len(), 1);
    assert!(matches!(effects[0], Effect::ArmNotice));
}

#[test]
fn q_quits_while_a_notice_is_shown() {
    let mut app = loaded();
    app.tasks.proj_delete = true;
    app.project_action_finished(false, Ok(()));
    assert!(matches!(app.dialogue.current, Dialogue::TimedInfo(_)));
    assert!(press(&mut app, key('q')));
    assert!(matches!(app.dialogue.current, Dialogue::Closed));
}

#[test]
fn q_quits_from_a_notice_on_the_editor_screen() {
    let mut app = loaded();
    press(&mut app, key('e'));
    app.all_editors_finished(Ok(vec![(true, "6000.0.1f1".to_string())]));
    app.editor_change_finished(false, Ok(()));
    assert!(matches!(app.dialogue.current, Dialogue::TimedInfo(_)));
    assert!(press(&mut app, key('q')));
}

#[test]
fn declined_login_is_not_asked_again_after_escape() {
    let mut app = started();
    app.check_auth_finished(Ok((false, String::new())));
    press(&mut app, code(KeyCode::Esc));
    assert!(app.declined_login);
    assert!(matches!(app.dialogue.current, Dialogue::Closed));
    press(&mut app, key('r'));
    let effects = app.take_effects();
    assert!(matches!(effects[effects.len() - 1], Effect::CheckAuth));
    app.projects_finished(Ok((Vec::new(), Vec::new())));
    app.check_auth_finished(Ok((false, String::new())));
    assert!(app.declined_login);
    assert!(!matches!(app.dialogue.current, Dialogue::ConfirmAction(_, _)));
}
