//! Background work is asked for at most once at a time: every request a step
//! queues is for work then marked as under way, and a step never queues two
//! requests for the same work.

use vstd::prelude::*;

use crate::app::AppView;
use crate::app::{loading, request, show, submitted, with_project, with_step};
use crate::app::keys::{
    after_step_spec, cancel_input_spec, confirm_login_spec, dialogue_key_spec, dismiss_error_spec,
    dismiss_notice_spec, editor_key_spec, editor_screen_key_spec, execute_spec, focus, handle_key_spec,
    help_key_spec, input_key_spec, is_char, is_down, is_up, main_key_spec, project_list_key_spec,
    selected_editor, submit_input_spec, switch_screen_spec,
};
use crate::app::items::{
    collapse_before_move, collapse_spec, copy_entry_spec, delete_selected_spec, finish_create_spec,
    install_spec, move_selection_spec, open_delete_dialogue_spec, open_selected_spec, step_selection,
    toggle_details_spec,
};
use crate::app::reload::{
    check_auth_spec, clear_tasks_spec, close_and_select_first, notice_expired_spec,
    reset_after_dialogue_spec, start_spec, login_spec, refresh_spec, request_editors_spec,
    request_projects_spec,
};
use crate::app::tasks::{
    auth_done_spec, create_done_spec, created_project, editor_change_done_spec, editors_done_spec,
    installed_done_spec, login_done_spec, notify, project_action_done_spec, projects_done_spec, task_done,
    pending_spec, progress_text, shows_progress, template_timeout_spec, templates_done_spec, TaskKind,
    TEMPLATE_TIMEOUT_TICKS,
};
use crate::app::wizard::{
    filter_by_input, local_template_suggestions_spec, open_create_dialogue_spec, request_installed_spec,
    template_suggestions_spec, version_suggestions_spec,
};
use crate::app::wizard::{advance_spec, append_path_item_spec, changed_project, empty_project, wizard_version};
use crate::list::ListSelection;
use crate::model::{
    DialogueSelection, DialogueStateView, DialogueView, EffectView, InputStep, InputView, Key, KeyCode,
    ProjectView, Screen, Tasks,
};

verus! {

/// The work a request asks for, if it asks for background work.
pub open spec fn work_of(e: EffectView) -> Option<TaskKind> {
    match e {
        EffectView::ListProjects => Some(TaskKind::Projects),
        EffectView::ListEditors => Some(TaskKind::AllEditors),
        EffectView::ListInstalledEditors => Some(TaskKind::InstalledEditors),
        EffectView::ListTemplates(_) => Some(TaskKind::Templates),
        EffectView::ListOfflineTemplates(_) => Some(TaskKind::LocalTemplates),
        EffectView::CreateProject(_) => Some(TaskKind::ProjCreate),
        EffectView::OpenProject(_) => Some(TaskKind::ProjOpen),
        EffectView::DeleteProject(_, _) => Some(TaskKind::ProjDelete),
        EffectView::InstallEditor(_) => Some(TaskKind::EditorInstall),
        EffectView::UninstallEditor(_) => Some(TaskKind::EditorUninstall),
        EffectView::CheckAuth => Some(TaskKind::CheckAuth),
        EffectView::Login => Some(TaskKind::Login),
        _ => None,
    }
}

/// Whether work of kind `k` is marked as under way.
pub open spec fn busy(t: Tasks, k: TaskKind) -> bool {
    match k {
        TaskKind::Projects => t.projects,
        TaskKind::AllEditors => t.all_editors,
        TaskKind::InstalledEditors => t.installed_editors,
        TaskKind::EditorInstall => t.editor_install,
        TaskKind::EditorUninstall => t.editor_uninstall,
        TaskKind::Templates => t.templates,
        TaskKind::LocalTemplates => t.local_templates,
        TaskKind::ProjCreate => t.proj_create,
        TaskKind::ProjOpen => t.proj_open,
        TaskKind::ProjDelete => t.proj_delete,
        TaskKind::Login => t.login,
        TaskKind::CheckAuth => t.check_auth,
    }
}

/// Going from `a` to `b` only queues requests: `b` keeps the requests of `a`,
/// every request added is for work marked as under way in `b`, and no two
/// added requests are for the same work.
pub open spec fn requests_once(a: AppView, b: AppView) -> bool {
    &&& a.effects.len() <= b.effects.len()
    &&& b.effects.take(a.effects.len() as int) == a.effects
    &&& forall|i: int| a.effects.len() <= i < b.effects.len() ==>
        (#[trigger] work_of(b.effects[i]) matches Some(k) ==> busy(b.tasks, k))
    &&& forall|i: int, j: int| a.effects.len() <= i < j < b.effects.len() && work_of(b.effects[i]) is Some ==>
        #[trigger] work_of(b.effects[i]) != #[trigger] work_of(b.effects[j])
}

/// Work under way in `a` is still under way in `b`, and every request added
/// going from `a` to `b` was for work not under way in `a`.
pub open spec fn only_new_work(a: AppView, b: AppView) -> bool {
    &&& forall|k: TaskKind| busy(a.tasks, k) ==> busy(b.tasks, k)
    &&& forall|i: int| a.effects.len() <= i < b.effects.len() ==>
        (#[trigger] work_of(b.effects[i]) matches Some(k) ==> !busy(a.tasks, k))
}

/// A step that queues requests once and only for new work.
pub open spec fn clean(a: AppView, b: AppView) -> bool {
    requests_once(a, b) && only_new_work(a, b)
}

proof fn lemma_unchanged(a: AppView, b: AppView)
    requires
        b.effects == a.effects,
        b.tasks == a.tasks,
    ensures
        clean(a, b),
{
    assert(b.effects.take(a.effects.len() as int) =~= a.effects);
}

proof fn lemma_compose(a: AppView, b: AppView, c: AppView)
    requires
        clean(a, b),
        clean(b, c),
    ensures
        clean(a, c),
{
    let n = a.effects.len() as int;
    let m = b.effects.len() as int;
    assert(c.effects.take(n) =~= c.effects.take(m).take(n));
    assert forall|i: int| n <= i < c.effects.len() implies
        (#[trigger] work_of(c.effects[i]) matches Some(k) ==> busy(c.tasks, k)) by {
        if i < m {
            assert(c.effects[i] == c.effects.take(m)[i]);
        }
    }
    assert forall|i: int| n <= i < c.effects.len() implies
        (#[trigger] work_of(c.effects[i]) matches Some(k) ==> !busy(a.tasks, k)) by {
        if i < m {
            assert(c.effects[i] == c.effects.take(m)[i]);
        }
    }
    assert forall|i: int, j: int| n <= i < j < c.effects.len() && work_of(c.effects[i]) is Some implies
        #[trigger] work_of(c.effects[i]) != #[trigger] work_of(c.effects[j]) by {
        if j < m {
            assert(c.effects[i] == c.effects.take(m)[i]);
            assert(c.effects[j] == c.effects.take(m)[j]);
        } else if i < m {
            assert(c.effects[i] == c.effects.take(m)[i]);
        }
    }
}

/// Queuing a request for work not under way, and marking it under way.
proof fn lemma_request(a: AppView, t: Tasks, e: EffectView)
    requires
        work_of(e) matches Some(k) ==> busy(t, k) && !busy(a.tasks, k),
        forall|k: TaskKind| busy(a.tasks, k) ==> busy(t, k),
    ensures
        clean(a, request(AppView { tasks: t, ..a }, e)),
{
    let b = request(AppView { tasks: t, ..a }, e);
    assert(b.effects.take(a.effects.len() as int) =~= a.effects);
}

proof fn lemma_check_auth(a: AppView)
    ensures
        clean(a, check_auth_spec(a)),
{
    if a.unity_available {
        let b = show(a, crate::model::DialogueView::Info(seq![]));
        lemma_unchanged(a, b);
        if !b.tasks.check_auth {
            lemma_request(b, Tasks { check_auth: true, ..b.tasks }, EffectView::CheckAuth);
            lemma_compose(a, b, check_auth_spec(a));
        }
    } else {
        lemma_unchanged(a, a);
    }
}

proof fn lemma_login(a: AppView)
    ensures
        clean(a, login_spec(a)),
{
    if a.unity_available {
        let b = show(a, crate::model::DialogueView::Info(seq![]));
        lemma_unchanged(a, b);
        if !b.tasks.login {
            lemma_request(b, Tasks { login: true, ..b.tasks }, EffectView::Login);
            lemma_compose(a, b, login_spec(a));
        }
    } else {
        lemma_unchanged(a, a);
    }
}

proof fn lemma_refresh(a: AppView)
    ensures
        clean(a, refresh_spec(a)),
{
    let b = AppView { proj_expanded: false, ..a };
    lemma_unchanged(a, b);
    match b.screen {
        crate::model::Screen::ProjectList => {
            let c = AppView { list_items: seq![], projects: seq![], ..b };
            lemma_unchanged(b, c);
            let d = request_projects_spec(c);
            lemma_request_projects(c);
            lemma_check_auth(d);
            let e = check_auth_spec(d);
            lemma_unchanged(e, close_and_select_first(e));
            lemma_compose(a, b, c);
            lemma_compose(a, c, d);
            lemma_compose(a, d, e);
            lemma_compose(a, e, close_and_select_first(e));
        },
        crate::model::Screen::EditorList => {
            let c = AppView { list_items: seq![], all_editors: None, ..b };
            lemma_unchanged(b, c);
            let d = request_editors_spec(c);
            lemma_request_editors(c);
            lemma_unchanged(d, close_and_select_first(d));
            lemma_compose(a, b, c);
            lemma_compose(a, c, d);
            lemma_compose(a, d, close_and_select_first(d));
        },
        crate::model::Screen::CommandList => {},
    }
}

/// A step that keeps the queue and the work under way is clean.
proof fn lemma_keeps(a: AppView, b: AppView)
    requires
        b.effects == a.effects,
        b.tasks == a.tasks,
    ensures
        clean(a, b),
        requests_once(a, b),
{
    lemma_unchanged(a, b);
}

/// Queues a request for work not under way, marking it under way, or does
/// nothing.
proof fn lemma_maybe_request(a: AppView, t: Tasks, e: EffectView, b: AppView)
    requires
        b == a || {
            &&& work_of(e) matches Some(k) ==> busy(t, k) && !busy(a.tasks, k)
            &&& forall|k: TaskKind| busy(a.tasks, k) ==> busy(t, k)
            &&& b == request(AppView { tasks: t, ..a }, e)
        },
    ensures
        clean(a, b),
{
    if b == a {
        lemma_unchanged(a, b);
    } else {
        lemma_request(a, t, e);
    }
}

proof fn lemma_request_projects(a: AppView)
    ensures
        clean(a, request_projects_spec(a)),
{
    lemma_maybe_request(a, Tasks { projects: true, ..a.tasks }, EffectView::ListProjects, request_projects_spec(a));
}

proof fn lemma_request_editors(a: AppView)
    ensures
        clean(a, request_editors_spec(a)),
{
    lemma_maybe_request(a, Tasks { all_editors: true, ..a.tasks }, EffectView::ListEditors, request_editors_spec(a));
}

proof fn lemma_request_installed(a: AppView)
    ensures
        clean(a, request_installed_spec(a)),
{
    lemma_maybe_request(a, Tasks { installed_editors: true, ..a.tasks }, EffectView::ListInstalledEditors,
        request_installed_spec(a));
}

proof fn lemma_version_suggestions(a: AppView)
    ensures
        clean(a, version_suggestions_spec(a)),
{
    let b = request_installed_spec(a);
    lemma_request_installed(a);
    lemma_keeps(b, filter_by_input(b));
    lemma_compose(a, b, filter_by_input(b));
}

proof fn lemma_open_create(a: AppView)
    ensures
        clean(a, open_create_dialogue_spec(a)),
{
    let b = AppView {
        open_after_creation: false,
        selected_index: a.list_state.selected,
        list_state: ListSelection { selected: None, offset: 0 },
        dialogue: DialogueStateView {
            current: DialogueView::Input,
            selected_project: Some(empty_project()),
            selection: DialogueSelection::Accept,
            ..a.dialogue
        },
        input: InputView { step: InputStep::Name, ..a.input },
        installed_editors: None,
        templates: None,
        ..a
    };
    assert(open_create_dialogue_spec(a) == version_suggestions_spec(b));
    lemma_keeps(a, b);
    lemma_version_suggestions(b);
    lemma_compose(a, b, version_suggestions_spec(b));
}

proof fn lemma_template_suggestions(a: AppView)
    ensures
        clean(a, template_suggestions_spec(a)),
{
    let b = template_suggestions_spec(a);
    let t = Tasks { templates: true, ..a.tasks };
    if b != a {
        let a2 = AppView { timer: a.tick_counter, ..a };
        lemma_keeps(a, a2);
        lemma_request(a2, t, EffectView::ListTemplates(wizard_version(a)));
        assert(b == request(AppView { tasks: t, ..a2 }, EffectView::ListTemplates(wizard_version(a))));
        lemma_compose(a, a2, b);
    } else {
        lemma_keeps(a, b);
    }
}

proof fn lemma_open_selected(a: AppView)
    ensures
        clean(a, open_selected_spec(a)),
{
    let b = open_selected_spec(a);
    if b != a {
        let i = a.list_state.selected.unwrap();
        lemma_request(a, Tasks { proj_open: true, ..a.tasks }, EffectView::OpenProject(a.projects[i as int]));
    } else {
        lemma_keeps(a, b);
    }
}

proof fn lemma_delete_selected(a: AppView, with_dir: bool)
    ensures
        clean(a, delete_selected_spec(a, with_dir)),
{
    let b = delete_selected_spec(a, with_dir);
    if b != a {
        let p = a.dialogue.selected_project.unwrap();
        let c = show(a, DialogueView::Info(seq![]));
        lemma_keeps(a, c);
        lemma_request(c, Tasks { proj_delete: true, ..c.tasks }, EffectView::DeleteProject(p, with_dir));
        lemma_compose(a, c, b);
    } else {
        lemma_keeps(a, b);
    }
}

proof fn lemma_install(a: AppView, version: Seq<char>, install: bool)
    ensures
        clean(a, install_spec(a, version, install)),
{
    if !a.unity_available {
        lemma_keeps(a, a);
    } else {
        let b = show(a, DialogueView::Info(seq![]));
        lemma_keeps(a, b);
        if install && !b.tasks.editor_install {
            let t = Tasks { editor_install: true, ..b.tasks };
            lemma_request(b, b.tasks, EffectView::RestartTimer);
            let c = request(b, EffectView::RestartTimer);
            lemma_request(c, t, EffectView::InstallEditor(version));
            assert(request(AppView { tasks: t, ..c }, EffectView::InstallEditor(version)) == install_spec(a, version, install));
            lemma_compose(b, c, install_spec(a, version, install));
            lemma_compose(a, b, install_spec(a, version, install));
        } else if !install && !b.tasks.editor_uninstall {
            let t = Tasks { editor_uninstall: true, ..b.tasks };
            lemma_request(b, b.tasks, EffectView::RestartTimer);
            let c = request(b, EffectView::RestartTimer);
            lemma_request(c, t, EffectView::UninstallEditor(version));
            assert(request(AppView { tasks: t, ..c }, EffectView::UninstallEditor(version)) == install_spec(a, version, install));
            lemma_compose(b, c, install_spec(a, version, install));
            lemma_compose(a, b, install_spec(a, version, install));
        }
    }
}

proof fn lemma_finish_create(a: AppView)
    ensures
        clean(a, finish_create_spec(a)),
{
    let b = finish_create_spec(a);
    if b != a {
        let p = a.dialogue.selected_project.unwrap();
        lemma_request(a, Tasks { proj_create: true, ..a.tasks }, EffectView::CreateProject(p));
    } else {
        lemma_keeps(a, b);
    }
}

/// A step that starts by dropping work under way, without queuing anything,
/// and then queues cleanly.
proof fn lemma_after_drop(a: AppView, b: AppView, c: AppView)
    requires
        b.effects == a.effects,
        clean(b, c),
    ensures
        requests_once(a, c),
{
}

proof fn lemma_advance(a: AppView, listing: Seq<Seq<char>>)
    ensures
        clean(a, advance_spec(a, listing).0),
{
    let value = a.input.value;
    let b = advance_spec(a, listing).0;
    match a.input.step {
        InputStep::Version => {
            let refused = match a.installed_editors {
                Some(vs) => !vs.contains(value),
                None => false,
            };
            if refused {
                lemma_keeps(a, b);
            } else {
                let c = with_step(
                    with_project(a, changed_project(a, |p: ProjectView| ProjectView { editor_version: value, ..p })),
                    InputStep::Template);
                lemma_keeps(a, c);
                lemma_template_suggestions(c);
                lemma_compose(a, c, b);
            }
        },
        _ => {
            lemma_keeps(a, b);
        },
    }
}

proof fn lemma_after_step(b: AppView)
    ensures
        clean(b, after_step_spec(b)),
{
    let c = AppView { list_state: ListSelection { selected: None, offset: 0 }, ..submitted(b) };
    lemma_keeps(b, c);
    if c.input.step == InputStep::Complete {
        lemma_finish_create(c);
        lemma_compose(b, c, finish_create_spec(c));
    }
}

proof fn lemma_dismiss_error(a: AppView)
    ensures
        requests_once(a, dismiss_error_spec(a)),
{
    if !(a.dialogue.return_to is Closed) {
        lemma_keeps(a, dismiss_error_spec(a));
    } else {
        let d = submitted(reset_after_dialogue_spec(clear_tasks_spec(a)));
        lemma_refresh(d);
        lemma_after_drop(a, d, refresh_spec(d));
    }
}

proof fn lemma_cancel_input(a: AppView)
    ensures
        requests_once(a, cancel_input_spec(a)),
{
    let b = if a.dialogue.return_to is Closed { clear_tasks_spec(a) } else { a };
    let d = submitted(reset_after_dialogue_spec(b));
    lemma_refresh(d);
    lemma_after_drop(a, d, refresh_spec(d));
}

proof fn lemma_submit_input(a: AppView, listing: Seq<Seq<char>>)
    ensures
        requests_once(a, submit_input_spec(a, listing)),
{
    reveal(submit_input_spec);
    if a.dialogue.selection == DialogueSelection::Cancel {
        lemma_cancel_input(a);
    } else if a.input.value.len() == 0 && a.input.step != InputStep::Template {
        lemma_keeps(a, submit_input_spec(a, listing));
    } else if a.input.buff.len() == 0 && a.input.step == InputStep::Template {
        lemma_keeps(a, submit_input_spec(a, listing));
    } else {
        let (b, ok) = advance_spec(a, listing);
        lemma_advance(a, listing);
        if ok {
            lemma_after_step(b);
            lemma_compose(a, b, after_step_spec(b));
        }
    }
}

proof fn lemma_confirm_login(a: AppView)
    ensures
        clean(a, confirm_login_spec(a)),
{
    if a.dialogue.selection == DialogueSelection::Accept {
        lemma_login(a);
    } else {
        lemma_keeps(a, confirm_login_spec(a));
    }
}

proof fn lemma_execute(a: AppView, listing: Seq<Seq<char>>)
    ensures
        requests_once(a, execute_spec(a, listing)),
{
    reveal(execute_spec);
    match a.dialogue.current {
        DialogueView::DeleteConfirm { with_dir } => {
            if a.dialogue.selection == DialogueSelection::Accept {
                lemma_delete_selected(a, with_dir);
            } else {
                lemma_keeps(a, a);
            }
        },
        DialogueView::Error(_) => lemma_dismiss_error(a),
        DialogueView::Input => lemma_submit_input(a, listing),
        DialogueView::TimedInfo(_) => lemma_keeps(a, reset_after_dialogue_spec(a)),
        DialogueView::Confirm(_) => {
            let b = reset_after_dialogue_spec(a);
            lemma_keeps(a, b);
            lemma_refresh(b);
            lemma_compose(a, b, refresh_spec(b));
        },
        DialogueView::ConfirmAction(_, _) => lemma_confirm_login(a),
        _ => lemma_keeps(a, a),
    }
}

proof fn lemma_switch_screen(a: AppView, screen: Screen)
    ensures
        clean(a, switch_screen_spec(a, screen)),
{
    let b = AppView { screen, ..a };
    lemma_keeps(a, b);
    lemma_refresh(b);
    lemma_compose(a, b, refresh_spec(b));
}

proof fn lemma_move_keeps(a: AppView, next: bool)
    ensures
        clean(a, move_selection_spec(a, next)),
{
    let b = collapse_before_move(a, next);
    let c = step_selection(b, next);
    assert(b.effects == a.effects && b.tasks == a.tasks);
    assert(copy_entry_spec(c).effects == a.effects && copy_entry_spec(c).tasks == a.tasks);
    lemma_keeps(a, move_selection_spec(a, next));
}

proof fn lemma_main_key(a: AppView, key: Key)
    ensures
        clean(a, main_key_spec(a, key).0),
{
    reveal(main_key_spec);
    if is_down(key) {
        lemma_move_keeps(a, true);
    } else if is_up(key) {
        lemma_move_keeps(a, false);
    } else if key.code == KeyCode::Enter {
        lemma_keeps(a, toggle_details_spec(a));
    } else if (is_char(key, 'D') || is_char(key, 'd')) && key.shift {
        lemma_keeps(a, open_delete_dialogue_spec(a, true));
    } else if is_char(key, 'd') {
        lemma_keeps(a, open_delete_dialogue_spec(a, false));
    } else if is_char(key, 'o') {
        lemma_open_selected(a);
    } else if is_char(key, 'c') {
        lemma_open_create(a);
    } else if is_char(key, 'r') {
        lemma_refresh(a);
    } else if is_char(key, 'e') {
        lemma_switch_screen(a, Screen::EditorList);
    } else if key.code == KeyCode::Esc {
        lemma_keeps(a, collapse_spec(a));
    } else {
        lemma_keeps(a, a);
    }
}

proof fn lemma_editor_key(a: AppView, key: Key, listing: Seq<Seq<char>>)
    ensures
        requests_once(a, editor_key_spec(a, key, listing).0),
{
    reveal(editor_key_spec);
    if is_down(key) {
        lemma_move_keeps(a, true);
    } else if is_up(key) {
        lemma_move_keeps(a, false);
    } else if is_char(key, 'i') || is_char(key, 'd') {
        match selected_editor(a) {
            Some((installed, version)) => {
                lemma_install(a, version, true);
                lemma_install(a, version, false);
                lemma_keeps(a, a);
            },
            None => lemma_keeps(a, a),
        }
    } else if key.code == KeyCode::Esc {
        lemma_switch_screen(a, Screen::ProjectList);
    } else if key.code == KeyCode::Enter && a.dialogue.selection != DialogueSelection::Unset {
        lemma_execute(a, listing);
    } else {
        lemma_keeps(a, a);
    }
}

proof fn lemma_input_key(a: AppView, key: Key, listing: Seq<Seq<char>>)
    ensures
        requests_once(a, input_key_spec(a, key, listing)),
{
    reveal(input_key_spec);
    if key.code == KeyCode::Enter {
        lemma_execute(a, listing);
    } else if key.code == KeyCode::Tab && a.input.step == InputStep::Path {
        lemma_keeps(a, append_path_item_spec(a));
    } else if key.code is Char && !key.ctrl {
        lemma_keeps(a, input_key_spec(a, key, listing));
    } else if key.code == KeyCode::Backspace || key.code == KeyCode::Left || key.code == KeyCode::Right {
        lemma_keeps(a, input_key_spec(a, key, listing));
    } else if is_char(key, 'n') && key.ctrl {
        lemma_move_keeps(a, true);
    } else if is_char(key, 'p') && key.ctrl {
        lemma_move_keeps(a, false);
    } else if is_char(key, 'v') && (key.ctrl || key.meta) {
        lemma_request(a, a.tasks, EffectView::PasteClipboard);
        assert(AppView { tasks: a.tasks, ..a } == a);
    } else if key.code == KeyCode::Esc {
        let b = focus(a, DialogueSelection::Cancel);
        lemma_execute(b, listing);
    } else {
        lemma_keeps(a, a);
    }
}

proof fn lemma_dialogue_key(a: AppView, key: Key, listing: Seq<Seq<char>>)
    ensures
        requests_once(a, dialogue_key_spec(a, key, listing).0),
{
    reveal(dialogue_key_spec);
    if is_char(key, 'l') || key.code == KeyCode::Right || is_char(key, 'h') || key.code == KeyCode::Left {
        lemma_keeps(a, dialogue_key_spec(a, key, listing).0);
    } else if key.code == KeyCode::Esc {
        lemma_execute(focus(a, DialogueSelection::Cancel), listing);
    } else if key.code == KeyCode::Enter && a.dialogue.selection != DialogueSelection::Unset {
        lemma_execute(a, listing);
    } else {
        lemma_keeps(a, a);
    }
}

proof fn lemma_dismiss_notice(a: AppView)
    ensures
        clean(a, dismiss_notice_spec(a)),
{
    let b = show(a, DialogueView::Closed);
    lemma_keeps(a, b);
    if b.dialogue.return_to is Closed {
        lemma_refresh(b);
        lemma_compose(a, b, refresh_spec(b));
    }
}

proof fn lemma_project_list_key(a: AppView, key: Key, listing: Seq<Seq<char>>)
    ensures
        requests_once(a, project_list_key_spec(a, key, listing).0),
{
    reveal(project_list_key_spec);
    match a.dialogue.current {
        DialogueView::Closed => lemma_main_key(a, key),
        DialogueView::Input => lemma_input_key(a, key, listing),
        DialogueView::Info(_) => {
            let b = if is_char(key, 'o') { AppView { open_after_creation: !a.open_after_creation, ..a } } else { a };
            lemma_dialogue_key(b, key, listing);
        },
        DialogueView::TimedInfo(_) => lemma_dismiss_notice(a),
        DialogueView::Panic(_) => lemma_keeps(a, a),
        _ => lemma_dialogue_key(a, key, listing),
    }
}

proof fn lemma_editor_screen_key(a: AppView, key: Key, listing: Seq<Seq<char>>)
    ensures
        requests_once(a, editor_screen_key_spec(a, key, listing).0),
{
    reveal(editor_screen_key_spec);
    match a.dialogue.current {
        DialogueView::TimedInfo(_) => lemma_dismiss_notice(a),
        _ => lemma_editor_key(a, key, listing),
    }
}

/// A key press never asks twice for the same work: every request it queues is
/// for work it marks as under way, and no two of them are for the same work.
pub proof fn lemma_key_requests_once(a: AppView, key: Key, listing: Seq<Seq<char>>)
    ensures
        requests_once(a, handle_key_spec(a, key, listing).0),
{
    if a.show_help {
        reveal(help_key_spec);
        lemma_keeps(a, help_key_spec(a, key).0);
    } else if is_char(key, '?') {
        lemma_keeps(a, handle_key_spec(a, key, listing).0);
    } else {
        match a.screen {
            Screen::ProjectList => lemma_project_list_key(a, key, listing),
            Screen::EditorList => lemma_editor_screen_key(a, key, listing),
            Screen::CommandList => lemma_keeps(a, a),
        }
    }
}

/// A step that queues nothing.
proof fn lemma_no_request(a: AppView, b: AppView)
    requires
        b.effects == a.effects,
    ensures
        requests_once(a, b),
{
    assert(b.effects.take(a.effects.len() as int) =~= a.effects);
}

/// A step that only arms a notice's timer.
proof fn lemma_notify(a: AppView, message: Seq<char>)
    ensures
        requests_once(a, notify(a, message)),
{
    let b = notify(a, message);
    assert(b.effects.take(a.effects.len() as int) =~= a.effects);
    assert(b.effects[a.effects.len() as int] == EffectView::ArmNotice);
}

proof fn lemma_create_done(a: AppView, r: Result<(), Seq<char>>)
    ensures
        !create_done_spec(a, r).tasks.proj_create,
        requests_once(a, create_done_spec(a, r)),
{
    let b = task_done(a, TaskKind::ProjCreate);
    let c = create_done_spec(a, r);
    match r {
        Ok(_) => {
            let b2 = AppView { dialogue: DialogueStateView { return_to: DialogueView::Closed, ..b.dialogue }, ..b };
            if b2.open_after_creation && !b2.tasks.proj_open {
                match b2.dialogue.selected_project {
                    Some(p) => if b2.unity_available {
                        let b3 = show(b2, DialogueView::Info(seq![]));
                        lemma_request(b3, Tasks { proj_open: true, ..b3.tasks }, EffectView::OpenProject(created_project(p)));
                        assert(c.effects == request(b3, EffectView::OpenProject(created_project(p))).effects);
                        assert(c.tasks == Tasks { proj_open: true, ..b3.tasks });
                    } else {
                        lemma_no_request(a, c);
                    },
                    None => lemma_no_request(a, c),
                }
            } else {
                lemma_notify(b2, "Project created successfully!"@);
                assert(c.effects == notify(b2, "Project created successfully!"@).effects);
            }
        },
        Err(_) => lemma_no_request(a, c),
    }
}

proof fn lemma_editor_change_done(a: AppView, install: bool, r: Result<(), Seq<char>>)
    ensures
        !busy(editor_change_done_spec(a, install, r).tasks,
            if install { TaskKind::EditorInstall } else { TaskKind::EditorUninstall }),
        requests_once(a, editor_change_done_spec(a, install, r)),
{
    let k = if install { TaskKind::EditorInstall } else { TaskKind::EditorUninstall };
    let b = task_done(a, k);
    if install && r is Err {
        lemma_no_request(a, editor_change_done_spec(a, install, r));
    } else {
        let m = if install { "Editor installed successfully!"@ } else { "Editor uninstalled successfully!"@ };
        lemma_notify(b, m);
    }
}

proof fn lemma_project_action_done(a: AppView, open: bool, r: Result<(), Seq<char>>)
    ensures
        !busy(project_action_done_spec(a, open, r).tasks, if open { TaskKind::ProjOpen } else { TaskKind::ProjDelete }),
        requests_once(a, project_action_done_spec(a, open, r)),
{
    let k = if open { TaskKind::ProjOpen } else { TaskKind::ProjDelete };
    let b = task_done(a, k);
    if r is Err {
        lemma_no_request(a, project_action_done_spec(a, open, r));
    } else {
        let m = if open { "Project opened successfully!"@ } else { "Project deleted successfully!"@ };
        lemma_notify(b, m);
    }
}

proof fn lemma_login_done(a: AppView, r: Result<(bool, Seq<char>), Seq<char>>)
    ensures
        !login_done_spec(a, r).tasks.login,
        requests_once(a, login_done_spec(a, r)),
{
    let b = task_done(a, TaskKind::Login);
    match r {
        Ok((true, user)) => {
            lemma_notify(b, "Logged in successfully!"@);
            assert(login_done_spec(a, r).effects == notify(b, "Logged in successfully!"@).effects);
            assert(login_done_spec(a, r).tasks == notify(b, "Logged in successfully!"@).tasks);
        },
        _ => lemma_no_request(a, login_done_spec(a, r)),
    }
}

/// Once a listing's outcome is taken in, that listing is no longer marked as
/// under way, and nothing is queued.
#[verifier::spinoff_prover]
pub proof fn lemma_listings_end(a: AppView)
    ensures
        forall|r: Result<(Seq<Seq<char>>, Seq<ProjectView>), Seq<char>>| #![trigger projects_done_spec(a, r)]
            !projects_done_spec(a, r).tasks.projects && projects_done_spec(a, r).effects == a.effects,
        forall|r: Result<Seq<(bool, Seq<char>)>, Seq<char>>| #![trigger editors_done_spec(a, r)]
            !editors_done_spec(a, r).tasks.all_editors && editors_done_spec(a, r).effects == a.effects,
        forall|r: Result<Seq<Seq<char>>, Seq<char>>| #![trigger installed_done_spec(a, r)]
            !installed_done_spec(a, r).tasks.installed_editors && installed_done_spec(a, r).effects == a.effects,
        forall|task: TaskKind, r: Result<Seq<Seq<char>>, Seq<char>>| #![trigger templates_done_spec(a, task, r)]
            !busy(templates_done_spec(a, task, r).tasks, task) && templates_done_spec(a, task, r).effects == a.effects,
{
}

/// Once the outcome of an installation, a removal, a creation, an opening, a
/// deletion, a login or a login check is taken in, that work is no longer
/// marked as under way, and whatever the outcome queues in turn is asked for
/// once.
#[verifier::spinoff_prover]
pub proof fn lemma_actions_end(a: AppView)
    ensures
        forall|install: bool, r: Result<(), Seq<char>>| #![trigger editor_change_done_spec(a, install, r)]
            !busy(editor_change_done_spec(a, install, r).tasks,
                if install { TaskKind::EditorInstall } else { TaskKind::EditorUninstall })
            && requests_once(a, editor_change_done_spec(a, install, r)),
        forall|r: Result<(), Seq<char>>| #![trigger create_done_spec(a, r)]
            !create_done_spec(a, r).tasks.proj_create && requests_once(a, create_done_spec(a, r)),
        forall|open: bool, r: Result<(), Seq<char>>| #![trigger project_action_done_spec(a, open, r)]
            !busy(project_action_done_spec(a, open, r).tasks, if open { TaskKind::ProjOpen } else { TaskKind::ProjDelete })
            && requests_once(a, project_action_done_spec(a, open, r)),
        forall|r: Result<(bool, Seq<char>), Seq<char>>| #![trigger login_done_spec(a, r)]
            !login_done_spec(a, r).tasks.login && requests_once(a, login_done_spec(a, r)),
        forall|r: Result<(bool, Seq<char>), Seq<char>>| #![trigger auth_done_spec(a, r)]
            !auth_done_spec(a, r).tasks.check_auth && auth_done_spec(a, r).effects == a.effects,
{
    assert forall|install: bool, r: Result<(), Seq<char>>| #![trigger editor_change_done_spec(a, install, r)]
        !busy(editor_change_done_spec(a, install, r).tasks,
            if install { TaskKind::EditorInstall } else { TaskKind::EditorUninstall })
        && requests_once(a, editor_change_done_spec(a, install, r)) by {
        lemma_editor_change_done(a, install, r);
    }
    assert forall|r: Result<(), Seq<char>>| #![trigger create_done_spec(a, r)]
        !create_done_spec(a, r).tasks.proj_create && requests_once(a, create_done_spec(a, r)) by {
        lemma_create_done(a, r);
    }
    assert forall|open: bool, r: Result<(), Seq<char>>| #![trigger project_action_done_spec(a, open, r)]
        !busy(project_action_done_spec(a, open, r).tasks, if open { TaskKind::ProjOpen } else { TaskKind::ProjDelete })
        && requests_once(a, project_action_done_spec(a, open, r)) by {
        lemma_project_action_done(a, open, r);
    }
    assert forall|r: Result<(bool, Seq<char>), Seq<char>>| #![trigger login_done_spec(a, r)]
        !login_done_spec(a, r).tasks.login && requests_once(a, login_done_spec(a, r)) by {
        lemma_login_done(a, r);
    }
}

proof fn lemma_template_timeout(b: AppView)
    ensures
        requests_once(b, template_timeout_spec(b)),
{
    if b.tick_counter - b.timer >= TEMPLATE_TIMEOUT_TICKS && b.timer > 0 && !b.tasks.local_templates {
        let b2 = AppView { timer: 0, ..b };
        let d = local_template_suggestions_spec(b2);
        let e = template_timeout_spec(b);
        assert(e.effects == d.effects);
        if d == b2 {
            lemma_no_request(b, e);
        } else {
            assert(d.effects.take(b.effects.len() as int) =~= b.effects);
            assert(d.effects[b.effects.len() as int] == EffectView::ListOfflineTemplates(wizard_version(b2)));
            assert(e.tasks.local_templates);
        }
    } else {
        lemma_keeps(b, b);
    }
}

/// A frame shown while work runs asks for nothing, except that online
/// templates that take too long give way to the offline listing, asked for
/// once.
pub proof fn lemma_frame_requests_once(a: AppView, task: TaskKind, elapsed: std::time::Duration)
    ensures
        requests_once(a, pending_spec(a, task, elapsed)),
{
    if shows_progress(a, task) {
        let b = loading(a, progress_text(a, task, elapsed));
        lemma_keeps(a, b);
        if task == TaskKind::Templates {
            lemma_template_timeout(b);
            assert(requests_once(a, template_timeout_spec(b)));
        }
    } else {
        lemma_keeps(a, a);
    }
}

/// Start-up and the expiry of a notice reload the screen, asking only for
/// work not under way, each once.
pub proof fn lemma_reload_requests_once(a: AppView, unity_found: bool)
    ensures
        clean(a, start_spec(a, unity_found)),
        clean(a, notice_expired_spec(a)),
{
    if unity_found {
        let b = AppView { unity_available: true, ..a };
        lemma_keeps(a, b);
        lemma_refresh(b);
        lemma_compose(a, b, refresh_spec(b));
    } else {
        lemma_keeps(a, start_spec(a, unity_found));
    }
    if a.dialogue.current is TimedInfo {
        let b = show(a, DialogueView::Closed);
        lemma_keeps(a, b);
        lemma_refresh(b);
        lemma_compose(a, b, refresh_spec(b));
    } else {
        lemma_keeps(a, a);
    }
}

} // verus!
