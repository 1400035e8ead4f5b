//! What the application shows while background work runs, and what it does
//! with the outcome once the work is done.

use std::time::Duration;
use vstd::prelude::*;
use vstd::string::StringExecFns;

use crate::app::{App, AppView, editors_view, projects_view, template_names};
use crate::app::{loading, request, show};
use crate::app::wizard::local_template_suggestions_spec;
use crate::duration::{duration_text, format_duration, whole_secs};
use crate::model::{
    Action, Dialogue, DialogueSelection, DialogueStateView, DialogueView, Effect, EffectView, InputStep, Project,
    ProjectView, Tasks, Template,
};
use crate::text::texts;

verus! {

/// A kind of background work.
#[derive(Clone, Copy, Debug, PartialEq, Eq, Structural)]
pub enum TaskKind {
    Projects,
    AllEditors,
    InstalledEditors,
    EditorInstall,
    EditorUninstall,
    Templates,
    LocalTemplates,
    ProjCreate,
    ProjOpen,
    ProjDelete,
    Login,
    CheckAuth,
}

/// Frames after which the online template listing gives way to the offline
/// one: fifteen seconds at sixteen milliseconds a frame.
pub const TEMPLATE_TIMEOUT_TICKS: u64 = 937;

/// The text shown for a flag.
pub open spec fn bool_text(b: bool) -> Seq<char> {
    if b { "true"@ } else { "false"@ }
}

/// Whether a progress message is due for this kind of work: while a progress
/// dialogue shows, or, for the listings the wizard waits for, while the wizard
/// is at the step that needs them.
pub open spec fn shows_progress(a: AppView, task: TaskKind) -> bool {
    let info = a.dialogue.current is Info;
    match task {
        TaskKind::AllEditors | TaskKind::InstalledEditors => info || a.input.step == InputStep::Version,
        TaskKind::Templates | TaskKind::LocalTemplates => info || a.input.step == InputStep::Template,
        TaskKind::ProjCreate => info || a.input.step == InputStep::Complete,
        TaskKind::CheckAuth => false,
        _ => info,
    }
}

/// The progress message for a kind of work.
pub open spec fn progress_text(a: AppView, task: TaskKind, elapsed: Duration) -> Seq<char> {
    match task {
        TaskKind::Projects => "Loading projects..."@,
        TaskKind::AllEditors | TaskKind::InstalledEditors => "Loading editor versions..."@,
        TaskKind::EditorInstall => "Installing editor... this may take a while.\n\nElapsed: "@
            + duration_text(whole_secs(elapsed) as nat),
        TaskKind::EditorUninstall => "Uninstalling editor... this may take a while.\n\nElapsed: "@
            + duration_text(whole_secs(elapsed) as nat),
        TaskKind::Templates => "Loading templates..."@,
        TaskKind::LocalTemplates => "Timed out, Loading local templates..."@,
        TaskKind::ProjCreate => "Creating project... (O)pen: "@ + bool_text(a.open_after_creation),
        TaskKind::ProjOpen => "Opening project..."@,
        TaskKind::ProjDelete => "Deleting project..."@,
        TaskKind::Login => "Logging in, please continue in browser..."@,
        TaskKind::CheckAuth => seq![],
    }
}

/// When the online templates take too long, the offline ones are asked for
/// instead and the online listing is given up.
pub open spec fn template_timeout_spec(b: AppView) -> AppView {
    if b.tick_counter - b.timer >= TEMPLATE_TIMEOUT_TICKS && b.timer > 0 && !b.tasks.local_templates {
        let d = local_template_suggestions_spec(AppView { timer: 0, ..b });
        AppView { tasks: Tasks { templates: false, ..d.tasks }, ..d }
    } else {
        b
    }
}

/// What one frame does while work of kind `task` runs; `elapsed` is the time
/// since the timer was last restarted.
pub open spec fn pending_spec(a: AppView, task: TaskKind, elapsed: Duration) -> AppView {
    if shows_progress(a, task) {
        let b = loading(a, progress_text(a, task, elapsed));
        if task == TaskKind::Templates { template_timeout_spec(b) } else { b }
    } else {
        a
    }
}

/// The frame counter does not lag behind the moment the online template
/// listing started, where the timeout is checked.
pub open spec fn pending_defined(a: AppView, task: TaskKind) -> bool {
    task == TaskKind::Templates && shows_progress(a, task) ==> a.timer <= a.tick_counter
}

/// The state with the flag of `task` cleared.
pub open spec fn task_done(a: AppView, task: TaskKind) -> AppView {
    let t = a.tasks;
    AppView {
        tasks: match task {
            TaskKind::Projects => Tasks { projects: false, ..t },
            TaskKind::AllEditors => Tasks { all_editors: false, ..t },
            TaskKind::InstalledEditors => Tasks { installed_editors: false, ..t },
            TaskKind::EditorInstall => Tasks { editor_install: false, ..t },
            TaskKind::EditorUninstall => Tasks { editor_uninstall: false, ..t },
            TaskKind::Templates => Tasks { templates: false, ..t },
            TaskKind::LocalTemplates => Tasks { local_templates: false, ..t },
            TaskKind::ProjCreate => Tasks { proj_create: false, ..t },
            TaskKind::ProjOpen => Tasks { proj_open: false, ..t },
            TaskKind::ProjDelete => Tasks { proj_delete: false, ..t },
            TaskKind::Login => Tasks { login: false, ..t },
            TaskKind::CheckAuth => Tasks { check_auth: false, ..t },
        },
        ..a
    }
}

/// A notice that closes by itself three seconds later.
pub open spec fn notify(a: AppView, message: Seq<char>) -> AppView {
    request(show(a, DialogueView::TimedInfo(message)), EffectView::ArmNotice)
}

/// The label of an editor version in the list: a check mark when installed,
/// a cross otherwise, then the version.
pub open spec fn editor_label(e: (bool, Seq<char>)) -> Seq<char> {
    (if e.0 { "✔"@ } else { "✘"@ }) + " "@ + e.1
}

/// The project list arrived, or its listing failed.
pub open spec fn projects_done_spec(a: AppView, r: Result<(Seq<Seq<char>>, Seq<ProjectView>), Seq<char>>) -> AppView {
    let b = task_done(a, TaskKind::Projects);
    match r {
        Ok((names, projects)) => show(AppView { list_items: names, projects, ..b }, DialogueView::Closed),
        Err(e) => show(b, DialogueView::Error(e)),
    }
}

/// Every editor version arrived, or the listing failed.
pub open spec fn editors_done_spec(a: AppView, r: Result<Seq<(bool, Seq<char>)>, Seq<char>>) -> AppView {
    let b = task_done(a, TaskKind::AllEditors);
    match r {
        Ok(all) => if all.len() == 0 {
            show(b, DialogueView::Error("Failed to fetch editors..."@))
        } else {
            show(AppView { all_editors: Some(all), list_items: all.map_values(|e: (bool, Seq<char>)| editor_label(e)), ..b },
                DialogueView::Closed)
        },
        Err(e) => show(b, DialogueView::Error(e)),
    }
}

/// The installed editor versions arrived, or the listing failed.
pub open spec fn installed_done_spec(a: AppView, r: Result<Seq<Seq<char>>, Seq<char>>) -> AppView {
    let b = task_done(a, TaskKind::InstalledEditors);
    match r {
        Ok(eds) => if eds.len() == 0 {
            show(b, DialogueView::Error("No editors available..."@))
        } else {
            let c = AppView { installed_editors: Some(eds), list_items: eds, ..b };
            if c.dialogue.current is Error { c } else { show(c, DialogueView::Input) }
        },
        Err(e) => show(b, DialogueView::Error(e)),
    }
}

/// Templates (online or offline) arrived, or the listing failed.
pub open spec fn templates_done_spec(a: AppView, task: TaskKind, r: Result<Seq<Seq<char>>, Seq<char>>) -> AppView {
    let b = task_done(a, task);
    match r {
        Ok(ts) => if ts.len() == 0 {
            show(b, DialogueView::Error("No templates found..."@))
        } else {
            show(AppView { templates: Some(ts), ..b }, DialogueView::Input)
        },
        Err(e) => show(b, DialogueView::Error(e)),
    }
}

/// An editor installation or removal ended.
pub open spec fn editor_change_done_spec(a: AppView, install: bool, r: Result<(), Seq<char>>) -> AppView {
    if install {
        let b = task_done(a, TaskKind::EditorInstall);
        match r {
            Ok(_) => notify(b, "Editor installed successfully!"@),
            Err(e) => show(b, DialogueView::Error(e)),
        }
    } else {
        notify(task_done(a, TaskKind::EditorUninstall), "Editor uninstalled successfully!"@)
    }
}

/// The created project, to be opened: its path is the directory it was
/// created in followed by its name.
pub open spec fn created_project(p: ProjectView) -> ProjectView {
    ProjectView { path: p.path + "/"@ + p.name, ..p }
}

/// A project creation ended: on success the project is opened when asked
/// for, else a notice says so; the wizard goes back to its first step.
pub open spec fn create_done_spec(a: AppView, r: Result<(), Seq<char>>) -> AppView {
    let b = task_done(a, TaskKind::ProjCreate);
    let c = match r {
        Ok(_) => {
            let b2 = AppView { dialogue: DialogueStateView { return_to: DialogueView::Closed, ..b.dialogue }, ..b };
            if b2.open_after_creation && !b2.tasks.proj_open {
                match b2.dialogue.selected_project {
                    Some(p) => if b2.unity_available {
                        let b3 = show(b2, DialogueView::Info(seq![]));
                        request(AppView { tasks: Tasks { proj_open: true, ..b3.tasks }, ..b3 },
                            EffectView::OpenProject(created_project(p)))
                    } else {
                        b2
                    },
                    None => b2,
                }
            } else {
                notify(b2, "Project created successfully!"@)
            }
        },
        Err(e) => show(b, DialogueView::Error(e)),
    };
    AppView { input: crate::model::InputView { step: InputStep::Name, ..c.input }, ..c }
}

/// Opening or deleting a project ended.
pub open spec fn project_action_done_spec(a: AppView, open: bool, r: Result<(), Seq<char>>) -> AppView {
    if open {
        let b = task_done(a, TaskKind::ProjOpen);
        match r {
            Ok(_) => notify(b, "Project opened successfully!"@),
            Err(e) => show(b, DialogueView::Error(e)),
        }
    } else {
        let b = task_done(a, TaskKind::ProjDelete);
        match r {
            Ok(_) => notify(b, "Project deleted successfully!"@),
            Err(_) => show(b, DialogueView::Error("Failed to delete..."@)),
        }
    }
}

/// A login ended: logged in with a user name, refused, or failed.
pub open spec fn login_done_spec(a: AppView, r: Result<(bool, Seq<char>), Seq<char>>) -> AppView {
    let b = task_done(a, TaskKind::Login);
    match r {
        Ok((true, user)) => AppView { username: user, ..notify(b, "Logged in successfully!"@) },
        Ok((false, _)) => show(b, DialogueView::Confirm("Failed to log in, please try again later."@)),
        Err(e) => show(b, DialogueView::Error(e)),
    }
}

/// The login check ended: the user name is kept, or the user is asked to log
/// in (unless they declined before), or the failure is shown.
pub open spec fn auth_done_spec(a: AppView, r: Result<(bool, Seq<char>), Seq<char>>) -> AppView {
    let b = task_done(a, TaskKind::CheckAuth);
    match r {
        Ok((true, user)) => AppView { username: user, ..b },
        Ok((false, _)) => if !b.declined_login {
            AppView {
                username: "NONE"@,
                dialogue: DialogueStateView {
                    selection: DialogueSelection::Accept,
                    current: DialogueView::ConfirmAction("You're not logged in, would you like to log in?"@, Action::Login),
                    ..b.dialogue
                },
                ..b
            }
        } else {
            b
        },
        Err(e) => show(AppView { username: "NONE"@, ..b }, DialogueView::Error(e)),
    }
}

pub open spec fn error_view<T>(r: Result<T, String>) -> Result<T, Seq<char>> {
    match r {
        Ok(v) => Ok(v),
        Err(e) => Err(e@),
    }
}


/// Appends the text shown for a flag.
fn push_bool(out: &mut String, b: bool)
    ensures
        final(out)@ == old(out)@ + bool_text(b),
{
    if b {
        out.append("true");
    } else {
        out.append("false");
    }
}

impl App {
    fn shows_progress(&self, task: TaskKind) -> (r: bool)
        ensures
            r == shows_progress(self@, task),
    {
        let info = matches!(self.dialogue.current, Dialogue::Info(_));
        match task {
            TaskKind::AllEditors | TaskKind::InstalledEditors => info || matches!(self.input.step, InputStep::Version),
            TaskKind::Templates | TaskKind::LocalTemplates => info || matches!(self.input.step, InputStep::Template),
            TaskKind::ProjCreate => info || matches!(self.input.step, InputStep::Complete),
            TaskKind::CheckAuth => false,
            _ => info,
        }
    }

    fn progress_text(&self, task: TaskKind, elapsed: Duration) -> (r: String)
        ensures
            r@ == progress_text(self@, task, elapsed),
    {
        match task {
            TaskKind::Projects => String::from_str("Loading projects..."),
            TaskKind::AllEditors | TaskKind::InstalledEditors => String::from_str("Loading editor versions..."),
            TaskKind::EditorInstall => {
                let mut t = String::from_str("Installing editor... this may take a while.\n\nElapsed: ");
                let d = format_duration(elapsed);
                t.append(d.as_str());
                t
            },
            TaskKind::EditorUninstall => {
                let mut t = String::from_str("Uninstalling editor... this may take a while.\n\nElapsed: ");
                let d = format_duration(elapsed);
                t.append(d.as_str());
                t
            },
            TaskKind::Templates => String::from_str("Loading templates..."),
            TaskKind::LocalTemplates => String::from_str("Timed out, Loading local templates..."),
            TaskKind::ProjCreate => {
                let mut t = String::from_str("Creating project... (O)pen: ");
                push_bool(&mut t, self.open_after_creation);
                t
            },
            TaskKind::ProjOpen => String::from_str("Opening project..."),
            TaskKind::ProjDelete => String::from_str("Deleting project..."),
            TaskKind::Login => String::from_str("Logging in, please continue in browser..."),
            TaskKind::CheckAuth => String::new(),
        }
    }

    fn template_timeout(&mut self)
        requires
            old(self).timer <= old(self).tick_counter,
        ensures
            final(self)@ == template_timeout_spec(old(self)@),
    {
        if self.tick_counter - self.timer >= TEMPLATE_TIMEOUT_TICKS && self.timer > 0 && !self.tasks.local_templates {
            self.timer = 0;
            self.refresh_local_template_suggestions();
            let t = Tasks { templates: false, ..self.tasks };
            self.set_tasks(t);
        }
    }

    /// One frame while work of kind `task` is under way: shows its progress
    /// and, for the online templates, gives up after the timeout.
    pub fn task_pending(&mut self, task: TaskKind, elapsed: Duration)
        requires
            pending_defined(old(self)@, task),
        ensures
            final(self)@ == pending_spec(old(self)@, task, elapsed),
    {
        if !self.shows_progress(task) {
            return;
        }
        let message = self.progress_text(task, elapsed);
        self.update_loading(message.as_str());
        if task == TaskKind::Templates {
            self.template_timeout();
        }
    }

    fn clear_task(&mut self, task: TaskKind)
        ensures
            final(self)@ == task_done(old(self)@, task),
    {
        let t = match task {
            TaskKind::Projects => Tasks { projects: false, ..self.tasks },
            TaskKind::AllEditors => Tasks { all_editors: false, ..self.tasks },
            TaskKind::InstalledEditors => Tasks { installed_editors: false, ..self.tasks },
            TaskKind::EditorInstall => Tasks { editor_install: false, ..self.tasks },
            TaskKind::EditorUninstall => Tasks { editor_uninstall: false, ..self.tasks },
            TaskKind::Templates => Tasks { templates: false, ..self.tasks },
            TaskKind::LocalTemplates => Tasks { local_templates: false, ..self.tasks },
            TaskKind::ProjCreate => Tasks { proj_create: false, ..self.tasks },
            TaskKind::ProjOpen => Tasks { proj_open: false, ..self.tasks },
            TaskKind::ProjDelete => Tasks { proj_delete: false, ..self.tasks },
            TaskKind::Login => Tasks { login: false, ..self.tasks },
            TaskKind::CheckAuth => Tasks { check_auth: false, ..self.tasks },
        };
        self.set_tasks(t);
    }

    fn notify(&mut self, message: &str)
        ensures
            final(self)@ == notify(old(self)@, message@),
    {
        self.set_dialogue(Dialogue::TimedInfo(String::from_str(message)));
        self.push_effect(Effect::ArmNotice);
    }

    fn fail(&mut self, message: String)
        ensures
            final(self)@ == show(old(self)@, DialogueView::Error(message@)),
    {
        self.set_dialogue(Dialogue::Error(message));
    }

    /// The project listing ended with the names and the projects, or an error.
    pub fn projects_finished(&mut self, result: Result<(Vec<String>, Vec<Project>), String>)
        ensures
            final(self)@ == projects_done_spec(old(self)@, match result {
                Ok((names, projects)) => Ok((texts(names@), projects_view(projects@))),
                Err(e) => Err(e@),
            }),
    {
        self.clear_task(TaskKind::Projects);
        match result {
            Ok((names, projects)) => {
                self.set_list_items(names);
                self.projects = projects;
                self.set_dialogue(Dialogue::Closed);
            },
            Err(e) => self.fail(e),
        }
    }

    /// The listing of every editor version ended.
    pub fn all_editors_finished(&mut self, result: Result<Vec<(bool, String)>, String>)
        ensures
            final(self)@ == editors_done_spec(old(self)@, match result {
                Ok(all) => Ok(editors_view(all@)),
                Err(e) => Err(e@),
            }),
    {
        self.clear_task(TaskKind::AllEditors);
        match result {
            Ok(all) => {
                if all.len() == 0 {
                    self.fail(String::from_str("Failed to fetch editors..."));
                } else {
                    let labels = editor_labels(&all);
                    self.all_editors = Some(all);
                    self.set_list_items(labels);
                    self.set_dialogue(Dialogue::Closed);
                }
            },
            Err(e) => self.fail(e),
        }
    }

    /// The listing of the installed editor versions ended.
    pub fn installed_editors_finished(&mut self, result: Result<Vec<String>, String>)
        ensures
            final(self)@ == installed_done_spec(old(self)@, match result {
                Ok(eds) => Ok(texts(eds@)),
                Err(e) => Err(e@),
            }),
    {
        self.clear_task(TaskKind::InstalledEditors);
        match result {
            Ok(eds) => {
                if eds.len() == 0 {
                    self.fail(String::from_str("No editors available..."));
                } else {
                    let copy = crate::text::copy_texts(&eds);
                    self.installed_editors = Some(copy);
                    self.set_list_items(eds);
                    if !matches!(self.dialogue.current, Dialogue::Error(_)) {
                        self.set_dialogue(Dialogue::Input);
                    }
                }
            },
            Err(e) => self.fail(e),
        }
    }

    /// A template listing ended; `task` says whether online or offline.
    pub fn templates_finished(&mut self, task: TaskKind, result: Result<Vec<Template>, String>)
        requires
            task == TaskKind::Templates || task == TaskKind::LocalTemplates,
        ensures
            final(self)@ == templates_done_spec(old(self)@, task, match result {
                Ok(ts) => Ok(template_names(ts@)),
                Err(e) => Err(e@),
            }),
    {
        self.clear_task(task);
        match result {
            Ok(ts) => {
                if ts.len() == 0 {
                    self.fail(String::from_str("No templates found..."));
                } else {
                    self.templates = Some(ts);
                    self.set_dialogue(Dialogue::Input);
                }
            },
            Err(e) => self.fail(e),
        }
    }

    /// An editor installation (`install`) or removal ended.
    pub fn editor_change_finished(&mut self, install: bool, result: Result<(), String>)
        ensures
            final(self)@ == editor_change_done_spec(old(self)@, install, match result {
                Ok(v) => Ok(v),
                Err(e) => Err(e@),
            }),
    {
        if install {
            self.clear_task(TaskKind::EditorInstall);
            match result {
                Ok(_) => self.notify("Editor installed successfully!"),
                Err(e) => self.fail(e),
            }
        } else {
            self.clear_task(TaskKind::EditorUninstall);
            self.notify("Editor uninstalled successfully!");
        }
    }

    fn open_created(&mut self)
        ensures
            ({
                let b2 = old(self)@;
                final(self)@ == if b2.open_after_creation && !b2.tasks.proj_open {
                    match b2.dialogue.selected_project {
                        Some(p) => if b2.unity_available {
                            let b3 = show(b2, DialogueView::Info(seq![]));
                            request(AppView { tasks: Tasks { proj_open: true, ..b3.tasks }, ..b3 },
                                EffectView::OpenProject(created_project(p)))
                        } else {
                            b2
                        },
                        None => b2,
                    }
                } else {
                    notify(b2, "Project created successfully!"@)
                }
            }),
    {
        if self.open_after_creation && !self.tasks.proj_open {
            let project = match &self.dialogue.selected_project {
                Some(p) => p.duplicate(),
                None => return,
            };
            if self.unity_available {
                self.set_dialogue(Dialogue::Info(String::new()));
                let mut path = project.path.clone();
                path.append("/");
                path.append(project.name.as_str());
                let to_open = Project { path, ..project };
                let t = Tasks { proj_open: true, ..self.tasks };
                self.set_tasks(t);
                self.push_effect(Effect::OpenProject(to_open));
            }
        } else {
            self.notify("Project created successfully!");
        }
    }

    /// A project creation ended.
    pub fn create_finished(&mut self, result: Result<(), String>)
        ensures
            final(self)@ == create_done_spec(old(self)@, match result {
                Ok(v) => Ok(v),
                Err(e) => Err(e@),
            }),
    {
        self.clear_task(TaskKind::ProjCreate);
        match result {
            Ok(_) => {
                self.dialogue.return_to = Dialogue::Closed;
                self.open_created();
            },
            Err(e) => self.fail(e),
        }
        self.input.step = InputStep::Name;
    }

    /// Opening (`open`) or deleting a project ended.
    pub fn project_action_finished(&mut self, open: bool, result: Result<(), String>)
        ensures
            final(self)@ == project_action_done_spec(old(self)@, open, match result {
                Ok(v) => Ok(v),
                Err(e) => Err(e@),
            }),
    {
        if open {
            self.clear_task(TaskKind::ProjOpen);
            match result {
                Ok(_) => self.notify("Project opened successfully!"),
                Err(e) => self.fail(e),
            }
        } else {
            self.clear_task(TaskKind::ProjDelete);
            match result {
                Ok(_) => self.notify("Project deleted successfully!"),
                Err(_) => self.fail(String::from_str("Failed to delete...")),
            }
        }
    }

    /// A login ended: logged in as a user, refused, or failed.
    pub fn login_finished(&mut self, result: Result<(bool, String), String>)
        ensures
            final(self)@ == login_done_spec(old(self)@, match result {
                Ok((ok, user)) => Ok((ok, user@)),
                Err(e) => Err(e@),
            }),
    {
        self.clear_task(TaskKind::Login);
        match result {
            Ok((true, user)) => {
                self.notify("Logged in successfully!");
                self.username = user;
            },
            Ok((false, _)) => self.set_dialogue(Dialogue::Confirm(String::from_str("Failed to log in, please try again later."))),
            Err(e) => self.fail(e),
        }
    }

    /// The login check ended.
    pub fn check_auth_finished(&mut self, result: Result<(bool, String), String>)
        ensures
            final(self)@ == auth_done_spec(old(self)@, match result {
                Ok((ok, user)) => Ok((ok, user@)),
                Err(e) => Err(e@),
            }),
    {
        self.clear_task(TaskKind::CheckAuth);
        match result {
            Ok((true, user)) => {
                self.username = user;
            },
            Ok((false, _)) => {
                if !self.declined_login {
                    self.username = String::from_str("NONE");
                    self.dialogue.selection = DialogueSelection::Accept;
                    self.set_dialogue(Dialogue::ConfirmAction(
                        String::from_str("You're not logged in, would you like to log in?"),
                        Action::Login,
                    ));
                }
            },
            Err(e) => {
                self.username = String::from_str("NONE");
                self.fail(e);
            },
        }
    }
}

/// The list labels of editor versions.
fn editor_labels(all: &Vec<(bool, String)>) -> (r: Vec<String>)
    ensures
        texts(r@) == editors_view(all@).map_values(|e: (bool, Seq<char>)| editor_label(e)),
{
    let ghost target = editors_view(all@).map_values(|e: (bool, Seq<char>)| editor_label(e));
    let mut r: Vec<String> = Vec::new();
    let n = all.len();
    for i in 0..n
        invariant
            n == all@.len(),
            target == editors_view(all@).map_values(|e: (bool, Seq<char>)| editor_label(e)),
            r@.len() == i,
            texts(r@) == target.take(i as int),
    {
        let mut label = if all[i].0 { String::from_str("✔") } else { String::from_str("✘") };
        label.append(" ");
        label.append(all[i].1.as_str());
        assert(label@ == target[i as int]);
        let ghost before = r@;
        r.push(label);
        assert forall|k: int| 0 <= k < i + 1 implies texts(r@)[k] == target.take(i + 1)[k] by {
            if k < i {
                assert(r@[k] == before[k]);
                assert(texts(before)[k] == target.take(i as int)[k]);
            }
        }
        assert(texts(r@) =~= target.take(i + 1));
    }
    assert(target.take(n as int) =~= target);
    r
}

} // verus!
