//! Reloading the screen's lists, checking the login, and resetting after a dialogue.

use vstd::prelude::*;
use vstd::string::StringExecFns;

use crate::app::{App, AppView};
use crate::app::{show, request};
use crate::list::ListSelection;
use crate::model::{
    Dialogue, DialogueSelection, DialogueStateView, DialogueView, Effect, EffectView, InputStep, InputView,
    Screen, Tasks,
};

verus! {

/// Asks whether the user is logged in, unless that is being asked already.
pub open spec fn check_auth_spec(a: AppView) -> AppView {
    if !a.unity_available {
        a
    } else {
        let b = show(a, DialogueView::Info(seq![]));
        if b.tasks.check_auth {
            b
        } else {
            request(AppView { tasks: Tasks { check_auth: true, ..b.tasks }, ..b }, EffectView::CheckAuth)
        }
    }
}

/// Starts logging in, unless that is under way already.
pub open spec fn login_spec(a: AppView) -> AppView {
    if !a.unity_available {
        a
    } else {
        let b = show(a, DialogueView::Info(seq![]));
        if b.tasks.login {
            b
        } else {
            request(AppView { tasks: Tasks { login: true, ..b.tasks }, ..b }, EffectView::Login)
        }
    }
}

/// Closes the dialogue and selects the first list item.
pub open spec fn close_and_select_first(a: AppView) -> AppView {
    AppView {
        dialogue: DialogueStateView {
            current: DialogueView::Closed,
            return_to: DialogueView::Closed,
            selection: DialogueSelection::Unset,
            ..a.dialogue
        },
        list_state: ListSelection { selected: Some(0usize), ..a.list_state },
        ..a
    }
}

/// Asks for the projects, unless they are being listed already.
pub open spec fn request_projects_spec(a: AppView) -> AppView {
    if a.unity_available && !a.tasks.projects {
        request(AppView { tasks: Tasks { projects: true, ..a.tasks }, ..a }, EffectView::ListProjects)
    } else {
        a
    }
}

/// Asks for every editor version, unless they are being listed already.
pub open spec fn request_editors_spec(a: AppView) -> AppView {
    if a.unity_available && !a.tasks.all_editors {
        request(AppView { tasks: Tasks { all_editors: true, ..a.tasks }, ..a }, EffectView::ListEditors)
    } else {
        a
    }
}

/// Reloads the project list and checks the login.
pub open spec fn refresh_projects_spec(a: AppView) -> AppView {
    close_and_select_first(check_auth_spec(request_projects_spec(AppView { list_items: seq![], projects: seq![], ..a })))
}

/// Reloads the list of editor versions.
pub open spec fn refresh_editors_spec(a: AppView) -> AppView {
    close_and_select_first(request_editors_spec(AppView { list_items: seq![], all_editors: None, ..a }))
}

/// Collapses any expanded project and reloads the current screen.
pub open spec fn refresh_spec(a: AppView) -> AppView {
    let b = AppView { proj_expanded: false, ..a };
    match b.screen {
        Screen::ProjectList => refresh_projects_spec(b),
        Screen::EditorList => refresh_editors_spec(b),
        Screen::CommandList => b,
    }
}

/// Forgets the listing, template and project work under way.
pub open spec fn clear_tasks_spec(a: AppView) -> AppView {
    AppView {
        tasks: Tasks {
            projects: false,
            installed_editors: false,
            templates: false,
            proj_open: false,
            proj_create: false,
            proj_delete: false,
            ..a.tasks
        },
        ..a
    }
}

/// Restores the selection held before a dialogue, closes it, goes back to the
/// first wizard step and selects the first list item.
pub open spec fn reset_after_dialogue_spec(a: AppView) -> AppView {
    let b = AppView {
        list_state: ListSelection {
            selected: a.selected_index,
            offset: if a.selected_index is None { 0 } else { a.list_state.offset },
        },
        ..a
    };
    let c = close_and_select_first(b);
    AppView { input: InputView { step: InputStep::Name, ..c.input }, ..c }
}

/// What start-up does once it is known whether the Unity tool is there.
pub open spec fn start_spec(a: AppView, unity_found: bool) -> AppView {
    if unity_found {
        refresh_spec(AppView { unity_available: true, ..a })
    } else {
        show(a, DialogueView::Panic("UnityCLI not found, please ensure installation."@))
    }
}

/// A notice that has been shown long enough closes and the screen reloads.
pub open spec fn notice_expired_spec(a: AppView) -> AppView {
    if a.dialogue.current is TimedInfo {
        refresh_spec(show(a, DialogueView::Closed))
    } else {
        a
    }
}

impl App {

    /// Shows an empty progress dialogue and asks whether the user is logged in,
    /// unless that question is pending already.
    pub fn check_auth(&mut self)
        ensures
            final(self)@ == check_auth_spec(old(self)@),
    {
        if self.unity_available {
            self.set_dialogue(Dialogue::Info(String::new()));
            assert(self@.dialogue.current == DialogueView::Info(seq![]));
            if !self.tasks.check_auth {
                self.tasks.check_auth = true;
                self.push_effect(Effect::CheckAuth);
            }
        }
    }

    /// Shows an empty progress dialogue and starts logging in, unless a login
    /// is under way already.
    pub fn login(&mut self)
        ensures
            final(self)@ == login_spec(old(self)@),
    {
        if self.unity_available {
            self.set_dialogue(Dialogue::Info(String::new()));
            assert(self@.dialogue.current == DialogueView::Info(seq![]));
            if !self.tasks.login {
                self.tasks.login = true;
                self.push_effect(Effect::Login);
            }
        }
    }

    pub(crate) fn close_and_select_first(&mut self)
        ensures
            final(self)@ == close_and_select_first(old(self)@),
    {
        self.dialogue.close();
        self.list_state.select_first();
    }

    #[verifier::spinoff_prover]
    pub(crate) fn request_projects(&mut self)
        ensures
            final(self)@ == request_projects_spec(old(self)@),
    {
        if self.unity_available && !self.tasks.projects {
            self.tasks.projects = true;
            self.push_effect(Effect::ListProjects);
        }
    }

    #[verifier::spinoff_prover]
    pub(crate) fn request_editors(&mut self)
        ensures
            final(self)@ == request_editors_spec(old(self)@),
    {
        if self.unity_available && !self.tasks.all_editors {
            self.tasks.all_editors = true;
            self.push_effect(Effect::ListEditors);
        }
    }

    pub(crate) fn clear_project_lists(&mut self)
        ensures
            final(self)@ == (AppView { list_items: seq![], projects: seq![], ..old(self)@ }),
    {
        self.list_items.clear();
        self.projects.clear();
        assert(self@.list_items =~= seq![]);
        assert(self@.projects =~= seq![]);
    }

    pub(crate) fn clear_editor_list(&mut self)
        ensures
            final(self)@ == (AppView { list_items: seq![], all_editors: None, ..old(self)@ }),
    {
        self.list_items.clear();
        self.all_editors = None;
        assert(self@.list_items =~= seq![]);
    }

    /// Empties the project list, asks for the projects, checks the login, closes
    /// the dialogue and selects the first item.
    pub fn refresh_projects(&mut self)
        ensures
            final(self)@ == refresh_projects_spec(old(self)@),
    {
        self.clear_project_lists();
        self.request_projects();
        self.check_auth();
        self.close_and_select_first();
    }

    /// Empties the editor list, asks for every editor version, closes the
    /// dialogue and selects the first item.
    pub fn refresh_editors(&mut self)
        ensures
            final(self)@ == refresh_editors_spec(old(self)@),
    {
        self.clear_editor_list();
        self.request_editors();
        self.close_and_select_first();
    }

    /// Collapses any expanded project and reloads what the screen lists.
    pub fn refresh(&mut self)
        ensures
            final(self)@ == refresh_spec(old(self)@),
    {
        self.proj_expanded = false;
        match self.screen {
            Screen::ProjectList => self.refresh_projects(),
            Screen::EditorList => self.refresh_editors(),
            Screen::CommandList => {},
        }
    }

    pub(crate) fn clear_tasks(&mut self)
        ensures
            final(self)@ == clear_tasks_spec(old(self)@),
    {
        self.tasks.projects = false;
        self.tasks.installed_editors = false;
        self.tasks.templates = false;
        self.tasks.proj_open = false;
        self.tasks.proj_create = false;
        self.tasks.proj_delete = false;
    }

    pub(crate) fn reset_after_dialogue(&mut self)
        ensures
            final(self)@ == reset_after_dialogue_spec(old(self)@),
    {
        self.list_state.select(self.selected_index);
        self.close_and_select_first();
        self.input.step = InputStep::Name;
    }

    /// Start-up once the Unity tool has been looked for: with the tool, the
    /// screen loads; without it, a fatal dialogue says so.
    pub fn start(&mut self, unity_found: bool)
        ensures
            final(self)@ == start_spec(old(self)@, unity_found),
    {
        if unity_found {
            self.unity_available = true;
            self.refresh();
        } else {
            self.set_dialogue(Dialogue::Panic(String::from_str("UnityCLI not found, please ensure installation.")));
        }
    }

    /// A notice has been shown for its three seconds: it closes and the screen
    /// reloads.
    pub fn notice_expired(&mut self)
        ensures
            final(self)@ == notice_expired_spec(old(self)@),
    {
        if let Dialogue::TimedInfo(_) = self.dialogue.current {
            self.set_dialogue(Dialogue::Closed);
            self.refresh();
        }
    }
}

} // verus!
