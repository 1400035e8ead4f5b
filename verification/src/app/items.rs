//! What the list screens do with the selected item: moving the selection,
//! expanding projects, opening, deleting, installing and creating.

use vstd::prelude::*;
use vstd::string::StringExecFns;

use crate::app::{App, AppView};
use crate::app::{template_names, show, request, with_text};
use crate::list::ListSelection;
use crate::model::{
    Dialogue, DialogueSelection, DialogueStateView, DialogueView, Effect, EffectView, InputStep, InputView,
    Screen, Tasks, Template,
};
use crate::list::{next_index, previous_index};
use crate::text::{trim_str, trimmed};

verus! {

/// Shows the list entry of the selected project as its name again.
pub open spec fn collapse_spec(a: AppView) -> AppView {
    if a.list_items.len() == 0 {
        a
    } else {
        match a.list_state.selected {
            None => a,
            Some(i) => if i < a.projects.len() {
                AppView { list_items: a.list_items.update(i as int, a.projects[i as int].name), proj_expanded: false, ..a }
            } else {
                a
            },
        }
    }
}

/// Collapsing stays within the list: a selected project has a list entry.
pub open spec fn collapse_defined(a: AppView) -> bool {
    a.list_items.len() > 0 ==> match a.list_state.selected {
        Some(i) => i < a.projects.len() ==> i < a.list_items.len(),
        None => true,
    }
}

/// Expands the selected project into its details, or collapses it when it is
/// expanded already (its entry holds a line break).
pub open spec fn toggle_details_spec(a: AppView) -> AppView {
    if a.list_items.len() == 0 {
        a
    } else {
        match a.list_state.selected {
            None => a,
            Some(i) => if a.list_items[i as int].contains('\n') {
                collapse_spec(a)
            } else if i < a.projects.len() {
                AppView {
                    list_items: a.list_items.update(i as int, crate::model::details_of(a.projects[i as int])),
                    proj_expanded: true,
                    ..a
                }
            } else {
                a
            },
        }
    }
}

/// Toggling stays within the list: the selected index names a list entry.
pub open spec fn toggle_defined(a: AppView) -> bool {
    a.list_items.len() > 0 ==> match a.list_state.selected {
        Some(i) => i < a.list_items.len(),
        None => true,
    }
}

/// Asks to open the selected project, unless a project is being opened.
pub open spec fn open_selected_spec(a: AppView) -> AppView {
    if a.list_items.len() == 0 {
        a
    } else {
        match a.list_state.selected {
            None => a,
            Some(i) => if i < a.projects.len() && !a.tasks.proj_open && a.unity_available {
                request(AppView { tasks: Tasks { proj_open: true, ..a.tasks }, ..a },
                    EffectView::OpenProject(a.projects[i as int]))
            } else {
                a
            },
        }
    }
}

/// Asks to delete the project the dialogue is about, unless a deletion is
/// under way.
pub open spec fn delete_selected_spec(a: AppView, with_dir: bool) -> AppView {
    match a.dialogue.selected_project {
        None => a,
        Some(p) => if !a.tasks.proj_delete && a.unity_available {
            let b = show(a, DialogueView::Info(seq![]));
            request(AppView { tasks: Tasks { proj_delete: true, ..b.tasks }, ..b }, EffectView::DeleteProject(p, with_dir))
        } else {
            a
        },
    }
}

/// Asks to confirm deleting the selected project, remembering the selection
/// and clearing it.
pub open spec fn open_delete_dialogue_spec(a: AppView, with_dir: bool) -> AppView {
    if a.list_items.len() == 0 {
        a
    } else {
        let b = match a.list_state.selected {
            Some(i) => if i < a.projects.len() {
                AppView {
                    dialogue: DialogueStateView {
                        current: DialogueView::DeleteConfirm { with_dir },
                        selected_project: Some(a.projects[i as int]),
                        selection: DialogueSelection::Cancel,
                        ..a.dialogue
                    },
                    ..a
                }
            } else {
                a
            },
            None => a,
        };
        AppView { selected_index: b.list_state.selected, list_state: ListSelection { selected: None, offset: 0 }, ..b }
    }
}

/// Asks to install (or uninstall) an editor version and to restart the timer,
/// unless that work is under way already.
pub open spec fn install_spec(a: AppView, version: Seq<char>, install: bool) -> AppView {
    if !a.unity_available {
        a
    } else {
        let b = show(a, DialogueView::Info(seq![]));
        if install {
            if b.tasks.editor_install {
                b
            } else {
                request(request(AppView { tasks: Tasks { editor_install: true, ..b.tasks }, ..b },
                    EffectView::RestartTimer), EffectView::InstallEditor(version))
            }
        } else {
            if b.tasks.editor_uninstall {
                b
            } else {
                request(request(AppView { tasks: Tasks { editor_uninstall: true, ..b.tasks }, ..b },
                    EffectView::RestartTimer), EffectView::UninstallEditor(version))
            }
        }
    }
}

/// Asks to create the project put together by the wizard, unless a creation
/// is under way.
pub open spec fn finish_create_spec(a: AppView) -> AppView {
    match a.dialogue.selected_project {
        Some(p) => if !a.tasks.proj_create && a.unity_available {
            request(AppView { tasks: Tasks { proj_create: true, ..a.tasks }, ..a }, EffectView::CreateProject(p))
        } else {
            a
        },
        None => a,
    }
}

/// Whether moving the selection collapses the selected project first: on the
/// project list with no dialogue, when the move stays within the list.
pub open spec fn move_collapses(a: AppView, next: bool) -> bool {
    match a.list_state.selected {
        Some(index) => a.screen == Screen::ProjectList && a.dialogue.current is Closed
            && (if next { index < a.list_items.len() - 1 } else { index > 0 }),
        None => false,
    }
}

/// Collapses the selected project when the move will leave it.
pub open spec fn collapse_before_move(a: AppView, next: bool) -> AppView {
    if move_collapses(a, next) { collapse_spec(a) } else { a }
}

/// Moves the selection down or up.
pub open spec fn step_selection(b: AppView, next: bool) -> AppView {
    let sel = if next { next_index(b.list_state.selected) } else { previous_index(b.list_state.selected) };
    AppView { list_state: ListSelection { selected: Some(sel), ..b.list_state }, ..b }
}

/// Moves the list selection, collapsing the selected project first when
/// needed; in the version and template steps the entry reached is copied
/// (trimmed) into the field or the picked entry.
pub open spec fn move_selection_spec(a: AppView, next: bool) -> AppView {
    if a.list_items.len() == 0 {
        a
    } else {
        copy_entry_spec(step_selection(collapse_before_move(a, next), next))
    }
}

/// Copies the list entry (or template) now selected into the field (or the
/// picked entry), in the version and template steps.
pub open spec fn copy_entry_spec(c: AppView) -> AppView {
    let sel = c.list_state.selected.unwrap();
    match c.input.step {
        InputStep::Version => if sel < c.list_items.len() {
            AppView { input: with_text(c.input, trimmed(c.list_items[sel as int])), ..c }
        } else {
            c
        },
        InputStep::Template => match c.templates {
            Some(ts) => if sel < ts.len() {
                AppView { input: InputView { buff: trimmed(ts[sel as int]), ..c.input }, ..c }
            } else {
                c
            },
            None => c,
        },
        _ => c,
    }
}

/// Moving stays within the list where it collapses a project.
pub open spec fn move_defined(a: AppView, next: bool) -> bool {
    a.list_items.len() > 0 && move_collapses(a, next) ==> collapse_defined(a)
}

impl App {

    /// Shows the selected project's entry as its name again.
    pub fn collapse_project(&mut self)
        requires
            collapse_defined(old(self)@),
        ensures
            final(self)@ == collapse_spec(old(self)@),
    {
        if self.list_items.len() == 0 {
            return;
        }
        let index = match self.list_state.selected() {
            Some(i) => i,
            None => return,
        };
        if index < self.projects.len() {
            let name = self.projects[index].name.clone();
            self.set_list_item(index, name);
            self.proj_expanded = false;
        }
    }

    /// Expands the selected project into its details, or collapses it.
    pub fn toggle_project_details(&mut self)
        requires
            toggle_defined(old(self)@),
        ensures
            final(self)@ == toggle_details_spec(old(self)@),
    {
        if self.list_items.len() == 0 {
            return;
        }
        let index = match self.list_state.selected() {
            Some(i) => i,
            None => return,
        };
        assert(self@.list_items[index as int] == self.list_items@[index as int]@);
        if crate::text::contains_char(self.list_items[index].as_str(), '\n') {
            self.collapse_project();
            return;
        }
        if index < self.projects.len() {
            let details = self.projects[index].details_text();
            self.set_list_item(index, details);
            self.proj_expanded = true;
        }
    }

    pub(crate) fn open_selected_project(&mut self)
        ensures
            final(self)@ == open_selected_spec(old(self)@),
    {
        if self.list_items.len() == 0 {
            return;
        }
        let index = match self.list_state.selected() {
            Some(i) => i,
            None => return,
        };
        if index >= self.projects.len() {
            return;
        }
        if !self.tasks.proj_open && self.unity_available {
            let project = self.projects[index].duplicate();
            self.tasks.proj_open = true;
            self.push_effect(Effect::OpenProject(project));
        }
    }

    pub(crate) fn delete_selected(&mut self, with_dir: bool)
        ensures
            final(self)@ == delete_selected_spec(old(self)@, with_dir),
    {
        let project = match &self.dialogue.selected_project {
            Some(p) => p.duplicate(),
            None => return,
        };
        if !self.tasks.proj_delete && self.unity_available {
            self.set_dialogue(Dialogue::Info(String::new()));
            assert(self@.dialogue.current == DialogueView::Info(seq![]));
            self.tasks.proj_delete = true;
            self.push_effect(Effect::DeleteProject(project, with_dir));
        }
    }

    pub(crate) fn open_delete_dialogue(&mut self, with_dir: bool)
        ensures
            final(self)@ == open_delete_dialogue_spec(old(self)@, with_dir),
    {
        if self.list_items.len() == 0 {
            return;
        }
        if let Some(index) = self.list_state.selected() {
            if index < self.projects.len() {
                let project = self.projects[index].duplicate();
                self.dialogue.current = Dialogue::DeleteConfirm { with_dir };
                self.dialogue.selected_project = Some(project);
                self.dialogue.selection = DialogueSelection::Cancel;
            }
        }
        self.selected_index = self.list_state.selected();
        self.list_state.select(None);
    }

    pub(crate) fn install_editor(&mut self, version: String)
        ensures
            final(self)@ == install_spec(old(self)@, version@, true),
    {
        if self.unity_available {
            self.set_dialogue(Dialogue::Info(String::new()));
            assert(self@.dialogue.current == DialogueView::Info(seq![]));
            if !self.tasks.editor_install {
                self.tasks.editor_install = true;
                self.push_effect(Effect::RestartTimer);
                self.push_effect(Effect::InstallEditor(version));
            }
        }
    }

    pub(crate) fn uninstall_editor(&mut self, version: String)
        ensures
            final(self)@ == install_spec(old(self)@, version@, false),
    {
        if self.unity_available {
            self.set_dialogue(Dialogue::Info(String::new()));
            assert(self@.dialogue.current == DialogueView::Info(seq![]));
            if !self.tasks.editor_uninstall {
                self.tasks.editor_uninstall = true;
                self.push_effect(Effect::RestartTimer);
                self.push_effect(Effect::UninstallEditor(version));
            }
        }
    }

    pub(crate) fn finish_create(&mut self)
        ensures
            final(self)@ == finish_create_spec(old(self)@),
    {
        let project = match &self.dialogue.selected_project {
            Some(p) => p.duplicate(),
            None => return,
        };
        if !self.tasks.proj_create && self.unity_available {
            self.tasks.proj_create = true;
            self.push_effect(Effect::CreateProject(project));
        }
    }

    /// Puts text read from the clipboard into the input field.
    pub fn paste_text(&mut self, text: &str)
        ensures
            final(self)@ == (AppView {
                input: InputView { value: text@, cursor: text@.len() as usize, ..old(self)@.input },
                ..old(self)@
            }),
    {
        self.input.set_text(text);
    }

    /// Moves the list selection down (`next`) or up.
    #[verifier::spinoff_prover]
    pub fn move_selection(&mut self, next: bool)
        requires
            move_defined(old(self)@, next),
        ensures
            final(self)@ == move_selection_spec(old(self)@, next),
    {
        if self.list_items.len() == 0 {
            return;
        }
        self.collapse_before_move(next);
        self.step_selection(next);
        self.copy_selected_entry();
    }

    pub(crate) fn collapse_before_move(&mut self, next: bool)
        requires
            old(self)@.list_items.len() > 0,
            move_defined(old(self)@, next),
        ensures
            final(self)@ == collapse_before_move(old(self)@, next),
    {
        if let Some(index) = self.list_state.selected() {
            if matches!(self.screen, Screen::ProjectList) {
                let should_collapse = self.dialogue.current.is_closed() && if next {
                    index < self.list_items.len() - 1
                } else {
                    index > 0
                };
                if should_collapse {
                    self.collapse_project();
                }
            }
        }
    }

    pub(crate) fn step_selection(&mut self, next: bool)
        ensures
            final(self)@ == step_selection(old(self)@, next),
    {
        if next {
            self.list_state.select_next();
        } else {
            self.list_state.select_previous();
        }
    }

    #[verifier::spinoff_prover]
    pub(crate) fn copy_selected_entry(&mut self)
        requires
            old(self).list_state.selected is Some,
        ensures
            final(self)@ == copy_entry_spec(old(self)@),
    {
        let sel = match self.list_state.selected() {
            Some(i) => i,
            None => return,
        };
        match self.input.step {
            InputStep::Version => {
                if sel < self.list_items.len() {
                    assert(self@.list_items[sel as int] == self.list_items@[sel as int]@);
                    let value = String::from_str(trim_str(self.list_items[sel].as_str()));
                    self.input.set_text(value.as_str());
                }
            },
            InputStep::Template => {
                if let Some(ts) = &self.templates {
                    if sel < ts.len() {
                        assert(template_names(ts@)[sel as int] == ts@[sel as int].name@);
                        let value = String::from_str(trim_str(ts[sel].name.as_str()));
                        self.input.set_buffer(value.as_str());
                    }
                }
            },
            _ => {},
        }
    }
}

} // verus!
