//! The project creation wizard: its suggestions for paths, versions and
//! templates.

use vstd::prelude::*;
use vstd::string::StringExecFns;

use crate::app::{App, AppView};
use crate::app::{show_error, submitted, with_project, with_step};
use crate::app::{template_names, request, with_text};
use crate::list::ListSelection;
use crate::model::{
    Dialogue, DialogueSelection, DialogueStateView, DialogueView, Effect, EffectView, InputStep, InputView,
    Project, ProjectView, Tasks, Template,
};
use crate::fuzzy::{fuzzy_filter_sorted, fuzzy_filtered};
use crate::sort::{by_lowercase, sort_by_lowercase, sort_stable};
use crate::text::{
    after_last, chars_of, copy_texts, ends_with_char, find_last, last_index_of, slice_to, string_of,
    text_after_last, texts,
};

verus! {

/// Asks for the installed editors when they are not known and not being listed.
pub open spec fn request_installed_spec(a: AppView) -> AppView {
    if a.installed_editors is None && !a.tasks.installed_editors && a.unity_available {
        request(AppView { tasks: Tasks { installed_editors: true, ..a.tasks }, ..a }, EffectView::ListInstalledEditors)
    } else {
        a
    }
}

/// Filters the list by the typed text.
pub open spec fn filter_by_input(a: AppView) -> AppView {
    AppView { list_items: fuzzy_filtered(a.input.value, a.list_items), ..a }
}

/// Asks for the installed editors when they are not known and not being
/// listed, and filters the list by the typed text.
pub open spec fn version_suggestions_spec(a: AppView) -> AppView {
    filter_by_input(request_installed_spec(a))
}

/// A project with every field empty.
pub open spec fn empty_project() -> ProjectView {
    ProjectView { name: seq![], path: seq![], editor_version: seq![], template: seq![] }
}

/// Opens the creation wizard on a fresh project.
pub open spec fn open_create_dialogue_spec(a: AppView) -> AppView {
    let b = AppView {
        open_after_creation: false,
        selected_index: a.list_state.selected,
        list_state: ListSelection { selected: None, offset: 0 },
        dialogue: DialogueStateView {
            current: DialogueView::Input,
            selected_project: Some(empty_project()),
            selection: DialogueSelection::Accept,
            ..a.dialogue
        },
        input: InputView { step: InputStep::Name, ..a.input },
        installed_editors: None,
        templates: None,
        ..a
    };
    version_suggestions_spec(b)
}

/// The editor version of the project being created, or nothing.
pub open spec fn wizard_version(a: AppView) -> Seq<char> {
    match a.dialogue.selected_project {
        Some(p) => p.editor_version,
        None => seq![],
    }
}

/// Asks for the online templates of the chosen version, starting the timeout
/// clock, unless templates are known or being listed.
pub open spec fn template_suggestions_spec(a: AppView) -> AppView {
    if a.templates is None && !a.tasks.templates && a.unity_available {
        request(AppView { tasks: Tasks { templates: true, ..a.tasks }, timer: a.tick_counter, ..a },
            EffectView::ListTemplates(wizard_version(a)))
    } else {
        a
    }
}

/// Asks for the offline templates of the chosen version, unless templates are
/// known or being listed offline.
pub open spec fn local_template_suggestions_spec(a: AppView) -> AppView {
    if a.templates is None && !a.tasks.local_templates && a.unity_available {
        request(AppView { tasks: Tasks { local_templates: true, ..a.tasks }, ..a },
            EffectView::ListOfflineTemplates(wizard_version(a)))
    } else {
        a
    }
}

/// The template labels offered for the typed text.
pub open spec fn template_labels_spec(a: AppView) -> Seq<Seq<char>> {
    fuzzy_filtered(a.input.value, match a.templates { Some(t) => t, None => seq![] })
}

/// Whether a text ends with a slash.
pub open spec fn ends_with_slash(t: Seq<char>) -> bool {
    t.len() > 0 && t.last() == '/'
}

/// The directory whose entries the path step suggests, if it suggests any:
/// the root for an empty field, or the typed path when it ends with a slash.
pub open spec fn suggestion_dir_spec(a: AppView) -> Option<Seq<char>> {
    if a.dialogue.current is Input && a.input.step == InputStep::Path {
        if a.input.value.len() == 0 {
            Some("/"@)
        } else if ends_with_slash(a.input.value) {
            Some(a.input.value)
        } else {
            None
        }
    } else {
        None
    }
}

/// An empty path field becomes the root directory.
pub open spec fn root_if_empty(a: AppView) -> AppView {
    if a.input.value.len() == 0 { AppView { input: with_text(a.input, "/"@), ..a } } else { a }
}

/// The suggestions for a path: the sorted entries of the typed directory when
/// the path ends with a slash, else the current entries filtered by the text
/// after the last slash.
pub open spec fn load_path_suggestions(b: AppView, listing: Seq<Seq<char>>) -> AppView {
    if ends_with_slash(b.input.value) {
        let sorted = sort_stable(listing, by_lowercase());
        AppView { list_items: sorted, list_items_buffer: sorted, ..b }
    } else {
        AppView { list_items_buffer: fuzzy_filtered(text_after_last(b.input.value, '/'), b.list_items), ..b }
    }
}

/// A single suggestion is selected when nothing is.
pub open spec fn select_single(c: AppView) -> AppView {
    if c.list_state.selected is None && c.list_items_buffer.len() == 1 {
        AppView { list_state: ListSelection { selected: Some(0usize), ..c.list_state }, ..c }
    } else {
        c
    }
}

/// Path suggestions, given the entries of the typed directory.
pub open spec fn path_suggestions_spec(a: AppView, listing: Seq<Seq<char>>) -> AppView {
    select_single(load_path_suggestions(root_if_empty(a), listing))
}

/// Prepares the suggestions of the input dialogue before it is drawn;
/// `listing` holds the entries of the directory named by `suggestion_dir_spec`.
pub open spec fn prepare_input_lists_spec(a: AppView, listing: Seq<Seq<char>>) -> AppView {
    if a.dialogue.current is Input && a.input.step == InputStep::Path {
        path_suggestions_spec(a, listing)
    } else {
        a
    }
}

/// The selection after `append_path_item` first makes sure one exists.
pub open spec fn append_index(a: AppView) -> usize {
    match a.list_state.selected {
        Some(i) => i,
        None => 0usize,
    }
}

/// The part of the typed path kept when a suggestion is appended: everything
/// through the last slash, or the first character when there is no slash.
pub open spec fn path_prefix(t: Seq<char>) -> Seq<char> {
    match last_index_of(t, '/') {
        Some(p) => t.take(p + 1),
        None => t.take(1),
    }
}

/// Appends the highlighted suggestion and a slash to the directory part of the
/// typed path, then clears the selection and the list.
pub open spec fn append_path_item_spec(a: AppView) -> AppView {
    let b = if a.list_state.selected is None {
        AppView { list_state: ListSelection { selected: Some(0usize), ..a.list_state }, ..a }
    } else {
        a
    };
    let index = append_index(a);
    if index >= b.list_items_buffer.len() {
        b
    } else {
        let path = path_prefix(b.input.value) + b.list_items_buffer[index as int] + "/"@;
        AppView {
            input: with_text(b.input, path),
            list_state: ListSelection { selected: None, offset: 0 },
            list_items: seq![],
            ..b
        }
    }
}

/// Appending stays on character boundaries: where it cuts the typed path, the
/// path holds a slash, or starts with a one-byte character.
pub open spec fn append_defined(a: AppView) -> bool {
    append_index(a) < a.list_items_buffer.len() ==> {
        ||| a.input.value.contains('/')
        ||| a.input.value.len() > 0 && (a.input.value[0] as u32) < 0x80
    }
}

/// The project being created, changed by `f`, if there is one.
pub open spec fn changed_project(a: AppView, f: spec_fn(ProjectView) -> ProjectView) -> Option<ProjectView> {
    match a.dialogue.selected_project {
        Some(p) => Some(f(p)),
        None => None,
    }
}

/// One step of the creation wizard, with whether it went through: the name,
/// the path (refused when `listing`, the entries of the typed directory,
/// already holds the name), the version (refused when installed versions are
/// known and it is none of them), the template (refused when templates are
/// known, one is selected, and the picked entry names none of them).
pub open spec fn advance_spec(a: AppView, listing: Seq<Seq<char>>) -> (AppView, bool) {
    let value = a.input.value;
    match a.input.step {
        InputStep::Name => (
            with_step(with_project(a, changed_project(a, |p: ProjectView| ProjectView { name: value, ..p })), InputStep::Path),
            true,
        ),
        InputStep::Path => match a.dialogue.selected_project {
            Some(p) => if listing.contains(p.name) {
                (submitted(with_step(show_error(a, DialogueView::Input, "Project already exists at path!"@), InputStep::Name)), false)
            } else {
                (with_step(with_project(a, Some(ProjectView { path: value, ..p })), InputStep::Version), true)
            },
            None => (with_step(a, InputStep::Version), true),
        },
        InputStep::Version => {
            let refused = match a.installed_editors {
                Some(vs) => !vs.contains(value),
                None => false,
            };
            if refused {
                (show_error(a, a.dialogue.current, "Please select a valid version!"@), false)
            } else {
                (template_suggestions_spec(with_step(
                    with_project(a, changed_project(a, |p: ProjectView| ProjectView { editor_version: value, ..p })),
                    InputStep::Template)), true)
            }
        },
        InputStep::Template => {
            let refused = match a.templates {
                Some(ts) => a.list_state.selected is Some && !ts.contains(a.input.buff),
                None => false,
            };
            if refused {
                (a, false)
            } else {
                (with_step(with_project(a, changed_project(a, |p: ProjectView| ProjectView { template: a.input.buff, ..p })),
                    InputStep::Complete), true)
            }
        },
        InputStep::Complete => (a, false),
    }
}

/// Whether some template has the given name.
pub fn names_contain(ts: &Vec<Template>, name: &str) -> (r: bool)
    ensures
        r == template_names(ts@).contains(name@),
{
    let n = ts.len();
    for i in 0..n
        invariant
            n == ts@.len(),
            forall|k: int| 0 <= k < i ==> ts@[k].name@ != name@,
    {
        if crate::text::equal_text(ts[i].name.as_str(), name) {
            assert(template_names(ts@)[i as int] == name@);
            return true;
        }
    }
    assert forall|k: int| 0 <= k < template_names(ts@).len() implies template_names(ts@)[k] != name@ by {
        assert(template_names(ts@)[k] == ts@[k].name@);
    }
    false
}

impl App {

    #[verifier::spinoff_prover]
    pub(crate) fn refresh_version_suggestions(&mut self)
        ensures
            final(self)@ == version_suggestions_spec(old(self)@),
    {
        self.request_installed();
        self.filter_by_input();
    }

    pub(crate) fn request_installed(&mut self)
        ensures
            final(self)@ == request_installed_spec(old(self)@),
    {
        if self.installed_editors.is_none() && !self.tasks.installed_editors && self.unity_available {
            let t = Tasks { installed_editors: true, ..self.tasks };
            self.set_tasks(t);
            self.push_effect(Effect::ListInstalledEditors);
        }
    }

    pub(crate) fn filter_by_input(&mut self)
        ensures
            final(self)@ == filter_by_input(old(self)@),
    {
        let current = copy_texts(&self.list_items);
        let filtered = fuzzy_filter_sorted(self.input.value.as_str(), current);
        self.set_list_items(filtered);
    }

    #[verifier::spinoff_prover]
    pub(crate) fn open_create_dialogue(&mut self)
        ensures
            final(self)@ == open_create_dialogue_spec(old(self)@),
    {
        self.open_after_creation = false;
        self.selected_index = self.list_state.selected();
        self.list_state.select(None);
        self.dialogue.current = Dialogue::Input;
        self.dialogue.selected_project = Some(Project::empty());
        self.dialogue.selection = DialogueSelection::Accept;
        self.input.step = InputStep::Name;
        self.installed_editors = None;
        self.templates = None;
        proof {
            let p = self.dialogue.selected_project.unwrap()@;
            assert(p.name =~= seq![] && p.path =~= seq![] && p.editor_version =~= seq![] && p.template =~= seq![]);
        }
        self.refresh_version_suggestions()
    }

    pub(crate) fn wizard_version(&self) -> (r: String)
        ensures
            r@ == wizard_version(self@),
    {
        match &self.dialogue.selected_project {
            Some(p) => p.editor_version.clone(),
            None => String::new(),
        }
    }

    #[verifier::spinoff_prover]
    pub(crate) fn refresh_template_suggestions(&mut self)
        ensures
            final(self)@ == template_suggestions_spec(old(self)@),
    {
        if self.templates.is_none() && !self.tasks.templates && self.unity_available {
            let version = self.wizard_version();
            self.tasks.templates = true;
            self.timer = self.tick_counter;
            self.push_effect(Effect::ListTemplates(version));
        }
    }

    #[verifier::spinoff_prover]
    pub(crate) fn refresh_local_template_suggestions(&mut self)
        ensures
            final(self)@ == local_template_suggestions_spec(old(self)@),
    {
        if self.templates.is_none() && !self.tasks.local_templates && self.unity_available {
            let version = self.wizard_version();
            self.tasks.local_templates = true;
            self.push_effect(Effect::ListOfflineTemplates(version));
        }
    }

    /// The labels of the known templates that match the typed text.
    pub fn template_labels(&self) -> (r: Vec<String>)
        ensures
            texts(r@) == template_labels_spec(self@),
    {
        let mut labels: Vec<String> = Vec::new();
        if let Some(ts) = &self.templates {
            let n = ts.len();
            for i in 0..n
                invariant
                    n == ts@.len(),
                    labels@.len() == i,
                    texts(labels@) == template_names(ts@).take(i as int),
            {
                let label = ts[i].list_label();
                let ghost before = labels@;
                labels.push(label);
                assert forall|k: int| 0 <= k < i + 1 implies texts(labels@)[k] == template_names(ts@).take(i + 1)[k] by {
                    if k < i {
                        assert(labels@[k] == before[k]);
                        assert(texts(before)[k] == template_names(ts@).take(i as int)[k]);
                    }
                }
                assert(texts(labels@) =~= template_names(ts@).take(i + 1));
            }
            assert(template_names(ts@).take(n as int) =~= template_names(ts@));
        } else {
            assert(texts(labels@) =~= seq![]);
        }
        fuzzy_filter_sorted(self.input.value.as_str(), labels)
    }

    /// The directory whose entries should be read for the path suggestions.
    pub fn suggestion_dir(&self) -> (r: Option<String>)
        ensures
            r matches Some(d) ==> suggestion_dir_spec(self@) == Some(d@),
            r is None ==> suggestion_dir_spec(self@) is None,
    {
        if self.dialogue.current.is_input() && matches!(self.input.step, InputStep::Path) {
            if self.input.value.as_str().is_empty() {
                Some(String::from_str("/"))
            } else if ends_with_char(self.input.value.as_str(), '/') {
                Some(self.input.value.clone())
            } else {
                None
            }
        } else {
            None
        }
    }

    /// Prepares the suggestions of the input dialogue before it is drawn, given
    /// the entries of the directory named by `suggestion_dir` (empty when it
    /// names none).
    #[verifier::spinoff_prover]
    pub fn prepare_input_lists(&mut self, listing: Vec<String>)
        ensures
            final(self)@ == prepare_input_lists_spec(old(self)@, texts(listing@)),
    {
        if !self.dialogue.current.is_input() {
            return;
        }
        match self.input.step {
            InputStep::Path => self.refresh_path_suggestions(listing),
            _ => {},
        }
    }

    #[verifier::spinoff_prover]
    pub(crate) fn refresh_path_suggestions(&mut self, listing: Vec<String>)
        ensures
            final(self)@ == path_suggestions_spec(old(self)@, texts(listing@)),
    {
        self.root_if_empty();
        self.load_path_suggestions(listing);
        self.select_single();
    }

    pub(crate) fn root_if_empty(&mut self)
        ensures
            final(self)@ == root_if_empty(old(self)@),
    {
        if self.input.value.as_str().is_empty() {
            self.input.set_text("/");
        }
    }

    pub(crate) fn load_path_suggestions(&mut self, listing: Vec<String>)
        ensures
            final(self)@ == load_path_suggestions(old(self)@, texts(listing@)),
    {
        if ends_with_char(self.input.value.as_str(), '/') {
            let sorted = sort_by_lowercase(listing);
            let copy = copy_texts(&sorted);
            self.set_buffer_items(copy);
            self.set_list_items(sorted);
        } else {
            let query = after_last(self.input.value.as_str(), '/');
            let current = copy_texts(&self.list_items);
            let filtered = fuzzy_filter_sorted(query.as_str(), current);
            self.set_buffer_items(filtered);
        }
    }

    pub(crate) fn select_single(&mut self)
        ensures
            final(self)@ == select_single(old(self)@),
    {
        if self.list_state.selected().is_none() && self.list_items_buffer.len() == 1 {
            self.list_state.select_first();
        }
    }

    /// Appends the highlighted suggestion and a slash to the directory part of
    /// the typed path.
    #[verifier::spinoff_prover]
    pub fn append_path_item(&mut self)
        requires
            append_defined(old(self)@),
        ensures
            final(self)@ == append_path_item_spec(old(self)@),
    {
        if self.list_state.selected().is_none() {
            self.list_state.select_first();
        }
        let index = match self.list_state.selected() {
            Some(i) => i,
            None => return,
        };
        if index >= self.list_items_buffer.len() {
            return;
        }
        assert(self@.list_items_buffer[index as int] == self.list_items_buffer@[index as int]@);
        let cs = chars_of(self.input.value.as_str());
        proof {
            crate::text::lemma_last_index_of(cs@, '/');
        }
        let prefix_len: usize = match find_last(&cs, '/') {
            Some(p) => {
                assert(p < cs.len());
                p + 1
            },
            None => 1,
        };
        let prefix = slice_to(&cs, prefix_len);
        let mut path = string_of(prefix.as_slice());
        path.append(self.list_items_buffer[index].as_str());
        path.append("/");
        self.input.set_text(path.as_str());
        self.list_state.select(None);
        self.list_items.clear();
        assert(self@.list_items =~= seq![]);
    }

    /// The project being created with one field replaced: 0 the name, 1 the
    /// path, 2 the editor version, 3 the template.
    pub(crate) fn change_project(&mut self, field: u8, text: String)
        requires
            field < 4,
        ensures
            final(self)@ == with_project(old(self)@, changed_project(old(self)@, |p: ProjectView|
                if field == 0 { ProjectView { name: text@, ..p } }
                else if field == 1 { ProjectView { path: text@, ..p } }
                else if field == 2 { ProjectView { editor_version: text@, ..p } }
                else { ProjectView { template: text@, ..p } })),
    {
        let changed = match &self.dialogue.selected_project {
            Some(p) => {
                let q = p.duplicate();
                Some(if field == 0 {
                    Project { name: text, ..q }
                } else if field == 1 {
                    Project { path: text, ..q }
                } else if field == 2 {
                    Project { editor_version: text, ..q }
                } else {
                    Project { template: text, ..q }
                })
            },
            None => None,
        };
        self.set_project(changed);
    }

    pub(crate) fn templates_include(&self, name: &str) -> (r: bool)
        requires
            self.templates is Some,
        ensures
            r == self@.templates.unwrap().contains(name@),
    {
        match &self.templates {
            Some(ts) => names_contain(ts, name),
            None => false,
        }
    }

    /// Takes the wizard one step further when the entered text allows it.
    #[verifier::spinoff_prover]
    pub(crate) fn advance_create_step(&mut self, listing: &Vec<String>) -> (r: bool)
        ensures
            (final(self)@, r) == advance_spec(old(self)@, texts(listing@)),
    {
        match self.input.step {
            InputStep::Name => {
                let name = self.input.value.clone();
                self.change_project(0, name);
                self.set_step(InputStep::Path);
                true
            },
            InputStep::Path => {
                let exists = match &self.dialogue.selected_project {
                    Some(p) => crate::text::contains_text(listing, p.name.as_str()),
                    None => false,
                };
                if exists {
                    self.show_error(Dialogue::Input, "Project already exists at path!");
                    self.set_step(InputStep::Name);
                    self.input.submit_message();
                    return false;
                }
                let path = self.input.value.clone();
                self.change_project(1, path);
                self.set_step(InputStep::Version);
                true
            },
            InputStep::Version => {
                let refused = match &self.installed_editors {
                    Some(vs) => !crate::text::contains_text(vs, self.input.value.as_str()),
                    None => false,
                };
                if refused {
                    let back = self.dialogue.current.duplicate();
                    self.show_error(back, "Please select a valid version!");
                    return false;
                }
                let version = self.input.value.clone();
                self.change_project(2, version);
                self.set_step(InputStep::Template);
                self.refresh_template_suggestions();
                true
            },
            InputStep::Template => {
                let refused = self.templates.is_some() && self.list_state.selected().is_some()
                    && !self.templates_include(self.input.buff.as_str());
                if refused {
                    return false;
                }
                let template = self.input.buff.clone();
                self.change_project(3, template);
                self.set_step(InputStep::Complete);
                true
            },
            InputStep::Complete => false,
        }
    }

    pub(crate) fn set_step(&mut self, step: InputStep)
        ensures
            final(self)@ == with_step(old(self)@, step),
    {
        self.input.step = step;
    }
}

} // verus!
