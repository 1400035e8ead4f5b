//! The values the state machine works on: screens, dialogues, the text input
//! of the creation wizard, projects, templates, keys, pending background work
//! and the requests for outside work that the state machine makes.

use vstd::prelude::*;
use vstd::string::StringExecFns;

use crate::text::{chars_of, slice_from, slice_to, string_of};

verus! {

/// The screen shown.
#[derive(Clone, Copy, Debug, PartialEq, Eq, Structural)]
pub enum Screen {
    ProjectList,
    EditorList,
    CommandList,
}

/// The step of the project creation wizard.
#[derive(Clone, Copy, Debug, PartialEq, Eq, Structural)]
pub enum InputStep {
    Name,
    Path,
    Version,
    Template,
    Complete,
}

/// The focused button of a dialogue.
#[derive(Clone, Copy, Debug, PartialEq, Eq, Structural)]
pub enum DialogueSelection {
    Unset,
    Accept,
    Cancel,
}

/// What a confirmation dialogue asks to do.
#[derive(Clone, Copy, Debug, PartialEq, Eq, Structural)]
pub enum Action {
    Login,
}

/// The dialogue shown over the screen.
#[derive(Debug)]
pub enum Dialogue {
    Closed,
    Input,
    Info(String),
    /// A notice that closes by itself after a while.
    TimedInfo(String),
    Error(String),
    Confirm(String),
    ConfirmAction(String, Action),
    DeleteConfirm { with_dir: bool },
    Panic(String),
}

/// A dialogue with its texts seen as character sequences.
pub enum DialogueView {
    Closed,
    Input,
    Info(Seq<char>),
    TimedInfo(Seq<char>),
    Error(Seq<char>),
    Confirm(Seq<char>),
    ConfirmAction(Seq<char>, Action),
    DeleteConfirm { with_dir: bool },
    Panic(Seq<char>),
}

impl View for Dialogue {
    type V = DialogueView;

    open spec fn view(&self) -> DialogueView {
        match self {
            Dialogue::Closed => DialogueView::Closed,
            Dialogue::Input => DialogueView::Input,
            Dialogue::Info(s) => DialogueView::Info(s@),
            Dialogue::TimedInfo(s) => DialogueView::TimedInfo(s@),
            Dialogue::Error(s) => DialogueView::Error(s@),
            Dialogue::Confirm(s) => DialogueView::Confirm(s@),
            Dialogue::ConfirmAction(s, a) => DialogueView::ConfirmAction(s@, *a),
            Dialogue::DeleteConfirm { with_dir } => DialogueView::DeleteConfirm { with_dir: *with_dir },
            Dialogue::Panic(s) => DialogueView::Panic(s@),
        }
    }
}

impl Dialogue {
    /// A copy of this dialogue.
    pub fn duplicate(&self) -> (r: Dialogue)
        ensures
            r == *self,
    {
        match self {
            Dialogue::Closed => Dialogue::Closed,
            Dialogue::Input => Dialogue::Input,
            Dialogue::Info(s) => Dialogue::Info(s.clone()),
            Dialogue::TimedInfo(s) => Dialogue::TimedInfo(s.clone()),
            Dialogue::Error(s) => Dialogue::Error(s.clone()),
            Dialogue::Confirm(s) => Dialogue::Confirm(s.clone()),
            Dialogue::ConfirmAction(s, a) => Dialogue::ConfirmAction(s.clone(), *a),
            Dialogue::DeleteConfirm { with_dir } => Dialogue::DeleteConfirm { with_dir: *with_dir },
            Dialogue::Panic(s) => Dialogue::Panic(s.clone()),
        }
    }

    /// Whether no dialogue is shown.
    pub fn is_closed(&self) -> (r: bool)
        ensures
            r == (*self is Closed),
    {
        match self {
            Dialogue::Closed => true,
            _ => false,
        }
    }

    /// Whether this is the input dialogue.
    pub fn is_input(&self) -> (r: bool)
        ensures
            r == (*self is Input),
    {
        match self {
            Dialogue::Input => true,
            _ => false,
        }
    }
}

/// A Unity project.
#[derive(Debug)]
pub struct Project {
    pub name: String,
    pub path: String,
    pub editor_version: String,
    pub template: String,
}

/// A project with its texts seen as character sequences.
pub struct ProjectView {
    pub name: Seq<char>,
    pub path: Seq<char>,
    pub editor_version: Seq<char>,
    pub template: Seq<char>,
}

impl View for Project {
    type V = ProjectView;

    open spec fn view(&self) -> ProjectView {
        ProjectView {
            name: self.name@,
            path: self.path@,
            editor_version: self.editor_version@,
            template: self.template@,
        }
    }
}

/// The text shown for an expanded project: its name, then its path and its
/// editor version on lines of their own.
pub open spec fn details_of(p: ProjectView) -> Seq<char> {
    p.name + "\n  Path: "@ + p.path + "\n  Editor: "@ + p.editor_version
}

impl Project {
    /// A project with every field empty.
    pub fn empty() -> (r: Project)
        ensures
            r@.name.len() == 0,
            r@.path.len() == 0,
            r@.editor_version.len() == 0,
            r@.template.len() == 0,
    {
        Project {
            name: String::new(),
            path: String::new(),
            editor_version: String::new(),
            template: String::new(),
        }
    }

    /// A copy of this project.
    pub fn duplicate(&self) -> (r: Project)
        ensures
            r == *self,
    {
        Project {
            name: self.name.clone(),
            path: self.path.clone(),
            editor_version: self.editor_version.clone(),
            template: self.template.clone(),
        }
    }

    /// The text shown for the project when it is expanded.
    pub fn details_text(&self) -> (r: String)
        ensures
            r@ == details_of(self@),
    {
        let mut r = self.name.clone();
        r.append("\n  Path: ");
        r.append(self.path.as_str());
        r.append("\n  Editor: ");
        r.append(self.editor_version.as_str());
        r
    }
}

/// A project template offered by the Unity tool.
#[derive(Debug)]
pub struct Template {
    pub name: String,
}

impl Template {
    /// The label of the template in a list.
    pub fn list_label(&self) -> (r: String)
        ensures
            r@ == self.name@,
    {
        self.name.clone()
    }
}

/// The text field of the creation wizard.
#[derive(Debug)]
pub struct InputHandler {
    /// The text typed.
    pub value: String,
    /// The entry picked from a list, for steps that pick rather than type.
    pub buff: String,
    /// The character position of the cursor in `value`.
    pub cursor: usize,
    pub step: InputStep,
}

/// The text field seen through its character sequences.
pub struct InputView {
    pub value: Seq<char>,
    pub buff: Seq<char>,
    pub cursor: usize,
    pub step: InputStep,
}

impl View for InputHandler {
    type V = InputView;

    open spec fn view(&self) -> InputView {
        InputView { value: self.value@, buff: self.buff@, cursor: self.cursor, step: self.step }
    }
}

/// The cursor position, kept within the text.
pub open spec fn clamped_cursor(v: InputView) -> int {
    if v.cursor <= v.value.len() { v.cursor as int } else { v.value.len() as int }
}

/// The field with `c` typed at the cursor.
pub open spec fn typed(i: InputView, c: char) -> InputView {
    let k = clamped_cursor(i);
    InputView { value: i.value.take(k).push(c) + i.value.skip(k), cursor: (k + 1) as usize, ..i }
}

/// The field with the character before the cursor deleted.
pub open spec fn erased(i: InputView) -> InputView {
    let k = clamped_cursor(i);
    if k > 0 {
        InputView { value: i.value.take(k - 1) + i.value.skip(k), cursor: (k - 1) as usize, ..i }
    } else {
        InputView { cursor: 0, ..i }
    }
}

/// The field with the cursor one character to the left or right.
pub open spec fn cursor_moved(i: InputView, right: bool) -> InputView {
    let k = clamped_cursor(i);
    if right {
        InputView { cursor: (if k < i.value.len() { k + 1 } else { k }) as usize, ..i }
    } else {
        InputView { cursor: (if k > 0 { k - 1 } else { 0 }) as usize, ..i }
    }
}

impl InputHandler {
    /// An empty field at the first step.
    pub fn new() -> (r: InputHandler)
        ensures
            r@ == (InputView { value: seq![], buff: seq![], cursor: 0, step: InputStep::Name }),
    {
        let r = InputHandler { value: String::new(), buff: String::new(), cursor: 0, step: InputStep::Name };
        assert(r@.value =~= seq![]);
        r
    }

    fn cursor_in_text(&self, len: usize) -> (r: usize)
        requires
            len == self.value@.len(),
        ensures
            r == clamped_cursor(self@),
    {
        if self.cursor <= len { self.cursor } else { len }
    }

    /// Inserts a character at the cursor and moves the cursor past it.
    pub fn enter_char(&mut self, c: char)
        requires
            old(self).value@.len() < usize::MAX,
        ensures
            final(self)@ == typed(old(self)@, c),
    {
        let cs = chars_of(self.value.as_str());
        let k = self.cursor_in_text(cs.len());
        let mut v = slice_to(&cs, k);
        v.push(c);
        let rest = slice_from(&cs, k);
        let mut i: usize = 0;
        while i < rest.len()
            invariant
                i <= rest@.len(),
                v@ == cs@.take(k as int).push(c) + rest@.take(i as int),
            decreases rest@.len() - i,
        {
            v.push(rest[i]);
            assert(rest@.take(i + 1) =~= rest@.take(i as int).push(rest@[i as int]));
            i = i + 1;
        }
        assert(rest@.take(rest@.len() as int) =~= rest@);
        self.value = string_of(v.as_slice());
        self.cursor = k + 1;
    }

    /// Deletes the character before the cursor, if any.
    pub fn delete_char(&mut self)
        ensures
            final(self)@ == erased(old(self)@),
    {
        let cs = chars_of(self.value.as_str());
        let k = self.cursor_in_text(cs.len());
        if k == 0 {
            self.cursor = 0;
            return;
        }
        let mut v = slice_to(&cs, k - 1);
        let rest = slice_from(&cs, k);
        let mut i: usize = 0;
        while i < rest.len()
            invariant
                i <= rest@.len(),
                v@ == cs@.take(k - 1) + rest@.take(i as int),
            decreases rest@.len() - i,
        {
            v.push(rest[i]);
            assert(rest@.take(i + 1) =~= rest@.take(i as int).push(rest@[i as int]));
            i = i + 1;
        }
        assert(rest@.take(rest@.len() as int) =~= rest@);
        self.value = string_of(v.as_slice());
        self.cursor = k - 1;
    }

    /// Moves the cursor one character to the left, stopping at the start.
    pub fn move_cursor_left(&mut self)
        ensures
            final(self)@ == cursor_moved(old(self)@, false),
    {
        let cs = chars_of(self.value.as_str());
        let k = self.cursor_in_text(cs.len());
        self.cursor = if k > 0 { k - 1 } else { 0 };
    }

    /// Moves the cursor one character to the right, stopping at the end.
    pub fn move_cursor_right(&mut self)
        ensures
            final(self)@ == cursor_moved(old(self)@, true),
    {
        let cs = chars_of(self.value.as_str());
        let k = self.cursor_in_text(cs.len());
        self.cursor = if k < cs.len() { k + 1 } else { k };
    }

    /// Replaces the text and puts the cursor at its end.
    pub fn set_text(&mut self, text: &str)
        ensures
            final(self)@ == (InputView { value: text@, cursor: text@.len() as usize, ..old(self)@ }),
    {
        let cs = chars_of(text);
        self.value = String::from_str(text);
        self.cursor = cs.len();
    }

    /// Replaces the picked entry.
    pub fn set_buffer(&mut self, text: &str)
        ensures
            final(self)@ == (InputView { buff: text@, ..old(self)@ }),
    {
        self.buff = String::from_str(text);
    }

    /// Clears the text and the picked entry once a step is submitted.
    pub fn submit_message(&mut self)
        ensures
            final(self)@ == (InputView { value: seq![], buff: seq![], cursor: 0, ..old(self)@ }),
    {
        self.value = String::new();
        self.buff = String::new();
        self.cursor = 0;
        assert(self@.value =~= seq![]);
    }
}

/// The dialogue shown, the dialogue to come back to after an error, the
/// focused button, and the project the dialogue is about.
#[derive(Debug)]
pub struct DialogueState {
    pub current: Dialogue,
    pub return_to: Dialogue,
    pub selection: DialogueSelection,
    pub selected_project: Option<Project>,
}

/// The dialogue state seen through views.
pub struct DialogueStateView {
    pub current: DialogueView,
    pub return_to: DialogueView,
    pub selection: DialogueSelection,
    pub selected_project: Option<ProjectView>,
}

pub open spec fn project_option_view(p: Option<Project>) -> Option<ProjectView> {
    match p {
        Some(p) => Some(p@),
        None => None,
    }
}

impl View for DialogueState {
    type V = DialogueStateView;

    open spec fn view(&self) -> DialogueStateView {
        DialogueStateView {
            current: self.current@,
            return_to: self.return_to@,
            selection: self.selection,
            selected_project: project_option_view(self.selected_project),
        }
    }
}

impl DialogueState {
    /// No dialogue, nothing to return to, no button focused, no project.
    pub fn new() -> (r: DialogueState)
        ensures
            r@ == (DialogueStateView {
                current: DialogueView::Closed,
                return_to: DialogueView::Closed,
                selection: DialogueSelection::Unset,
                selected_project: None,
            }),
    {
        DialogueState {
            current: Dialogue::Closed,
            return_to: Dialogue::Closed,
            selection: DialogueSelection::Unset,
            selected_project: None,
        }
    }

    /// Closes the dialogue: nothing shown, nothing to return to, no button
    /// focused; the project it was about is kept.
    pub fn close(&mut self)
        ensures
            final(self)@ == (DialogueStateView {
                current: DialogueView::Closed,
                return_to: DialogueView::Closed,
                selection: DialogueSelection::Unset,
                ..old(self)@
            }),
    {
        self.current = Dialogue::Closed;
        self.return_to = Dialogue::Closed;
        self.selection = DialogueSelection::Unset;
    }
}


/// Which kinds of background work are under way.
#[derive(Clone, Copy, Debug, PartialEq, Eq, Structural)]
pub struct Tasks {
    pub projects: bool,
    pub all_editors: bool,
    pub installed_editors: bool,
    pub editor_install: bool,
    pub editor_uninstall: bool,
    pub templates: bool,
    pub local_templates: bool,
    pub proj_create: bool,
    pub proj_open: bool,
    pub proj_delete: bool,
    pub check_auth: bool,
    pub login: bool,
}

/// No background work under way.
pub open spec fn no_tasks() -> Tasks {
    Tasks {
        projects: false,
        all_editors: false,
        installed_editors: false,
        editor_install: false,
        editor_uninstall: false,
        templates: false,
        local_templates: false,
        proj_create: false,
        proj_open: false,
        proj_delete: false,
        check_auth: false,
        login: false,
    }
}

impl Default for Tasks {
    fn default() -> (r: Tasks)
        ensures
            r == no_tasks(),
    {
        Tasks {
            projects: false,
            all_editors: false,
            installed_editors: false,
            editor_install: false,
            editor_uninstall: false,
            templates: false,
            local_templates: false,
            proj_create: false,
            proj_open: false,
            proj_delete: false,
            check_auth: false,
            login: false,
        }
    }
}

/// Outside work that the state machine asks for; whoever runs it reports back
/// when it is done.
#[derive(Debug)]
pub enum Effect {
    /// List the projects known to the Unity tool.
    ListProjects,
    /// List every editor version, installed or not.
    ListEditors,
    /// List the installed editor versions.
    ListInstalledEditors,
    /// List the online templates for an editor version.
    ListTemplates(String),
    /// List the templates available offline for an editor version.
    ListOfflineTemplates(String),
    CreateProject(Project),
    OpenProject(Project),
    /// Delete a project, and its directory too when the flag is set.
    DeleteProject(Project, bool),
    InstallEditor(String),
    UninstallEditor(String),
    /// Ask whether the user is logged in.
    CheckAuth,
    Login,
    /// Start measuring the time an editor installation takes.
    RestartTimer,
    /// Close the notice just shown after three seconds.
    ArmNotice,
    /// Read the clipboard and hand its text to the input field.
    PasteClipboard,
}

/// A request for outside work, seen through views.
pub enum EffectView {
    ListProjects,
    ListEditors,
    ListInstalledEditors,
    ListTemplates(Seq<char>),
    ListOfflineTemplates(Seq<char>),
    CreateProject(ProjectView),
    OpenProject(ProjectView),
    DeleteProject(ProjectView, bool),
    InstallEditor(Seq<char>),
    UninstallEditor(Seq<char>),
    CheckAuth,
    Login,
    RestartTimer,
    ArmNotice,
    PasteClipboard,
}

impl View for Effect {
    type V = EffectView;

    open spec fn view(&self) -> EffectView {
        match self {
            Effect::ListProjects => EffectView::ListProjects,
            Effect::ListEditors => EffectView::ListEditors,
            Effect::ListInstalledEditors => EffectView::ListInstalledEditors,
            Effect::ListTemplates(v) => EffectView::ListTemplates(v@),
            Effect::ListOfflineTemplates(v) => EffectView::ListOfflineTemplates(v@),
            Effect::CreateProject(p) => EffectView::CreateProject(p@),
            Effect::OpenProject(p) => EffectView::OpenProject(p@),
            Effect::DeleteProject(p, d) => EffectView::DeleteProject(p@, *d),
            Effect::InstallEditor(v) => EffectView::InstallEditor(v@),
            Effect::UninstallEditor(v) => EffectView::UninstallEditor(v@),
            Effect::CheckAuth => EffectView::CheckAuth,
            Effect::Login => EffectView::Login,
            Effect::RestartTimer => EffectView::RestartTimer,
            Effect::ArmNotice => EffectView::ArmNotice,
            Effect::PasteClipboard => EffectView::PasteClipboard,
        }
    }
}

/// The code of a key press.
#[derive(Clone, Copy, Debug, PartialEq, Eq, Structural)]
pub enum KeyCode {
    Char(char),
    Up,
    Down,
    Left,
    Right,
    Enter,
    Esc,
    Tab,
    Backspace,
    Other,
}

/// A key press with the modifiers held.
#[derive(Clone, Copy, Debug, PartialEq, Eq, Structural)]
pub struct Key {
    pub code: KeyCode,
    pub ctrl: bool,
    pub shift: bool,
    pub meta: bool,
}


/// Typing a character and then deleting it leaves the text as it was, with
/// the cursor where it was (within the text).
pub proof fn lemma_type_then_erase(i: InputView, c: char)
    requires
        i.value.len() < usize::MAX,
    ensures
        erased(typed(i, c)) == (InputView { cursor: clamped_cursor(i) as usize, ..i }),
{
    let k = clamped_cursor(i);
    let t = typed(i, c);
    assert(clamped_cursor(t) == k + 1);
    assert(t.value.take(k) =~= i.value.take(k));
    assert(t.value.skip(k + 1) =~= i.value.skip(k));
    assert(i.value.take(k) + i.value.skip(k) =~= i.value);
}

} // verus!
