//! The application state and how it reacts to keys, to background work that
//! finishes, and to the passing of time. Outside work (the Unity tool, the
//! clipboard, timers) is requested through `Effect`s queued in `effects`.

pub mod items;
pub mod reload;
pub mod wizard;
pub mod keys;
pub mod tasks;
pub mod laws;
pub mod bookkeeping;
pub mod declining;
pub mod behaviour;

use vstd::prelude::*;
use vstd::string::StringExecFns;

use crate::help::HelpState;
use crate::list::ListSelection;
use crate::model::{
    Dialogue, DialogueSelection, DialogueState, DialogueStateView, DialogueView, Effect, EffectView,
    InputHandler, InputStep, InputView, Project, ProjectView, Screen, Tasks, Template, no_tasks,
};
use crate::text::texts;

verus! {


/// The whole state of the application.
pub struct App {
    pub screen: Screen,
    pub list_state: ListSelection,
    pub selected_index: Option<usize>,
    pub input: InputHandler,
    pub dialogue: DialogueState,
    pub list_items: Vec<String>,
    pub list_items_buffer: Vec<String>,
    pub projects: Vec<Project>,
    pub all_editors: Option<Vec<(bool, String)>>,
    pub installed_editors: Option<Vec<String>>,
    pub prev_editor_count: usize,
    pub templates: Option<Vec<Template>>,
    pub username: String,
    pub open_after_creation: bool,
    pub timer: u64,
    pub tick_counter: u64,
    pub tasks: Tasks,
    pub declined_login: bool,
    pub show_help: bool,
    pub proj_expanded: bool,
    pub help_state: HelpState,
    /// Whether the Unity tool was found.
    pub unity_available: bool,
    /// Outside work requested and not yet handed out.
    pub effects: Vec<Effect>,
}

/// The application state seen through views.
pub struct AppView {
    pub screen: Screen,
    pub list_state: ListSelection,
    pub selected_index: Option<usize>,
    pub input: InputView,
    pub dialogue: DialogueStateView,
    pub list_items: Seq<Seq<char>>,
    pub list_items_buffer: Seq<Seq<char>>,
    pub projects: Seq<ProjectView>,
    pub all_editors: Option<Seq<(bool, Seq<char>)>>,
    pub installed_editors: Option<Seq<Seq<char>>>,
    pub prev_editor_count: usize,
    pub templates: Option<Seq<Seq<char>>>,
    pub username: Seq<char>,
    pub open_after_creation: bool,
    pub timer: u64,
    pub tick_counter: u64,
    pub tasks: Tasks,
    pub declined_login: bool,
    pub show_help: bool,
    pub proj_expanded: bool,
    pub help_state: HelpState,
    pub unity_available: bool,
    pub effects: Seq<EffectView>,
}

pub open spec fn projects_view(v: Seq<Project>) -> Seq<ProjectView> {
    v.map_values(|p: Project| p@)
}

pub open spec fn editors_view(v: Seq<(bool, String)>) -> Seq<(bool, Seq<char>)> {
    v.map_values(|e: (bool, String)| (e.0, e.1@))
}

pub open spec fn template_names(v: Seq<Template>) -> Seq<Seq<char>> {
    v.map_values(|t: Template| t.name@)
}

pub open spec fn effects_view(v: Seq<Effect>) -> Seq<EffectView> {
    v.map_values(|e: Effect| e@)
}

impl View for App {
    type V = AppView;

    open spec fn view(&self) -> AppView {
        AppView {
            screen: self.screen,
            list_state: self.list_state,
            selected_index: self.selected_index,
            input: self.input@,
            dialogue: self.dialogue@,
            list_items: texts(self.list_items@),
            list_items_buffer: texts(self.list_items_buffer@),
            projects: projects_view(self.projects@),
            all_editors: match self.all_editors {
                Some(v) => Some(editors_view(v@)),
                None => None,
            },
            installed_editors: match self.installed_editors {
                Some(v) => Some(texts(v@)),
                None => None,
            },
            prev_editor_count: self.prev_editor_count,
            templates: match self.templates {
                Some(v) => Some(template_names(v@)),
                None => None,
            },
            username: self.username@,
            open_after_creation: self.open_after_creation,
            timer: self.timer,
            tick_counter: self.tick_counter,
            tasks: self.tasks,
            declined_login: self.declined_login,
            show_help: self.show_help,
            proj_expanded: self.proj_expanded,
            help_state: self.help_state,
            unity_available: self.unity_available,
            effects: effects_view(self.effects@),
        }
    }
}

// ---------------------------------------------------------------------------
// What each step does, stated over views.
// ---------------------------------------------------------------------------

/// The state with `d` as the current dialogue.
pub open spec fn show(a: AppView, d: DialogueView) -> AppView {
    AppView { dialogue: DialogueStateView { current: d, ..a.dialogue }, ..a }
}

/// The state with `e` queued.
pub open spec fn request(a: AppView, e: EffectView) -> AppView {
    AppView { effects: a.effects.push(e), ..a }
}

/// The spinner frame shown at a given tick: it changes every eight ticks.
pub open spec fn spinner(tick: u64) -> Seq<char> {
    let i = (tick / 8) % 4;
    if i == 0 {
        "⠦"@
    } else if i == 1 {
        "⠖"@
    } else if i == 2 {
        "⠲"@
    } else {
        "⠴"@
    }
}

/// Shows a progress message behind the spinner.
pub open spec fn loading(a: AppView, message: Seq<char>) -> AppView {
    show(a, DialogueView::Info(spinner(a.tick_counter) + " "@ + message))
}

/// The state with the given project as the one the dialogue is about.
pub open spec fn with_project(a: AppView, p: Option<ProjectView>) -> AppView {
    AppView { dialogue: DialogueStateView { selected_project: p, ..a.dialogue }, ..a }
}

/// The state at the given wizard step.
pub open spec fn with_step(a: AppView, step: InputStep) -> AppView {
    AppView { input: InputView { step, ..a.input }, ..a }
}

/// The state with the field and the picked entry cleared.
pub open spec fn submitted(a: AppView) -> AppView {
    AppView { input: InputView { value: seq![], buff: seq![], cursor: 0, ..a.input }, ..a }
}

/// The state showing an error whose dismissal returns to `back`.
pub open spec fn show_error(a: AppView, back: DialogueView, message: Seq<char>) -> AppView {
    AppView { dialogue: DialogueStateView { return_to: back, current: DialogueView::Error(message), ..a.dialogue }, ..a }
}

/// The input field holding `t`, with the cursor at its end.
pub open spec fn with_text(i: InputView, t: Seq<char>) -> InputView {
    InputView { value: t, cursor: t.len() as usize, ..i }
}

/// The spinner goes round every thirty-two ticks.
pub proof fn lemma_spinner_period(tick: u64)
    requires
        tick + 32 <= u64::MAX,
    ensures
        spinner((tick + 32) as u64) == spinner(tick),
{
    assert(((tick + 32) as u64) / 8 == tick / 8 + 4);
}

impl App {
    /// The state at start-up: the project list, nothing loaded, the first item
    /// selected.
    pub fn new() -> (r: App)
        ensures
            r@ == (AppView {
                screen: Screen::ProjectList,
                list_state: ListSelection { selected: Some(0usize), offset: 0 },
                selected_index: None,
                input: InputView { value: seq![], buff: seq![], cursor: 0, step: InputStep::Name },
                dialogue: DialogueStateView {
                    current: DialogueView::Closed,
                    return_to: DialogueView::Closed,
                    selection: DialogueSelection::Unset,
                    selected_project: None,
                },
                list_items: seq![],
                list_items_buffer: seq![],
                projects: seq![],
                all_editors: None,
                installed_editors: None,
                prev_editor_count: 0,
                templates: None,
                username: seq![],
                open_after_creation: false,
                timer: 0,
                tick_counter: 0,
                tasks: no_tasks(),
                declined_login: false,
                show_help: false,
                proj_expanded: false,
                help_state: HelpState { selected: 0, scroll_offset: 0 },
                unity_available: false,
                effects: seq![],
            }),
    {
        let r = App {
            screen: Screen::ProjectList,
            list_state: ListSelection::new().with_selected(Some(0)),
            selected_index: None,
            input: InputHandler::new(),
            dialogue: DialogueState::new(),
            list_items: Vec::new(),
            list_items_buffer: Vec::new(),
            projects: Vec::new(),
            all_editors: None,
            installed_editors: None,
            prev_editor_count: 0,
            templates: None,
            tasks: Tasks::default(),
            username: String::new(),
            open_after_creation: false,
            timer: 0,
            tick_counter: 0,
            declined_login: false,
            proj_expanded: false,
            show_help: false,
            help_state: HelpState::new(),
            unity_available: false,
            effects: Vec::new(),
        };
        assert(r@.list_items =~= seq![]);
        assert(r@.list_items_buffer =~= seq![]);
        assert(r@.projects =~= seq![]);
        assert(r@.effects =~= seq![]);
        r
    }

    /// Hands out the outside work requested so far and forgets it.
    pub fn take_effects(&mut self) -> (r: Vec<Effect>)
        ensures
            effects_view(r@) == old(self)@.effects,
            final(self)@ == (AppView { effects: seq![], ..old(self)@ }),
    {
        let mut r: Vec<Effect> = Vec::new();
        std::mem::swap(&mut r, &mut self.effects);
        assert(self@.effects =~= seq![]);
        r
    }

    pub(crate) fn push_effect(&mut self, e: Effect)
        ensures
            final(self)@ == request(old(self)@, e@),
    {
        self.effects.push(e);
        assert(effects_view(self.effects@) =~= effects_view(old(self).effects@).push(e@));
    }

    pub(crate) fn set_dialogue(&mut self, d: Dialogue)
        ensures
            final(self)@ == show(old(self)@, d@),
    {
        self.dialogue.current = d;
    }

    /// Advances the frame counter, wrapping around.
    pub fn tick(&mut self)
        ensures
            final(self)@ == (AppView {
                tick_counter: if old(self).tick_counter == u64::MAX { 0 } else { (old(self).tick_counter + 1) as u64 },
                ..old(self)@
            }),
    {
        self.tick_counter = if self.tick_counter == u64::MAX { 0 } else { self.tick_counter + 1 };
    }

    /// Shows `message` as progress, behind a spinner frame chosen by the tick.
    pub fn update_loading(&mut self, message: &str)
        ensures
            final(self)@ == loading(old(self)@, message@),
    {
        let index = (self.tick_counter / 8) % 4;
        let frame: &str = if index == 0 {
            "⠦"
        } else if index == 1 {
            "⠖"
        } else if index == 2 {
            "⠲"
        } else {
            "⠴"
        };
        let mut text = String::from_str(frame);
        text.append(" ");
        text.append(message);
        self.set_dialogue(Dialogue::Info(text));
    }

    pub(crate) fn set_list_items(&mut self, v: Vec<String>)
        ensures
            final(self)@ == (AppView { list_items: texts(v@), ..old(self)@ }),
    {
        self.list_items = v;
    }

    pub(crate) fn set_buffer_items(&mut self, v: Vec<String>)
        ensures
            final(self)@ == (AppView { list_items_buffer: texts(v@), ..old(self)@ }),
    {
        self.list_items_buffer = v;
    }

    pub(crate) fn set_tasks(&mut self, t: Tasks)
        ensures
            final(self)@ == (AppView { tasks: t, ..old(self)@ }),
    {
        self.tasks = t;
    }

    pub(crate) fn set_project(&mut self, p: Option<Project>)
        ensures
            final(self)@ == with_project(old(self)@, crate::model::project_option_view(p)),
    {
        self.dialogue.selected_project = p;
    }

    pub(crate) fn show_error(&mut self, back: Dialogue, message: &str)
        ensures
            final(self)@ == show_error(old(self)@, back@, message@),
    {
        self.dialogue.return_to = back;
        self.dialogue.current = Dialogue::Error(String::from_str(message));
    }

    pub(crate) fn set_list_item(&mut self, index: usize, text: String)
        requires
            index < old(self).list_items@.len(),
        ensures
            final(self)@ == (AppView { list_items: old(self)@.list_items.update(index as int, text@), ..old(self)@ }),
    {
        self.list_items.set(index, text);
        assert(texts(self.list_items@) =~= texts(old(self).list_items@).update(index as int, text@));
    }
}

} // verus!
