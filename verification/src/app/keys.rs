//! What a key press does, depending on the screen and the dialogue shown, and
//! what confirming a dialogue does.

use vstd::prelude::*;

use crate::app::{App, AppView};
use crate::app::{request, show, show_error, submitted};
use crate::app::items::{
    collapse_defined, collapse_spec, delete_selected_spec, finish_create_spec, install_spec, move_defined,
    move_selection_spec, open_delete_dialogue_spec, open_selected_spec, toggle_defined, toggle_details_spec,
};
use crate::app::reload::{clear_tasks_spec, login_spec, refresh_spec, reset_after_dialogue_spec};
use crate::app::wizard::{advance_spec, append_defined, append_path_item_spec, open_create_dialogue_spec};
use crate::help::{help_entry_total, HelpState};
use crate::list::ListSelection;
use crate::model::{
    cursor_moved, erased, typed, Dialogue, DialogueSelection, DialogueStateView, DialogueView, Effect,
    EffectView, InputStep, Key, KeyCode, Screen,
};
use crate::text::texts;

verus! {

/// Dismissing an error: back to the dialogue it interrupted, or else a fresh
/// start of the screen with the listing work forgotten.
pub open spec fn dismiss_error_spec(a: AppView) -> AppView {
    if !(a.dialogue.return_to is Closed) {
        show(a, a.dialogue.return_to)
    } else {
        refresh_spec(submitted(reset_after_dialogue_spec(clear_tasks_spec(a))))
    }
}

/// Leaving the wizard; the listing work is forgotten unless an error was
/// being returned from.
pub open spec fn cancel_input_spec(a: AppView) -> AppView {
    let b = if a.dialogue.return_to is Closed { clear_tasks_spec(a) } else { a };
    refresh_spec(submitted(reset_after_dialogue_spec(b)))
}

/// After a wizard step went through: the field is cleared, the selection
/// too, and a complete project is sent for creation.
pub open spec fn after_step_spec(b: AppView) -> AppView {
    let c = AppView { list_state: ListSelection { selected: None, offset: 0 }, ..submitted(b) };
    if c.input.step == InputStep::Complete { finish_create_spec(c) } else { c }
}

/// Confirming the wizard's input: cancel, refuse an empty field (or an empty
/// pick at the template step), or take a step.
#[verifier::opaque]
pub open spec fn submit_input_spec(a: AppView, listing: Seq<Seq<char>>) -> AppView {
    if a.dialogue.selection == DialogueSelection::Cancel {
        cancel_input_spec(a)
    } else if a.input.value.len() == 0 && a.input.step != InputStep::Template {
        show_error(a, a.dialogue.current, "No input!"@)
    } else if a.input.buff.len() == 0 && a.input.step == InputStep::Template {
        show_error(a, a.dialogue.current, "No selection!"@)
    } else {
        let (b, ok) = advance_spec(a, listing);
        if ok { after_step_spec(b) } else { b }
    }
}

/// Answering the login question: yes logs in, no is remembered.
pub open spec fn confirm_login_spec(a: AppView) -> AppView {
    if a.dialogue.selection == DialogueSelection::Accept {
        login_spec(a)
    } else if a.dialogue.selection == DialogueSelection::Cancel {
        reset_after_dialogue_spec(AppView { declined_login: true, ..a })
    } else {
        a
    }
}

/// Confirming the dialogue shown with the focused button.
#[verifier::opaque]
pub open spec fn execute_spec(a: AppView, listing: Seq<Seq<char>>) -> AppView {
    match a.dialogue.current {
        DialogueView::DeleteConfirm { with_dir } => if a.dialogue.selection == DialogueSelection::Accept {
            delete_selected_spec(a, with_dir)
        } else {
            a
        },
        DialogueView::Error(_) => dismiss_error_spec(a),
        DialogueView::Input => submit_input_spec(a, listing),
        DialogueView::TimedInfo(_) => reset_after_dialogue_spec(a),
        DialogueView::Confirm(_) => refresh_spec(reset_after_dialogue_spec(a)),
        DialogueView::ConfirmAction(_, _) => confirm_login_spec(a),
        _ => a,
    }
}

pub open spec fn is_char(key: Key, c: char) -> bool {
    key.code == KeyCode::Char(c)
}

/// Moves down: `j`, the down arrow, or Ctrl-n.
pub open spec fn is_down(key: Key) -> bool {
    is_char(key, 'j') || key.code == KeyCode::Down || (is_char(key, 'n') && key.ctrl)
}

/// Moves up: `k`, the up arrow, or Ctrl-p.
pub open spec fn is_up(key: Key) -> bool {
    is_char(key, 'k') || key.code == KeyCode::Up || (is_char(key, 'p') && key.ctrl)
}

/// The state with a different screen, reloaded.
pub open spec fn switch_screen_spec(a: AppView, screen: Screen) -> AppView {
    refresh_spec(AppView { screen, ..a })
}

/// A key on the project list with no dialogue; the flag says whether to quit.
#[verifier::opaque]
pub open spec fn main_key_spec(a: AppView, key: Key) -> (AppView, bool) {
    if is_down(key) {
        (move_selection_spec(a, true), false)
    } else if is_up(key) {
        (move_selection_spec(a, false), false)
    } else if key.code == KeyCode::Enter {
        (toggle_details_spec(a), false)
    } else if (is_char(key, 'D') || is_char(key, 'd')) && key.shift {
        (open_delete_dialogue_spec(a, true), false)
    } else if is_char(key, 'd') {
        (open_delete_dialogue_spec(a, false), false)
    } else if is_char(key, 'o') {
        (open_selected_spec(a), false)
    } else if is_char(key, 'c') {
        (open_create_dialogue_spec(a), false)
    } else if is_char(key, 'r') {
        (refresh_spec(a), false)
    } else if is_char(key, 'e') {
        (switch_screen_spec(a, Screen::EditorList), false)
    } else if key.code == KeyCode::Esc {
        (collapse_spec(a), false)
    } else {
        (a, is_char(key, 'q'))
    }
}

/// The editor version selected on the editor screen, with whether it is installed.
pub open spec fn selected_editor(a: AppView) -> Option<(bool, Seq<char>)> {
    match (a.list_state.selected, a.all_editors) {
        (Some(i), Some(eds)) => if i < eds.len() { Some(eds[i as int]) } else { None },
        _ => None,
    }
}

/// A key on the editor screen; the flag says whether to quit.
#[verifier::opaque]
pub open spec fn editor_key_spec(a: AppView, key: Key, listing: Seq<Seq<char>>) -> (AppView, bool) {
    if is_down(key) {
        (move_selection_spec(a, true), false)
    } else if is_up(key) {
        (move_selection_spec(a, false), false)
    } else if is_char(key, 'i') {
        (match selected_editor(a) {
            Some((installed, version)) => if !installed { install_spec(a, version, true) } else { a },
            None => a,
        }, false)
    } else if is_char(key, 'd') {
        (match selected_editor(a) {
            Some((installed, version)) => if installed { install_spec(a, version, false) } else { a },
            None => a,
        }, false)
    } else if key.code == KeyCode::Esc {
        (switch_screen_spec(a, Screen::ProjectList), false)
    } else if key.code == KeyCode::Enter && a.dialogue.selection != DialogueSelection::Unset {
        (execute_spec(a, listing), false)
    } else {
        (a, is_char(key, 'q'))
    }
}

/// The state with the focused button changed.
pub open spec fn focus(a: AppView, s: DialogueSelection) -> AppView {
    AppView { dialogue: DialogueStateView { selection: s, ..a.dialogue }, ..a }
}

/// A key in the wizard's input dialogue.
#[verifier::opaque]
pub open spec fn input_key_spec(a: AppView, key: Key, listing: Seq<Seq<char>>) -> AppView {
    if key.code == KeyCode::Enter {
        execute_spec(a, listing)
    } else if key.code == KeyCode::Tab && a.input.step == InputStep::Path {
        append_path_item_spec(a)
    } else if key.code is Char && !key.ctrl {
        AppView { input: typed(a.input, key.code->Char_0), ..a }
    } else if key.code == KeyCode::Backspace {
        AppView { input: erased(a.input), ..a }
    } else if key.code == KeyCode::Left {
        AppView { input: cursor_moved(a.input, false), ..a }
    } else if key.code == KeyCode::Right {
        AppView { input: cursor_moved(a.input, true), ..a }
    } else if is_char(key, 'n') && key.ctrl {
        move_selection_spec(a, true)
    } else if is_char(key, 'p') && key.ctrl {
        move_selection_spec(a, false)
    } else if is_char(key, 'v') && (key.ctrl || key.meta) {
        request(a, EffectView::PasteClipboard)
    } else if key.code == KeyCode::Esc {
        execute_spec(focus(a, DialogueSelection::Cancel), listing)
    } else {
        a
    }
}

/// A key in a dialogue that asks for a choice; the flag says whether to quit.
#[verifier::opaque]
pub open spec fn dialogue_key_spec(a: AppView, key: Key, listing: Seq<Seq<char>>) -> (AppView, bool) {
    if is_char(key, 'l') || key.code == KeyCode::Right {
        (focus(a, DialogueSelection::Cancel), false)
    } else if is_char(key, 'h') || key.code == KeyCode::Left {
        (focus(a, DialogueSelection::Accept), false)
    } else if key.code == KeyCode::Esc {
        (execute_spec(focus(a, DialogueSelection::Cancel), listing), false)
    } else if key.code == KeyCode::Enter && a.dialogue.selection != DialogueSelection::Unset {
        (execute_spec(a, listing), false)
    } else {
        (a, is_char(key, 'q'))
    }
}

/// A key while the help menu is open; the flag says whether to quit.
#[verifier::opaque]
pub open spec fn help_key_spec(a: AppView, key: Key) -> (AppView, bool) {
    let total = help_entry_total() as int;
    let sel = a.help_state.selected as int;
    if is_char(key, 'j') || key.code == KeyCode::Down {
        (AppView { help_state: HelpState { selected: ((sel + 1) % total) as usize, ..a.help_state }, ..a }, false)
    } else if is_char(key, 'k') || key.code == KeyCode::Up {
        (AppView { help_state: HelpState { selected: ((sel + total - 1) % total) as usize, ..a.help_state }, ..a }, false)
    } else if is_char(key, '?') || key.code == KeyCode::Esc {
        (AppView { show_help: false, ..a }, false)
    } else {
        (a, is_char(key, 'q'))
    }
}

/// Dismissing a notice with any key: it closes, and the screen reloads unless
/// an error was being returned from.
pub open spec fn dismiss_notice_spec(a: AppView) -> AppView {
    let b = show(a, DialogueView::Closed);
    if b.dialogue.return_to is Closed { refresh_spec(b) } else { b }
}

/// A key on the project list screen, by the dialogue shown.
#[verifier::opaque]
pub open spec fn project_list_key_spec(a: AppView, key: Key, listing: Seq<Seq<char>>) -> (AppView, bool) {
    match a.dialogue.current {
        DialogueView::Closed => main_key_spec(a, key),
        DialogueView::Input => (input_key_spec(a, key, listing), false),
        DialogueView::Info(_) => dialogue_key_spec(
            if is_char(key, 'o') { AppView { open_after_creation: !a.open_after_creation, ..a } } else { a },
            key, listing),
        DialogueView::TimedInfo(_) => (dismiss_notice_spec(a), is_char(key, 'q')),
        DialogueView::Panic(_) => (a, is_char(key, 'q')),
        _ => dialogue_key_spec(a, key, listing),
    }
}

/// A key on the editor screen, by the dialogue shown.
#[verifier::opaque]
pub open spec fn editor_screen_key_spec(a: AppView, key: Key, listing: Seq<Seq<char>>) -> (AppView, bool) {
    match a.dialogue.current {
        DialogueView::TimedInfo(_) => (dismiss_notice_spec(a), is_char(key, 'q')),
        _ => editor_key_spec(a, key, listing),
    }
}

/// What a key press does; the flag says whether to quit.
pub open spec fn handle_key_spec(a: AppView, key: Key, listing: Seq<Seq<char>>) -> (AppView, bool) {
    if a.show_help {
        help_key_spec(a, key)
    } else if is_char(key, '?') {
        (AppView { show_help: true, ..a }, false)
    } else {
        match a.screen {
            Screen::ProjectList => project_list_key_spec(a, key, listing),
            Screen::EditorList => editor_screen_key_spec(a, key, listing),
            Screen::CommandList => (a, false),
        }
    }
}

/// Keys on the project list stay within the list.
pub open spec fn main_key_defined(a: AppView, key: Key) -> bool {
    if is_down(key) {
        move_defined(a, true)
    } else if is_up(key) {
        move_defined(a, false)
    } else if key.code == KeyCode::Enter {
        toggle_defined(a)
    } else if key.code == KeyCode::Esc {
        collapse_defined(a)
    } else {
        true
    }
}

/// Keys on the editor screen stay within the list.
pub open spec fn editor_key_defined(a: AppView, key: Key) -> bool {
    if is_down(key) {
        move_defined(a, true)
    } else if is_up(key) {
        move_defined(a, false)
    } else {
        true
    }
}

/// Keys in the wizard stay within the field, the list and the path.
pub open spec fn input_key_defined(a: AppView, key: Key) -> bool {
    if key.code == KeyCode::Enter {
        true
    } else if key.code == KeyCode::Tab && a.input.step == InputStep::Path {
        append_defined(a)
    } else if key.code is Char && !key.ctrl {
        a.input.value.len() < usize::MAX
    } else if is_char(key, 'n') && key.ctrl {
        move_defined(a, true)
    } else if is_char(key, 'p') && key.ctrl {
        move_defined(a, false)
    } else {
        true
    }
}

/// The keys the application handles without leaving its lists, its text
/// field, or the range of `usize`.
pub open spec fn key_defined(a: AppView, key: Key) -> bool {
    if a.show_help {
        if is_char(key, 'j') || key.code == KeyCode::Down {
            a.help_state.selected + 1 <= usize::MAX
        } else if is_char(key, 'k') || key.code == KeyCode::Up {
            a.help_state.selected + help_entry_total() <= usize::MAX
        } else {
            true
        }
    } else if is_char(key, '?') {
        true
    } else {
        match a.screen {
            Screen::ProjectList => match a.dialogue.current {
                DialogueView::Closed => main_key_defined(a, key),
                DialogueView::Input => input_key_defined(a, key),
                _ => true,
            },
            Screen::EditorList => match a.dialogue.current {
                DialogueView::TimedInfo(_) => true,
                _ => editor_key_defined(a, key),
            },
            Screen::CommandList => true,
        }
    }
}


/// The shape of the dialogue shown, without its texts.
#[derive(Clone, Copy, PartialEq, Eq, Structural)]
enum Shown {
    Closed,
    Input,
    Info,
    TimedInfo,
    Error,
    Confirm,
    ConfirmAction,
    DeleteConfirm(bool),
    Panic,
}

spec fn shape(d: DialogueView) -> Shown {
    match d {
        DialogueView::Closed => Shown::Closed,
        DialogueView::Input => Shown::Input,
        DialogueView::Info(_) => Shown::Info,
        DialogueView::TimedInfo(_) => Shown::TimedInfo,
        DialogueView::Error(_) => Shown::Error,
        DialogueView::Confirm(_) => Shown::Confirm,
        DialogueView::ConfirmAction(_, _) => Shown::ConfirmAction,
        DialogueView::DeleteConfirm { with_dir } => Shown::DeleteConfirm(with_dir),
        DialogueView::Panic(_) => Shown::Panic,
    }
}

fn shape_of(d: &Dialogue) -> (r: Shown)
    ensures
        r == shape(d@),
{
    match d {
        Dialogue::Closed => Shown::Closed,
        Dialogue::Input => Shown::Input,
        Dialogue::Info(_) => Shown::Info,
        Dialogue::TimedInfo(_) => Shown::TimedInfo,
        Dialogue::Error(_) => Shown::Error,
        Dialogue::Confirm(_) => Shown::Confirm,
        Dialogue::ConfirmAction(_, _) => Shown::ConfirmAction,
        Dialogue::DeleteConfirm { with_dir } => Shown::DeleteConfirm(*with_dir),
        Dialogue::Panic(_) => Shown::Panic,
    }
}

fn key_is_char(key: Key, c: char) -> (r: bool)
    ensures
        r == is_char(key, c),
{
    match key.code {
        KeyCode::Char(d) => d == c,
        _ => false,
    }
}

fn key_is_down(key: Key) -> (r: bool)
    ensures
        r == is_down(key),
{
    key_is_char(key, 'j') || matches!(key.code, KeyCode::Down) || (key_is_char(key, 'n') && key.ctrl)
}

fn key_is_up(key: Key) -> (r: bool)
    ensures
        r == is_up(key),
{
    key_is_char(key, 'k') || matches!(key.code, KeyCode::Up) || (key_is_char(key, 'p') && key.ctrl)
}

impl App {
    /// Confirms the dialogue shown with the focused button; `listing` holds
    /// the entries of the directory named by `entered_dir`.
    #[verifier::spinoff_prover]
    pub fn execute_selection(&mut self, listing: &Vec<String>)
        ensures
            final(self)@ == execute_spec(old(self)@, texts(listing@)),
    {
        proof {
            reveal(execute_spec);
        }
        match shape_of(&self.dialogue.current) {
            Shown::DeleteConfirm(with_dir) => {
                if self.dialogue.selection == DialogueSelection::Accept {
                    self.delete_selected(with_dir);
                }
            },
            Shown::Error => self.dismiss_error(),
            Shown::Input => self.submit_input(listing),
            Shown::TimedInfo => self.reset_after_dialogue(),
            Shown::Confirm => {
                self.reset_after_dialogue();
                self.refresh();
            },
            Shown::ConfirmAction => self.confirm_login(),
            _ => {},
        }
    }

    pub(crate) fn dismiss_error(&mut self)
        ensures
            final(self)@ == dismiss_error_spec(old(self)@),
    {
        if !self.dialogue.return_to.is_closed() {
            let back = self.dialogue.return_to.duplicate();
            self.set_dialogue(back);
            return;
        }
        self.clear_tasks();
        self.reset_after_dialogue();
        self.input.submit_message();
        self.refresh();
    }

    pub(crate) fn cancel_input(&mut self)
        ensures
            final(self)@ == cancel_input_spec(old(self)@),
    {
        if self.dialogue.return_to.is_closed() {
            self.clear_tasks();
        }
        self.reset_after_dialogue();
        self.input.submit_message();
        self.refresh();
    }

    pub(crate) fn after_step(&mut self)
        ensures
            final(self)@ == after_step_spec(old(self)@),
    {
        self.input.submit_message();
        self.list_state.select(None);
        if matches!(self.input.step, InputStep::Complete) {
            self.finish_create();
        }
    }

    #[verifier::spinoff_prover]
    pub(crate) fn submit_input(&mut self, listing: &Vec<String>)
        ensures
            final(self)@ == submit_input_spec(old(self)@, texts(listing@)),
    {
        proof {
            reveal(submit_input_spec);
        }
        if self.dialogue.selection == DialogueSelection::Cancel {
            self.cancel_input();
            return;
        }
        let at_template = matches!(self.input.step, InputStep::Template);
        if self.input.value.as_str().is_empty() && !at_template {
            let back = self.dialogue.current.duplicate();
            self.show_error(back, "No input!");
            return;
        }
        if self.input.buff.as_str().is_empty() && at_template {
            let back = self.dialogue.current.duplicate();
            self.show_error(back, "No selection!");
            return;
        }
        if self.advance_create_step(listing) {
            self.after_step();
        }
    }

    pub(crate) fn confirm_login(&mut self)
        ensures
            final(self)@ == confirm_login_spec(old(self)@),
    {
        if self.dialogue.selection == DialogueSelection::Accept {
            self.login();
        } else if self.dialogue.selection == DialogueSelection::Cancel {
            self.declined_login = true;
            self.reset_after_dialogue();
        }
    }

    pub(crate) fn switch_screen(&mut self, screen: Screen)
        ensures
            final(self)@ == switch_screen_spec(old(self)@, screen),
    {
        self.screen = screen;
        self.refresh();
    }

    #[verifier::spinoff_prover]
    pub(crate) fn handle_main_key(&mut self, key: Key) -> (quit: bool)
        requires
            main_key_defined(old(self)@, key),
        ensures
            (final(self)@, quit) == main_key_spec(old(self)@, key),
    {
        proof {
            reveal(main_key_spec);
        }
        if key_is_down(key) {
            self.move_selection(true);
        } else if key_is_up(key) {
            self.move_selection(false);
        } else if matches!(key.code, KeyCode::Enter) {
            self.toggle_project_details();
        } else if (key_is_char(key, 'D') || key_is_char(key, 'd')) && key.shift {
            self.open_delete_dialogue(true);
        } else if key_is_char(key, 'd') {
            self.open_delete_dialogue(false);
        } else if key_is_char(key, 'o') {
            self.open_selected_project();
        } else if key_is_char(key, 'c') {
            self.open_create_dialogue();
        } else if key_is_char(key, 'r') {
            self.refresh();
        } else if key_is_char(key, 'e') {
            self.switch_screen(Screen::EditorList);
        } else if matches!(key.code, KeyCode::Esc) {
            self.collapse_project();
        } else {
            return key_is_char(key, 'q');
        }
        false
    }

    pub(crate) fn selected_editor(&self) -> (r: Option<(bool, String)>)
        ensures
            match r {
                Some((installed, version)) => selected_editor(self@) == Some((installed, version@)),
                None => selected_editor(self@) is None,
            },
    {
        match (self.list_state.selected(), &self.all_editors) {
            (Some(i), Some(eds)) => {
                if i < eds.len() {
                    assert(crate::app::editors_view(eds@)[i as int] == (eds@[i as int].0, eds@[i as int].1@));
                    Some((eds[i].0, eds[i].1.clone()))
                } else {
                    None
                }
            },
            _ => None,
        }
    }

    #[verifier::spinoff_prover]
    pub(crate) fn handle_editor_list_key(&mut self, key: Key, listing: &Vec<String>) -> (quit: bool)
        requires
            editor_key_defined(old(self)@, key),
        ensures
            (final(self)@, quit) == editor_key_spec(old(self)@, key, texts(listing@)),
    {
        proof {
            reveal(editor_key_spec);
        }
        if key_is_down(key) {
            self.move_selection(true);
        } else if key_is_up(key) {
            self.move_selection(false);
        } else if key_is_char(key, 'i') {
            if let Some((installed, version)) = self.selected_editor() {
                if !installed {
                    self.install_editor(version);
                }
            }
        } else if key_is_char(key, 'd') {
            if let Some((installed, version)) = self.selected_editor() {
                if installed {
                    self.uninstall_editor(version);
                }
            }
        } else if matches!(key.code, KeyCode::Esc) {
            self.switch_screen(Screen::ProjectList);
        } else if matches!(key.code, KeyCode::Enter) && self.dialogue.selection != DialogueSelection::Unset {
            self.execute_selection(listing);
        } else {
            return key_is_char(key, 'q');
        }
        false
    }

    pub(crate) fn focus(&mut self, s: DialogueSelection)
        ensures
            final(self)@ == focus(old(self)@, s),
    {
        self.dialogue.selection = s;
    }

    #[verifier::spinoff_prover]
    pub(crate) fn handle_input_key(&mut self, key: Key, listing: &Vec<String>)
        requires
            input_key_defined(old(self)@, key),
        ensures
            final(self)@ == input_key_spec(old(self)@, key, texts(listing@)),
    {
        proof {
            reveal(input_key_spec);
        }
        if matches!(key.code, KeyCode::Enter) {
            self.execute_selection(listing);
        } else if matches!(key.code, KeyCode::Tab) && matches!(self.input.step, InputStep::Path) {
            self.append_path_item();
        } else if matches!(key.code, KeyCode::Char(_)) && !key.ctrl {
            if let KeyCode::Char(c) = key.code {
                self.input.enter_char(c);
            }
        } else if matches!(key.code, KeyCode::Backspace) {
            self.input.delete_char();
        } else if matches!(key.code, KeyCode::Left) {
            self.input.move_cursor_left();
        } else if matches!(key.code, KeyCode::Right) {
            self.input.move_cursor_right();
        } else if key_is_char(key, 'n') && key.ctrl {
            self.move_selection(true);
        } else if key_is_char(key, 'p') && key.ctrl {
            self.move_selection(false);
        } else if key_is_char(key, 'v') && (key.ctrl || key.meta) {
            self.push_effect(Effect::PasteClipboard);
        } else if matches!(key.code, KeyCode::Esc) {
            self.focus(DialogueSelection::Cancel);
            self.execute_selection(listing);
        }
    }

    #[verifier::spinoff_prover]
    pub(crate) fn handle_dialogue_key(&mut self, key: Key, listing: &Vec<String>) -> (quit: bool)
        ensures
            (final(self)@, quit) == dialogue_key_spec(old(self)@, key, texts(listing@)),
    {
        proof {
            reveal(dialogue_key_spec);
        }
        if key_is_char(key, 'l') || matches!(key.code, KeyCode::Right) {
            self.focus(DialogueSelection::Cancel);
        } else if key_is_char(key, 'h') || matches!(key.code, KeyCode::Left) {
            self.focus(DialogueSelection::Accept);
        } else if matches!(key.code, KeyCode::Esc) {
            self.focus(DialogueSelection::Cancel);
            self.execute_selection(listing);
        } else if matches!(key.code, KeyCode::Enter) && self.dialogue.selection != DialogueSelection::Unset {
            self.execute_selection(listing);
        } else {
            return key_is_char(key, 'q');
        }
        false
    }

    pub(crate) fn handle_help_key(&mut self, key: Key) -> (quit: bool)
        requires
            old(self).show_help,
            key_defined(old(self)@, key),
        ensures
            (final(self)@, quit) == help_key_spec(old(self)@, key),
    {
        proof {
            reveal(help_key_spec);
        }
        if key_is_char(key, 'j') || matches!(key.code, KeyCode::Down) {
            self.help_state.move_selection(true);
        } else if key_is_char(key, 'k') || matches!(key.code, KeyCode::Up) {
            self.help_state.move_selection(false);
        } else if key_is_char(key, '?') || matches!(key.code, KeyCode::Esc) {
            self.show_help = false;
        } else {
            return key_is_char(key, 'q');
        }
        false
    }

    pub(crate) fn dismiss_notice(&mut self)
        ensures
            final(self)@ == dismiss_notice_spec(old(self)@),
    {
        self.set_dialogue(Dialogue::Closed);
        if self.dialogue.return_to.is_closed() {
            self.refresh();
        }
    }

    /// Reacts to a key press; the result says whether to quit. `listing` holds
    /// the entries of the directory named by `entered_dir` (empty when it
    /// names none).
    #[verifier::spinoff_prover]
    pub fn handle_key(&mut self, key: Key, listing: &Vec<String>) -> (quit: bool)
        requires
            key_defined(old(self)@, key),
        ensures
            (final(self)@, quit) == handle_key_spec(old(self)@, key, texts(listing@)),
    {
        if self.show_help {
            return self.handle_help_key(key);
        }
        if key_is_char(key, '?') {
            self.show_help = true;
            return false;
        }
        match self.screen {
            Screen::ProjectList => self.handle_project_list_key(key, listing),
            Screen::EditorList => self.handle_editor_screen_key(key, listing),
            Screen::CommandList => false,
        }
    }

    #[verifier::spinoff_prover]
    pub(crate) fn handle_project_list_key(&mut self, key: Key, listing: &Vec<String>) -> (quit: bool)
        requires
            !old(self).show_help,
            !is_char(key, '?'),
            old(self).screen == Screen::ProjectList,
            key_defined(old(self)@, key),
        ensures
            (final(self)@, quit) == project_list_key_spec(old(self)@, key, texts(listing@)),
    {
        proof {
            reveal(project_list_key_spec);
        }
        match shape_of(&self.dialogue.current) {
                Shown::Closed => self.handle_main_key(key),
                Shown::Input => {
                    self.handle_input_key(key, listing);
                    false
                },
                Shown::Info => {
                    if key_is_char(key, 'o') {
                        self.open_after_creation = !self.open_after_creation;
                    }
                    self.handle_dialogue_key(key, listing)
                },
                Shown::TimedInfo => {
                    self.dismiss_notice();
                    key_is_char(key, 'q')
                },
                Shown::Panic => key_is_char(key, 'q'),
                _ => self.handle_dialogue_key(key, listing),
        }
    }

    #[verifier::spinoff_prover]
    pub(crate) fn handle_editor_screen_key(&mut self, key: Key, listing: &Vec<String>) -> (quit: bool)
        requires
            !old(self).show_help,
            !is_char(key, '?'),
            old(self).screen == Screen::EditorList,
            key_defined(old(self)@, key),
        ensures
            (final(self)@, quit) == editor_screen_key_spec(old(self)@, key, texts(listing@)),
    {
        proof {
            reveal(editor_screen_key_spec);
        }
        match shape_of(&self.dialogue.current) {
            Shown::TimedInfo => {
                self.dismiss_notice();
                key_is_char(key, 'q')
            },
            _ => self.handle_editor_list_key(key, listing),
        }
    }

    /// The directory whose entries a key may need: the typed path, while the
    /// wizard asks for the path.
    pub fn entered_dir(&self) -> (r: Option<String>)
        ensures
            r matches Some(d) ==> self@.dialogue.current is Input && self@.input.step == InputStep::Path
                && d@ == self@.input.value,
            r is None ==> !(self@.dialogue.current is Input && self@.input.step == InputStep::Path),
    {
        if self.dialogue.current.is_input() && matches!(self.input.step, InputStep::Path) {
            Some(self.input.value.clone())
        } else {
            None
        }
    }
}

} // verus!
