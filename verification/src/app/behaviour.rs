//! What single operations do, stated over their inputs: which project a
//! deletion is about, which editor versions can be installed or removed, how
//! a path suggestion completes the typed path, which template is picked, and
//! how the help selection moves.

use vstd::prelude::*;

use crate::app::AppView;
use crate::app::items::move_selection_spec;
use crate::app::keys::{
    editor_key_spec, editor_screen_key_spec, execute_spec, handle_key_spec, help_key_spec, is_char, main_key_spec,
    project_list_key_spec,
};
use crate::app::wizard::append_path_item_spec;
use crate::help::lemma_help_entry_total;
use crate::list::next_index;
use crate::model::{DialogueSelection, DialogueView, EffectView, Key, KeyCode, Screen};
use crate::text::{lemma_last_index_of, trimmed};

verus! {

/// On the project list with no dialogue, `d` asks to confirm deleting the
/// selected project (Shift-`D` with its directory): the question is about the
/// project at the selected index, the "cancel" button has the focus, and the
/// selection is remembered and cleared.
pub proof fn lemma_delete_key_targets_selection(a: AppView, key: Key, listing: Seq<Seq<char>>, i: usize)
    requires
        !a.show_help,
        a.screen == Screen::ProjectList,
        a.dialogue.current is Closed,
        a.list_items.len() > 0,
        a.list_state.selected == Some(i),
        i < a.projects.len(),
        is_char(key, 'd') || (is_char(key, 'D') && key.shift),
    ensures
        ({
            let (b, quit) = handle_key_spec(a, key, listing);
            &&& !quit
            &&& b.dialogue.current == DialogueView::DeleteConfirm { with_dir: key.shift }
            &&& b.dialogue.selected_project == Some(a.projects[i as int])
            &&& b.dialogue.selection == DialogueSelection::Cancel
            &&& b.selected_index == Some(i)
            &&& b.list_state.selected is None
            &&& b.projects == a.projects
            &&& b.effects == a.effects
        }),
{
    reveal(project_list_key_spec);
    reveal(main_key_spec);
}

/// Confirming a deletion with the "ok" button focused asks to delete exactly
/// the project the question is about, with its directory when it said so,
/// unless a deletion is under way or the Unity tool is missing.
pub proof fn lemma_confirmed_delete_requests_that_project(a: AppView, listing: Seq<Seq<char>>, with_dir: bool)
    requires
        a.dialogue.current == (DialogueView::DeleteConfirm { with_dir }),
        a.dialogue.selection == DialogueSelection::Accept,
        a.dialogue.selected_project is Some,
        a.unity_available,
        !a.tasks.proj_delete,
    ensures
        execute_spec(a, listing).effects
            == a.effects.push(EffectView::DeleteProject(a.dialogue.selected_project.unwrap(), with_dir)),
        execute_spec(a, listing).tasks.proj_delete,
{
    reveal(execute_spec);
}

/// On the editor screen, `i` asks to install the selected version only when
/// it is not installed, and `d` asks to remove it only when it is: each first
/// restarts the timer and marks the work under way; otherwise nothing is
/// asked for and nothing is marked.
pub proof fn lemma_editor_keys_follow_installation(a: AppView, key: Key, listing: Seq<Seq<char>>, i: usize)
    requires
        !a.show_help,
        a.screen == Screen::EditorList,
        !(a.dialogue.current is TimedInfo),
        is_char(key, 'i') || is_char(key, 'd'),
        a.list_state.selected == Some(i),
        a.all_editors matches Some(eds) && i < eds.len(),
        a.unity_available,
        !a.tasks.editor_install,
        !a.tasks.editor_uninstall,
    ensures
        ({
            let (installed, version) = a.all_editors.unwrap()[i as int];
            let (b, quit) = handle_key_spec(a, key, listing);
            let installs = is_char(key, 'i');
            &&& !quit
            &&& installs && !installed ==> b.effects
                == a.effects.push(EffectView::RestartTimer).push(EffectView::InstallEditor(version))
                && b.tasks.editor_install && !b.tasks.editor_uninstall
            &&& !installs && installed ==> b.effects
                == a.effects.push(EffectView::RestartTimer).push(EffectView::UninstallEditor(version))
                && b.tasks.editor_uninstall && !b.tasks.editor_install
            &&& installs == installed ==> b == a
        }),
{
    reveal(editor_screen_key_spec);
    reveal(editor_key_spec);
}

/// Completing a path with a suggestion keeps the typed path through its last
/// slash, then appends the suggestion and a slash; the cursor goes to the end
/// and the suggestions and the selection are cleared.
pub proof fn lemma_append_keeps_the_directory(a: AppView, p: int)
    requires
        0 <= p < a.input.value.len(),
        a.input.value[p] == '/',
        forall|k: int| p < k < a.input.value.len() ==> a.input.value[k] != '/',
        (match a.list_state.selected { Some(i) => i as int, None => 0 }) < a.list_items_buffer.len(),
        a.input.value.len() + a.list_items_buffer[match a.list_state.selected { Some(i) => i as int, None => 0 }].len()
            < usize::MAX,
    ensures
        ({
            let entry = a.list_items_buffer[match a.list_state.selected { Some(i) => i as int, None => 0 }];
            let b = append_path_item_spec(a);
            &&& b.input.value == a.input.value.take(p + 1) + entry + seq!['/']
            &&& b.input.cursor == b.input.value.len()
            &&& b.list_items.len() == 0
            &&& b.list_state.selected is None
        }),
{
    let v = a.input.value;
    lemma_last_index_of(v, '/');
    assert(v.contains('/'));
    let q = crate::text::last_index_of(v, '/').unwrap();
    if q < p {
        assert(v[p] != '/');
    }
    if q > p {
        assert(v[q] != '/');
    }
    assert(q == p);
    assert(crate::app::wizard::path_prefix(v) == v.take(p + 1));
    reveal_strlit("/");
    assert("/"@ =~= seq!['/']);
    let entry = a.list_items_buffer[match a.list_state.selected { Some(i) => i as int, None => 0 }];
    assert(crate::app::wizard::append_index(a) as int == (match a.list_state.selected { Some(i) => i as int, None => 0 }));
    let b = append_path_item_spec(a);
    assert(b.input.value == crate::app::wizard::path_prefix(v) + entry + "/"@);
}

/// At the template step, moving the selection picks the template it lands
/// on: the picked entry becomes that template's name without surrounding
/// white space, and the typed text stays.
pub proof fn lemma_move_picks_the_template(a: AppView, next: bool)
    requires
        a.list_items.len() > 0,
        a.input.step == crate::model::InputStep::Template,
        a.templates is Some,
    ensures
        ({
            let b = move_selection_spec(a, next);
            let ts = a.templates.unwrap();
            &&& b.list_state.selected is Some
            &&& next ==> b.list_state.selected == Some(next_index(a.list_state.selected))
            &&& b.list_state.selected.unwrap() < ts.len()
                ==> b.input.buff == trimmed(ts[b.list_state.selected.unwrap() as int])
            &&& b.input.value == a.input.value
            &&& b.templates == a.templates
        }),
{
}

/// While the help menu is open, `j` and the down arrow move the selection to
/// the next of the nineteen entries and `k` and the up arrow to the previous
/// one, wrapping around; nothing else changes.
pub proof fn lemma_help_keys_move(a: AppView, key: Key)
    requires
        a.show_help,
        a.help_state.selected < 19,
    ensures
        ({
            let (b, quit) = help_key_spec(a, key);
            let s = a.help_state.selected as int;
            &&& (is_char(key, 'j') || key.code == KeyCode::Down) ==> !quit && b == (AppView {
                help_state: crate::help::HelpState { selected: ((s + 1) % 19) as usize, ..a.help_state }, ..a })
            &&& (is_char(key, 'k') || key.code == KeyCode::Up) ==> !quit && b == (AppView {
                help_state: crate::help::HelpState { selected: ((s + 18) % 19) as usize, ..a.help_state }, ..a })
            &&& (is_char(key, 'k') || key.code == KeyCode::Up) && s > 0 ==> b.help_state.selected == s - 1
            &&& (is_char(key, 'j') || key.code == KeyCode::Down) && s < 18 ==> b.help_state.selected == s + 1
        }),
{
    reveal(help_key_spec);
    lemma_help_entry_total();
}

/// At the version step, moving the selection copies the version it lands on
/// into the field, without surrounding white space, with the cursor at its end.
pub proof fn lemma_move_copies_the_version(a: AppView, next: bool)
    requires
        a.list_items.len() > 0,
        a.input.step == crate::model::InputStep::Version,
    ensures
        ({
            let b = move_selection_spec(a, next);
            let i = b.list_state.selected.unwrap();
            &&& b.list_state.selected is Some
            &&& i < b.list_items.len() ==> b.input.value == trimmed(b.list_items[i as int])
                && b.input.cursor == trimmed(b.list_items[i as int]).len() as usize
            &&& b.input.buff == a.input.buff
        }),
{
}

/// On the project list with no dialogue, `o` asks to open the project at the
/// selected index and marks opening under way, unless a project is being
/// opened or the Unity tool is missing.
pub proof fn lemma_open_key_targets_selection(a: AppView, key: Key, listing: Seq<Seq<char>>, i: usize)
    requires
        !a.show_help,
        a.screen == Screen::ProjectList,
        a.dialogue.current is Closed,
        a.list_items.len() > 0,
        a.list_state.selected == Some(i),
        i < a.projects.len(),
        is_char(key, 'o'),
        a.unity_available,
        !a.tasks.proj_open,
    ensures
        ({
            let (b, quit) = handle_key_spec(a, key, listing);
            &&& !quit
            &&& b.effects == a.effects.push(EffectView::OpenProject(a.projects[i as int]))
            &&& b.tasks.proj_open
        }),
{
    reveal(project_list_key_spec);
    reveal(main_key_spec);
}

} // verus!
