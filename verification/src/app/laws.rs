//! Properties of the state machine as a whole: how the help menu opens and
//! closes, when the application quits, how dialogues are left, and how
//! background work is asked for.

use vstd::prelude::*;

use crate::app::AppView;
use crate::app::items::{move_selection_spec, toggle_details_spec};
use crate::app::keys::{
    cancel_input_spec, dialogue_key_spec, dismiss_notice_spec, editor_key_spec, editor_screen_key_spec,
    execute_spec, handle_key_spec, help_key_spec, input_key_spec, is_char, is_down, is_up, main_key_spec,
    project_list_key_spec, submit_input_spec,
};
use crate::app::reload::{notice_expired_spec, refresh_spec};
use crate::model::{details_of, DialogueSelection, EffectView, Key, KeyCode, Screen};

verus! {

/// The application quits only on the key `q`.
pub proof fn lemma_quits_only_on_q(a: AppView, key: Key, listing: Seq<Seq<char>>)
    ensures
        handle_key_spec(a, key, listing).1 ==> is_char(key, 'q'),
{
    reveal(help_key_spec);
    reveal(project_list_key_spec);
    reveal(editor_screen_key_spec);
    reveal(main_key_spec);
    reveal(editor_key_spec);
    reveal(dialogue_key_spec);
}

/// `q` quits from every screen that lists something, in the help menu and
/// with any dialogue shown, except while text is typed into the wizard on
/// the project list.
pub proof fn lemma_q_quits(a: AppView, key: Key, listing: Seq<Seq<char>>)
    requires
        is_char(key, 'q'),
        a.screen != Screen::CommandList,
        a.show_help || !(a.screen == Screen::ProjectList && a.dialogue.current is Input),
    ensures
        handle_key_spec(a, key, listing).1,
{
    reveal(help_key_spec);
    reveal(project_list_key_spec);
    reveal(editor_screen_key_spec);
    reveal(main_key_spec);
    reveal(editor_key_spec);
    reveal(dialogue_key_spec);
}

/// On the project list with no dialogue, and on the editor screen, `j`, the
/// down arrow and Ctrl-n each move the selection down, and `k`, the up arrow
/// and Ctrl-p each move it up, exactly as moving the selection does, without
/// quitting.
pub proof fn lemma_move_keys(a: AppView, key: Key, listing: Seq<Seq<char>>)
    requires
        is_down(key) || is_up(key),
    ensures
        main_key_spec(a, key) == (move_selection_spec(a, is_down(key)), false),
        editor_key_spec(a, key, listing) == (move_selection_spec(a, is_down(key)), false),
{
    reveal(main_key_spec);
    reveal(editor_key_spec);
    assert(is_down(key) ==> !is_up(key));
}

/// `?` opens the help menu and changes nothing else; while it is open, `?`
/// or Esc closes it and changes nothing else.
pub proof fn lemma_help_toggles(a: AppView, key: Key, listing: Seq<Seq<char>>)
    ensures
        !a.show_help && is_char(key, '?') ==> handle_key_spec(a, key, listing) == (AppView { show_help: true, ..a }, false),
        a.show_help && (is_char(key, '?') || key.code == KeyCode::Esc)
            ==> handle_key_spec(a, key, listing) == (AppView { show_help: false, ..a }, false),
{
    reveal(help_key_spec);
}

/// Refreshing leaves no dialogue open, except where nothing reloads.
pub proof fn lemma_refresh_closes_dialogue(a: AppView)
    ensures
        a.screen != Screen::CommandList ==> refresh_spec(a).dialogue.current is Closed,
{
}

/// Escape in the creation wizard leaves it, back to the project list with no
/// dialogue open.
pub proof fn lemma_escape_leaves_wizard(a: AppView, key: Key, listing: Seq<Seq<char>>)
    requires
        !a.show_help,
        a.screen == Screen::ProjectList,
        a.dialogue.current is Input,
        key.code == KeyCode::Esc,
    ensures
        handle_key_spec(a, key, listing).0.dialogue.current is Closed,
        !handle_key_spec(a, key, listing).1,
{
    reveal(project_list_key_spec);
    reveal(input_key_spec);
    reveal(execute_spec);
    reveal(submit_input_spec);
    let b = crate::app::keys::focus(a, DialogueSelection::Cancel);
    assert(b.dialogue.current is Input);
    assert(b.dialogue.selection == DialogueSelection::Cancel);
    assert(submit_input_spec(b, listing) == cancel_input_spec(b));
}

/// A notice dismissed by a key, or closed once its time is up, leaves no
/// dialogue open.
pub proof fn lemma_notice_closes(a: AppView)
    ensures
        dismiss_notice_spec(a).dialogue.current is Closed,
        a.dialogue.current is TimedInfo ==> notice_expired_spec(a).dialogue.current is Closed,
{
}

/// Enter on a collapsed project expands it, and Enter again collapses it back
/// to its name.
pub proof fn lemma_toggle_twice(a: AppView, i: usize)
    requires
        a.list_state.selected == Some(i),
        i < a.list_items.len(),
        i < a.projects.len(),
        a.list_items[i as int] == a.projects[i as int].name,
        !a.projects[i as int].name.contains('\n'),
    ensures
        toggle_details_spec(a).list_items[i as int] == details_of(a.projects[i as int]),
        toggle_details_spec(a).proj_expanded,
        toggle_details_spec(toggle_details_spec(a)).list_items == a.list_items,
        !toggle_details_spec(toggle_details_spec(a)).proj_expanded,
{
    reveal_strlit("\n  Path: ");
    let p = a.projects[i as int];
    let d = details_of(p);
    assert(d[p.name.len() as int] == '\n');
    assert(d.contains('\n'));
    let b = toggle_details_spec(a);
    assert(b.list_items[i as int] == d);
    assert(b.list_items.update(i as int, p.name) =~= a.list_items);
}

/// While the projects are being listed, refreshing does not ask for them again.
pub proof fn lemma_refresh_no_second_listing(a: AppView)
    requires
        a.tasks.projects,
        a.screen == Screen::ProjectList,
    ensures
        refresh_spec(a).tasks.projects,
        forall|k: int| a.effects.len() <= k < refresh_spec(a).effects.len() ==>
            refresh_spec(a).effects[k] != EffectView::ListProjects,
{
    let b = refresh_spec(a);
    assert forall|k: int| a.effects.len() <= k < b.effects.len() implies b.effects[k] != EffectView::ListProjects by {
        assert(b.effects[k] == EffectView::CheckAuth);
    }
}

} // verus!
