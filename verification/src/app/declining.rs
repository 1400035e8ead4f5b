//! Declining to log in is final: once the user has said no to the login
//! question, it is not asked again.

use vstd::prelude::*;

use crate::app::{show, submitted, AppView};
use crate::app::items::move_selection_spec;
use crate::app::keys::{
    after_step_spec, cancel_input_spec, dialogue_key_spec, dismiss_error_spec, dismiss_notice_spec, editor_key_spec,
    editor_screen_key_spec, execute_spec, focus, handle_key_spec, help_key_spec, input_key_spec, main_key_spec,
    project_list_key_spec, submit_input_spec,
};
use crate::app::reload::{clear_tasks_spec, notice_expired_spec, refresh_spec, reset_after_dialogue_spec, start_spec};
use crate::app::tasks::{
    auth_done_spec, create_done_spec, editor_change_done_spec, editors_done_spec, installed_done_spec,
    login_done_spec, pending_spec, project_action_done_spec, projects_done_spec, templates_done_spec, TaskKind,
};
use crate::app::wizard::{advance_spec, open_create_dialogue_spec};
use crate::model::{DialogueSelection, DialogueView, Key, ProjectView, Screen};

verus! {

/// Neither the dialogue shown nor the one an error returns to asks a question
/// with an action behind it, such as whether to log in.
pub open spec fn not_asking(a: AppView) -> bool {
    !(a.dialogue.current is ConfirmAction) && !(a.dialogue.return_to is ConfirmAction)
}

/// Once the login was declined, no login question is shown or waiting.
pub open spec fn settled(a: AppView) -> bool {
    a.declined_login ==> not_asking(a)
}

/// Going from `a` to `b` keeps a declined login declined and settled.
pub open spec fn kept(a: AppView, b: AppView) -> bool {
    &&& a.declined_login ==> b.declined_login
    &&& settled(a) ==> settled(b)
}

proof fn lemma_refresh(a: AppView)
    ensures
        kept(a, refresh_spec(a)),
{
}

proof fn lemma_open_create(a: AppView)
    ensures
        kept(a, open_create_dialogue_spec(a)),
{
}

proof fn lemma_advance(a: AppView, listing: Seq<Seq<char>>)
    ensures
        kept(a, advance_spec(a, listing).0),
{
}

proof fn lemma_after_step(b: AppView)
    ensures
        kept(b, after_step_spec(b)),
{
}

proof fn lemma_dismiss_error(a: AppView)
    ensures
        kept(a, dismiss_error_spec(a)),
{
    if a.dialogue.return_to is Closed {
        let d = submitted(reset_after_dialogue_spec(clear_tasks_spec(a)));
        lemma_refresh(d);
    }
}

proof fn lemma_cancel_input(a: AppView)
    ensures
        kept(a, cancel_input_spec(a)),
{
    let b = if a.dialogue.return_to is Closed { clear_tasks_spec(a) } else { a };
    lemma_refresh(submitted(reset_after_dialogue_spec(b)));
}

proof fn lemma_submit_input(a: AppView, listing: Seq<Seq<char>>)
    ensures
        kept(a, submit_input_spec(a, listing)),
{
    reveal(submit_input_spec);
    lemma_cancel_input(a);
    lemma_advance(a, listing);
    lemma_after_step(advance_spec(a, listing).0);
}

proof fn lemma_execute(a: AppView, listing: Seq<Seq<char>>)
    ensures
        kept(a, execute_spec(a, listing)),
{
    reveal(execute_spec);
    lemma_dismiss_error(a);
    lemma_submit_input(a, listing);
    lemma_refresh(reset_after_dialogue_spec(a));
}

proof fn lemma_move(a: AppView, next: bool)
    ensures
        kept(a, move_selection_spec(a, next)),
{
}

proof fn lemma_main_key(a: AppView, key: Key)
    ensures
        kept(a, main_key_spec(a, key).0),
{
    reveal(main_key_spec);
    lemma_move(a, true);
    lemma_move(a, false);
    lemma_open_create(a);
    lemma_refresh(a);
    lemma_refresh(AppView { screen: Screen::EditorList, ..a });
}

proof fn lemma_editor_key(a: AppView, key: Key, listing: Seq<Seq<char>>)
    ensures
        kept(a, editor_key_spec(a, key, listing).0),
{
    reveal(editor_key_spec);
    lemma_move(a, true);
    lemma_move(a, false);
    lemma_refresh(AppView { screen: Screen::ProjectList, ..a });
    lemma_execute(a, listing);
}

proof fn lemma_input_key(a: AppView, key: Key, listing: Seq<Seq<char>>)
    ensures
        kept(a, input_key_spec(a, key, listing)),
{
    reveal(input_key_spec);
    lemma_execute(a, listing);
    lemma_execute(focus(a, DialogueSelection::Cancel), listing);
    lemma_move(a, true);
    lemma_move(a, false);
}

proof fn lemma_dialogue_key(a: AppView, key: Key, listing: Seq<Seq<char>>)
    ensures
        kept(a, dialogue_key_spec(a, key, listing).0),
{
    reveal(dialogue_key_spec);
    lemma_execute(a, listing);
    lemma_execute(focus(a, DialogueSelection::Cancel), listing);
}

proof fn lemma_dismiss_notice(a: AppView)
    ensures
        kept(a, dismiss_notice_spec(a)),
{
    lemma_refresh(show(a, DialogueView::Closed));
}

/// Once the login question has been declined, no key brings it back: the
/// login stays declined, and no question is shown or waiting behind an error.
pub proof fn lemma_key_keeps_declined(a: AppView, key: Key, listing: Seq<Seq<char>>)
    ensures
        kept(a, handle_key_spec(a, key, listing).0),
{
    reveal(help_key_spec);
    reveal(project_list_key_spec);
    reveal(editor_screen_key_spec);
    lemma_dismiss_notice(a);
    lemma_main_key(a, key);
    lemma_input_key(a, key, listing);
    lemma_dialogue_key(a, key, listing);
    lemma_dialogue_key(AppView { open_after_creation: !a.open_after_creation, ..a }, key, listing);
    lemma_editor_key(a, key, listing);
}

/// Declining the login question (confirming it with the "cancel" button
/// focused) remembers the refusal and leaves no question shown or waiting.
pub proof fn lemma_declining_settles(a: AppView, listing: Seq<Seq<char>>)
    requires
        a.dialogue.current is ConfirmAction,
        a.dialogue.selection == DialogueSelection::Cancel,
    ensures
        execute_spec(a, listing).declined_login,
        settled(execute_spec(a, listing)),
{
    reveal(execute_spec);
}

/// Once the login was declined, a later login check that finds the user
/// logged out changes neither the dialogue nor the user name, and no outcome
/// of background work, no frame and no reload brings the question back.
#[verifier::spinoff_prover]
pub proof fn lemma_outcomes_keep_declined(a: AppView, task: TaskKind, elapsed: std::time::Duration, found: bool)
    ensures
        forall|u: Seq<char>| #![trigger auth_done_spec(a, Ok((false, u)))]
            a.declined_login ==> auth_done_spec(a, Ok((false, u))).dialogue == a.dialogue
                && auth_done_spec(a, Ok((false, u))).username == a.username,
        forall|r: Result<(bool, Seq<char>), Seq<char>>| #![trigger auth_done_spec(a, r)]
            kept(a, auth_done_spec(a, r)),
        forall|r: Result<(bool, Seq<char>), Seq<char>>| #![trigger login_done_spec(a, r)]
            kept(a, login_done_spec(a, r)),
        forall|r: Result<(Seq<Seq<char>>, Seq<ProjectView>), Seq<char>>| #![trigger projects_done_spec(a, r)]
            kept(a, projects_done_spec(a, r)),
        forall|r: Result<Seq<(bool, Seq<char>)>, Seq<char>>| #![trigger editors_done_spec(a, r)]
            kept(a, editors_done_spec(a, r)),
        forall|r: Result<Seq<Seq<char>>, Seq<char>>| #![trigger installed_done_spec(a, r)]
            kept(a, installed_done_spec(a, r)),
        forall|r: Result<Seq<Seq<char>>, Seq<char>>| #![trigger templates_done_spec(a, task, r)]
            kept(a, templates_done_spec(a, task, r)),
        forall|install: bool, r: Result<(), Seq<char>>| #![trigger editor_change_done_spec(a, install, r)]
            kept(a, editor_change_done_spec(a, install, r)),
        forall|r: Result<(), Seq<char>>| #![trigger create_done_spec(a, r)]
            kept(a, create_done_spec(a, r)),
        forall|open: bool, r: Result<(), Seq<char>>| #![trigger project_action_done_spec(a, open, r)]
            kept(a, project_action_done_spec(a, open, r)),
        kept(a, pending_spec(a, task, elapsed)),
        kept(a, start_spec(a, found)),
        kept(a, notice_expired_spec(a)),
{
    lemma_refresh(AppView { unity_available: true, ..a });
    lemma_refresh(show(a, DialogueView::Closed));
}

} // verus!
