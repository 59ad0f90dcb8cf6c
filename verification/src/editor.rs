//! The decisions of the custom-action editor: what each event of its window
//! does, and whether the edited action is saved.

use vstd::prelude::*;

verus! {

/// The events of the custom-action editor's window.
#[derive(Clone, Copy, PartialEq, Eq, Structural, Debug)]
pub enum Message {
    /// Another custom action was chosen in the list.
    ChoiceChanged,
    /// The phrase or the script was edited.
    Changed,
    Save,
    Quit,
    Cut,
    Copy,
    Paste,
}

/// What the editor does for an event.
#[derive(Clone, Copy, PartialEq, Eq, Structural, Debug)]
pub enum EditorAction {
    /// Nothing beyond the change of the saved state.
    Nothing,
    /// Put the chosen action's phrase and script into the editors.
    ShowChoice,
    /// Write the edited action to the custom-actions file.
    Save,
    /// Close the editor; `ask_to_save` when there is unsaved work, so that the
    /// user is asked whether to save it first.
    Quit { ask_to_save: bool },
    Cut,
    Copy,
    Paste,
}

/// The editor's next saved state and action for `msg`, where `saved` tells
/// whether the edited action is saved: an edit or another choice leaves
/// unsaved work, saving leaves none, quitting asks to save unsaved work.
pub open spec fn editor_next(saved: bool, msg: Message) -> (bool, EditorAction) {
    match msg {
        Message::Changed => (false, EditorAction::Nothing),
        Message::ChoiceChanged => (false, EditorAction::ShowChoice),
        Message::Save => (true, EditorAction::Save),
        Message::Quit => (saved, EditorAction::Quit { ask_to_save: !saved }),
        Message::Cut => (saved, EditorAction::Cut),
        Message::Copy => (saved, EditorAction::Copy),
        Message::Paste => (saved, EditorAction::Paste),
    }
}

/// The editor's step for the event `msg`.
pub fn editor_step(saved: bool, msg: Message) -> (res: (bool, EditorAction))
    ensures
        res == editor_next(saved, msg),
        msg == Message::Changed || msg == Message::ChoiceChanged ==> !res.0,
        msg == Message::Save ==> res.0,
        msg == Message::Quit ==> res == (saved, EditorAction::Quit { ask_to_save: !saved }),
        msg == Message::Cut || msg == Message::Copy || msg == Message::Paste ==> res.0 == saved,
{
    match msg {
        Message::Changed => (false, EditorAction::Nothing),
        Message::ChoiceChanged => (false, EditorAction::ShowChoice),
        Message::Save => (true, EditorAction::Save),
        Message::Quit => (saved, EditorAction::Quit { ask_to_save: !saved }),
        Message::Cut => (saved, EditorAction::Cut),
        Message::Copy => (saved, EditorAction::Copy),
        Message::Paste => (saved, EditorAction::Paste),
    }
}

/// An edit, or the choice of another action, always leaves unsaved work,
/// whatever came before, so that quitting next asks whether to save; saving
/// leaves none, so that quitting next closes without asking.
pub proof fn lemma_edits_are_saved_only_by_saving(saved: bool)
    ensures
        editor_next(saved, Message::Changed).0 == false,
        editor_next(saved, Message::ChoiceChanged).0 == false,
        editor_next(editor_next(saved, Message::Changed).0, Message::Quit).1 == (EditorAction::Quit {
            ask_to_save: true,
        }),
        editor_next(editor_next(saved, Message::ChoiceChanged).0, Message::Quit).1
            == (EditorAction::Quit { ask_to_save: true }),
        editor_next(editor_next(saved, Message::Save).0, Message::Quit).1 == (EditorAction::Quit {
            ask_to_save: false,
        }),
{
}

/// Cutting, copying and pasting leave the saved state as it was, and so
/// does quitting.
pub proof fn lemma_clipboard_keeps_saved_state(saved: bool)
    ensures
        editor_next(saved, Message::Cut).0 == saved,
        editor_next(saved, Message::Copy).0 == saved,
        editor_next(saved, Message::Paste).0 == saved,
        editor_next(saved, Message::Quit).0 == saved,
{
}

} // verus!
