use corporate_assistant::editor::{editor_step, EditorAction, Message};

#[test]
fn edits_leave_unsaved_work_and_saving_clears_it() {
    assert_eq!(editor_step(true, Message::Changed), (false, EditorAction::Nothing));
    assert_eq!(editor_step(true, Message::ChoiceChanged), (false, EditorAction::ShowChoice));
    assert_eq!(editor_step(false, Message::Save), (true, EditorAction::Save));
    assert_eq!(editor_step(false, Message::Cut), (false, EditorAction::Cut));
    assert_eq!(editor_step(true, Message::Copy), (true, EditorAction::Copy));
    assert_eq!(editor_step(false, Message::Paste), (false, EditorAction::Paste));
}

#[test]
fn quitting_asks_only_for_unsaved_work() {
    assert_eq!(editor_step(false, Message::Quit), (false, EditorAction::Quit { ask_to_save: true }));
    assert_eq!(editor_step(true, Message::Quit), (true, EditorAction::Quit { ask_to_save: false }));
    let (saved, _) = editor_step(true, Message::Changed);
    let (saved, action) = editor_step(saved, Message::Quit);
    assert_eq!((saved, action), (false, EditorAction::Quit { ask_to_save: true }));
}
