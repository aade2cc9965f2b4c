use crate::model::{nav_post, shift_post, spec_entry_dir, ActiveWindow, ModelState};
use crate::text::spec_join;
use crate::textbox::{apply_of, KeyCode, KeyInput};
use vstd::prelude::*;

verus! {

/// A discrete user-triggered request for a state change.
#[derive(Clone, Copy, Debug, PartialEq, Eq, Structural)]
pub enum Message {
    SwitchWindows(ActiveWindow),
    OpenFilenameEditbox,
    CreateFile,
    SaveFile,
    Left,
    Right,
    Down,
    Up,
    Save,
    Quit,
    ToggleCalendar,
    Enter,
    Other,
}

/// What the driving loop must do after a reducer step: nothing, feed a
/// follow-up intent back in, or perform one file-system action and hand
/// its outcome to the continuation the variant names.
#[derive(Clone, Debug, PartialEq, Eq)]
pub enum Effect {
    /// The intent is fully handled.
    Done,
    /// Feed this intent through `update` next.
    Chain(Message),
    /// Enumerate the files of this directory and hand the result to
    /// `refresh_menu`, together with the filename to select, if any.
    ListDir { dir: String, select: Option<String> },
    /// Read the file of the listing entry at this index, at this path, and
    /// hand its text to `load_selected_content`.
    ReadEntry { index: usize, path: String },
    /// Overwrite the file at this path with exactly this text.
    WriteEntry { path: String, content: String },
    /// Create the directory if missing and an empty file of this name
    /// inside it, then hand success or failure to `file_created`.
    CreateEntry { dir: String, filename: String },
}

/// What one key means under one focus: a single intent, an edit of one of
/// the two text buffers, or nothing at all.
#[derive(Clone, Copy, Debug, PartialEq, Eq, Structural)]
pub enum KeyAction {
    Intent(Message),
    EditEditor,
    EditPrompt,
    Ignore,
}

/// The key table: the one mapping from focus and key to what happens.
/// Dispatch goes by focus first, key second; the same key may mean
/// different things under different focuses.
pub open spec fn spec_key_action(focus: ActiveWindow, k: KeyInput) -> KeyAction {
    match focus {
        ActiveWindow::EditBox => if k.code == KeyCode::Tab {
            KeyAction::Intent(Message::SwitchWindows(ActiveWindow::Menu))
        } else if k.code == KeyCode::Char('s') && k.ctrl {
            KeyAction::Intent(Message::SaveFile)
        } else if k.code == KeyCode::Char('n') && k.ctrl {
            KeyAction::Intent(Message::OpenFilenameEditbox)
        } else {
            KeyAction::EditEditor
        },
        ActiveWindow::TextPopup => if k.code == KeyCode::Esc {
            KeyAction::Intent(Message::SwitchWindows(ActiveWindow::Menu))
        } else if k.code == KeyCode::Enter {
            KeyAction::Intent(Message::CreateFile)
        } else {
            KeyAction::EditPrompt
        },
        ActiveWindow::Menu => if k.code == KeyCode::Char('q') {
            KeyAction::Intent(Message::Quit)
        } else if k.code == KeyCode::Char('c') {
            KeyAction::Intent(Message::ToggleCalendar)
        } else if k.code == KeyCode::Char('n') && k.ctrl {
            KeyAction::Intent(Message::OpenFilenameEditbox)
        } else if k.code == KeyCode::Tab {
            KeyAction::Intent(Message::SwitchWindows(ActiveWindow::EditBox))
        } else if k.code == KeyCode::Up {
            KeyAction::Intent(Message::Up)
        } else if k.code == KeyCode::Down {
            KeyAction::Intent(Message::Down)
        } else if k.code == KeyCode::Left {
            KeyAction::Intent(Message::Left)
        } else if k.code == KeyCode::Right {
            KeyAction::Intent(Message::Right)
        } else if k.code == KeyCode::Enter {
            KeyAction::Intent(Message::Enter)
        } else {
            KeyAction::Ignore
        },
    }
}

/// Everything but the editor buffer is as it was, and the editor buffer
/// holds exactly what editing it with this very key gives: what feeding a
/// key to the editor leaves.
pub open spec fn edited_editor<'a>(pre: ModelState<'a>, post: ModelState<'a>, k: KeyInput) -> bool {
    &&& post.same_lifecycle(pre)
    &&& post.same_focus(pre)
    &&& post.same_calendar(pre)
    &&& post.same_menu(pre)
    &&& post.prompt_box() == pre.prompt_box()
    &&& post.editor_lines() == apply_of(pre.editor_box(), k)
    &&& post.editor_lines().len() >= 1
}

/// Everything but the prompt buffer is as it was, and the prompt buffer
/// holds exactly what editing it with this very key gives: what feeding a
/// key to the prompt leaves.
pub open spec fn edited_prompt<'a>(pre: ModelState<'a>, post: ModelState<'a>, k: KeyInput) -> bool {
    &&& post.same_lifecycle(pre)
    &&& post.same_focus(pre)
    &&& post.same_calendar(pre)
    &&& post.same_menu(pre)
    &&& post.editor_box() == pre.editor_box()
    &&& post.prompt_lines() == apply_of(pre.prompt_box(), k)
    &&& post.prompt_lines().len() >= 1
}

/// Map one keyboard input to at most one intent, exactly as the key table
/// says; a key that belongs to the focused text buffer edits that buffer
/// in place and yields no intent.
pub fn handle_key(model: &mut ModelState<'_>, input: KeyInput) -> (msg: Option<Message>)
    ensures
        ({
            let pre = *old(model);
            let post = *final(model);
            let a = spec_key_action(pre.focus(), input);
            &&& (a matches KeyAction::Intent(m) ==> msg == Some(m) && post == pre)
            &&& (a is EditEditor ==> msg is None && edited_editor(pre, post, input))
            &&& (a is EditPrompt ==> msg is None && edited_prompt(pre, post, input))
            &&& (a is Ignore ==> msg is None && post == pre)
        }),
        old(model).wf() ==> final(model).wf(),
{
    let focus = *model.active_window();
    match focus {
        ActiveWindow::EditBox => {
            if input.code == KeyCode::Tab {
                Some(Message::SwitchWindows(ActiveWindow::Menu))
            } else if input.code == KeyCode::Char('s') && input.ctrl {
                Some(Message::SaveFile)
            } else if input.code == KeyCode::Char('n') && input.ctrl {
                Some(Message::OpenFilenameEditbox)
            } else {
                model.input_editbox(input);
                None
            }
        },
        ActiveWindow::TextPopup => {
            if input.code == KeyCode::Esc {
                Some(Message::SwitchWindows(ActiveWindow::Menu))
            } else if input.code == KeyCode::Enter {
                Some(Message::CreateFile)
            } else {
                model.input_popup(input);
                None
            }
        },
        ActiveWindow::Menu => {
            if input.code == KeyCode::Char('q') {
                Some(Message::Quit)
            } else if input.code == KeyCode::Char('c') {
                Some(Message::ToggleCalendar)
            } else if input.code == KeyCode::Char('n') && input.ctrl {
                Some(Message::OpenFilenameEditbox)
            } else if input.code == KeyCode::Tab {
                Some(Message::SwitchWindows(ActiveWindow::EditBox))
            } else if input.code == KeyCode::Up {
                Some(Message::Up)
            } else if input.code == KeyCode::Down {
                Some(Message::Down)
            } else if input.code == KeyCode::Left {
                Some(Message::Left)
            } else if input.code == KeyCode::Right {
                Some(Message::Right)
            } else if input.code == KeyCode::Enter {
                Some(Message::Enter)
            } else {
                None
            }
        },
    }
}

/// One step of the reducer: apply one intent to the state and say what the
/// driving loop must do next. An intent either finishes, hands back one
/// follow-up intent, or asks for one file-system action whose outcome goes
/// to the continuation named on the effect.
pub fn update(model: &mut ModelState<'_>, msg: Message) -> (e: Effect)
    requires
        old(model).wf(),
    ensures
        final(model).wf(),
        msg is Quit ==> ({
            let pre = *old(model);
            let post = *final(model);
            &&& post.lifecycle() is Done
            &&& post.same_focus(pre)
            &&& post.same_calendar(pre)
            &&& post.same_menu(pre)
            &&& post.same_buffers(pre)
            &&& e is Done
        }),
        msg matches Message::SwitchWindows(w) ==> ({
            let pre = *old(model);
            let post = *final(model);
            &&& post.focus() == w
            &&& post.same_lifecycle(pre)
            &&& post.same_calendar(pre)
            &&& post.same_menu(pre)
            &&& post.same_buffers(pre)
            &&& e is Done
        }),
        msg is ToggleCalendar ==> ({
            let pre = *old(model);
            let post = *final(model);
            &&& post.cal_visible() == !pre.cal_visible()
            &&& post.date() == pre.date()
            &&& post.same_lifecycle(pre)
            &&& post.same_focus(pre)
            &&& post.same_menu(pre)
            &&& post.same_buffers(pre)
            &&& e is Done
        }),
        msg is OpenFilenameEditbox ==> ({
            let pre = *old(model);
            let post = *final(model);
            &&& post.focus() == ActiveWindow::TextPopup
            &&& post.same_lifecycle(pre)
            &&& post.same_calendar(pre)
            &&& post.same_menu(pre)
            &&& post.same_buffers(pre)
            &&& e is Done
        }),
        msg is CreateFile ==> ({
            let pre = *old(model);
            &&& *final(model) == pre
            &&& (e matches Effect::CreateEntry { dir, filename } && dir@ == spec_entry_dir(
                pre.date(),
            ) && filename@ == pre.prompt_lines()[0])
        }),
        msg is SaveFile ==> ({
            let pre = *old(model);
            &&& *final(model) == pre
            &&& if pre.entries().len() == 0 {
                e == Effect::Chain(Message::OpenFilenameEditbox)
            } else {
                e matches Effect::WriteEntry { path, content } && path@
                    == pre.entries()[pre.sel()].path@ && content@ == spec_join(pre.editor_lines())
            }
        }),
        msg is Up ==> ({
            let pre = *old(model);
            let post = *final(model);
            if pre.cal_visible() {
                shift_post(pre, post, e, -7)
            } else if pre.focus() is Menu {
                nav_post(pre, post, e, false)
            } else {
                post == pre && e is Done
            }
        }),
        msg is Down ==> ({
            let pre = *old(model);
            let post = *final(model);
            if pre.cal_visible() {
                shift_post(pre, post, e, 7)
            } else if pre.focus() is Menu {
                nav_post(pre, post, e, true)
            } else {
                post == pre && e is Done
            }
        }),
        msg is Left ==> ({
            let pre = *old(model);
            let post = *final(model);
            if pre.cal_visible() {
                shift_post(pre, post, e, -1)
            } else {
                post == pre && e is Done
            }
        }),
        msg is Right ==> ({
            let pre = *old(model);
            let post = *final(model);
            if pre.cal_visible() {
                shift_post(pre, post, e, 1)
            } else {
                post == pre && e is Done
            }
        }),
        msg is Enter ==> e is Done && ({
            let pre = *old(model);
            let post = *final(model);
            if pre.cal_visible() {
                &&& !post.cal_visible()
                &&& post.date() == pre.date()
                &&& post.same_lifecycle(pre)
                &&& post.same_focus(pre)
                &&& post.same_menu(pre)
                &&& post.same_buffers(pre)
            } else {
                post == pre
            }
        }),
        msg is Save ==> *final(model) == *old(model) && e is Done,
        msg is Other ==> *final(model) == *old(model) && e is Done,
{
    match msg {
        Message::Quit => {
            model.terminate();
            Effect::Done
        },
        Message::SwitchWindows(window) => {
            model.switch_window(window);
            Effect::Done
        },
        Message::ToggleCalendar => {
            model.toggle_calendar();
            Effect::Done
        },
        Message::OpenFilenameEditbox => {
            model.switch_window(ActiveWindow::TextPopup);
            Effect::Done
        },
        Message::CreateFile => model.save_new_file(),
        Message::SaveFile => {
            if model.selected_listing().is_none() {
                Effect::Chain(Message::OpenFilenameEditbox)
            } else {
                model.save_selected_file()
            }
        },
        Message::Up => {
            if model.calendar_enabled() {
                model.select_prev_week()
            } else if *model.active_window() == ActiveWindow::Menu {
                model.select_prev_listing()
            } else {
                Effect::Done
            }
        },
        Message::Down => {
            if model.calendar_enabled() {
                model.select_next_week()
            } else if *model.active_window() == ActiveWindow::Menu {
                model.select_next_listing()
            } else {
                Effect::Done
            }
        },
        Message::Left => {
            if model.calendar_enabled() {
                model.select_prev_day()
            } else {
                Effect::Done
            }
        },
        Message::Right => {
            if model.calendar_enabled() {
                model.select_next_day()
            } else {
                Effect::Done
            }
        },
        Message::Enter => {
            if model.calendar_enabled() {
                model.toggle_calendar();
            }
            Effect::Done
        },
        Message::Save | Message::Other => Effect::Done,
    }
}

} // verus!
