use rustle::control::{handle_key, update, Effect, Message};
use rustle::date::Date;
use rustle::model::{ActiveWindow, MenuListing, ModelState, RunningState};
use rustle::textbox::{KeyCode, KeyInput};

fn on(year: i32, month: u8, day: u8) -> ModelState<'static> {
    ModelState::new_on(Date { year, month, day })
}

fn type_text(model: &mut ModelState<'_>, text: &str) {
    for c in text.chars() {
        let msg = handle_key(model, KeyInput::plain(KeyCode::Char(c)));
        assert!(msg.is_none());
    }
}

#[test]
fn empty_date_folder_yields_empty_listing_and_buffer() {
    let mut model = on(2024, 5, 2);
    // Put something in the listing and the editor first, so that the
    // clearing is observable.
    let seeded = vec![MenuListing::new(
        String::from("entries/2024-05-02/j.txt"),
        String::from("j.txt"),
    )];
    let e = model.refresh_menu(Some(seeded), None);
    assert!(matches!(e, Effect::ReadEntry { index: 0, .. }));
    model.load_selected_content(0, Some(String::from("junk")));
    assert_eq!(model.editbox_textarea.area.lines(), ["junk"]);

    let e = update(&mut model, Message::ToggleCalendar);
    assert_eq!(e, Effect::Done);
    assert!(model.calendar_enabled());

    let e = update(&mut model, Message::Left);
    let (dir, select) = match e {
        Effect::ListDir { dir, select } => (dir, select),
        other => panic!("expected a listing request, got {:?}", other),
    };
    assert_eq!(dir, "entries/2024-05-01");
    assert!(select.is_none());
    assert_eq!(model.selected_date(), Date { year: 2024, month: 5, day: 1 });

    // The date folder exists but holds nothing.
    let e = model.refresh_menu(Some(Vec::new()), None);
    assert_eq!(e, Effect::Done);
    assert_eq!(model.num_menu_listings(), 0);
    assert_eq!(model.editbox_textarea.area.lines(), [""]);
}

#[test]
fn create_file_selects_it_and_focuses_editor() {
    let mut model = on(2024, 5, 1);
    let e = update(&mut model, Message::OpenFilenameEditbox);
    assert_eq!(e, Effect::Done);
    assert_eq!(*model.active_window(), ActiveWindow::TextPopup);

    type_text(&mut model, "todo.txt");
    assert_eq!(model.popup_textarea_content(), "todo.txt");

    let msg = handle_key(&mut model, KeyInput::plain(KeyCode::Enter));
    assert_eq!(msg, Some(Message::CreateFile));

    let e = update(&mut model, Message::CreateFile);
    let (dir, filename) = match e {
        Effect::CreateEntry { dir, filename } => (dir, filename),
        other => panic!("expected a create request, got {:?}", other),
    };
    assert_eq!(dir, "entries/2024-05-01");
    assert_eq!(filename, "todo.txt");

    let e = model.file_created(true);
    assert_eq!(*model.active_window(), ActiveWindow::EditBox);
    let (dir, select) = match e {
        Effect::ListDir { dir, select } => (dir, select),
        other => panic!("expected a listing request, got {:?}", other),
    };
    assert_eq!(dir, "entries/2024-05-01");
    assert_eq!(select.as_deref(), Some("todo.txt"));

    let listing = vec![MenuListing::new(
        String::from("entries/2024-05-01/todo.txt"),
        String::from("todo.txt"),
    )];
    let name = String::from("todo.txt");
    let e = model.refresh_menu(Some(listing), Some(&name));
    match e {
        Effect::ReadEntry { index, path } => {
            assert_eq!(index, 0);
            assert_eq!(path, "entries/2024-05-01/todo.txt");
        }
        other => panic!("expected a read request, got {:?}", other),
    }
    model.load_selected_content(0, Some(String::new()));

    assert_eq!(model.num_menu_listings(), 1);
    assert_eq!(model.listings()[0].filename, "todo.txt");
    assert_eq!(model.selected_file_idx(), 0);
}

#[test]
fn save_writes_joined_lines_and_reload_restores_them() {
    let mut model = on(2024, 5, 1);
    let listing = vec![MenuListing::new(
        String::from("entries/2024-05-01/a.txt"),
        String::from("a.txt"),
    )];
    let e = model.refresh_menu(Some(listing), None);
    assert!(matches!(e, Effect::ReadEntry { index: 0, .. }));
    model.load_selected_content(0, Some(String::from("line1\nline2")));
    assert_eq!(model.editbox_textarea.area.lines(), ["line1", "line2"]);

    let e = update(&mut model, Message::SaveFile);
    let (path, content) = match e {
        Effect::WriteEntry { path, content } => (path, content),
        other => panic!("expected a write request, got {:?}", other),
    };
    assert_eq!(path, "entries/2024-05-01/a.txt");
    // Two lines joined by one newline, no trailing blank line.
    assert_eq!(content, "line1\nline2");

    // Reloading what was written restores the very same buffer.
    model.load_selected_content(0, Some(content));
    assert_eq!(model.editbox_textarea.area.lines(), ["line1", "line2"]);
}

#[test]
fn save_with_nothing_selected_opens_the_filename_prompt() {
    let mut model = on(2024, 5, 1);
    assert_eq!(model.num_menu_listings(), 0);

    let e = update(&mut model, Message::SaveFile);
    assert_eq!(e, Effect::Chain(Message::OpenFilenameEditbox));

    let e = update(&mut model, Message::OpenFilenameEditbox);
    assert_eq!(e, Effect::Done);
    assert_eq!(*model.active_window(), ActiveWindow::TextPopup);
}

#[test]
fn day_shift_across_month_boundary_is_rejected() {
    let mut model = on(2024, 5, 31);
    let e = update(&mut model, Message::ToggleCalendar);
    assert_eq!(e, Effect::Done);

    let e = update(&mut model, Message::Right);
    assert_eq!(e, Effect::Done);
    assert_eq!(model.selected_date(), Date { year: 2024, month: 5, day: 31 });
}

#[test]
fn quit_terminates() {
    let mut model = on(2024, 5, 1);
    assert_eq!(model.running_state, RunningState::Running);
    assert!(!model.done());
    let e = update(&mut model, Message::Quit);
    assert_eq!(e, Effect::Done);
    assert!(model.done());
    assert_eq!(model.running_state, RunningState::Done);
}
