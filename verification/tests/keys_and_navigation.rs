use rustle::control::{handle_key, update, Effect, Message};
use rustle::date::Date;
use rustle::model::{ActiveWindow, MenuListing, ModelState};
use rustle::textbox::{KeyCode, KeyInput};

fn on_may_first() -> ModelState<'static> {
    ModelState::new_on(Date { year: 2024, month: 5, day: 1 })
}

fn with_entries(names: &[&str]) -> ModelState<'static> {
    let mut model = on_may_first();
    let mut listing = Vec::new();
    for name in names {
        let mut path = String::from("entries/2024-05-01/");
        path.push_str(name);
        listing.push(MenuListing::new(path, String::from(*name)));
    }
    let e = model.refresh_menu(Some(listing), None);
    if !names.is_empty() {
        assert!(matches!(e, Effect::ReadEntry { index: 0, .. }));
        model.load_selected_content(0, Some(String::new()));
    }
    model
}

#[test]
fn menu_keys_map_to_intents() {
    let mut model = on_may_first();
    assert_eq!(*model.active_window(), ActiveWindow::Menu);
    assert_eq!(
        handle_key(&mut model, KeyInput::plain(KeyCode::Char('q'))),
        Some(Message::Quit)
    );
    assert_eq!(
        handle_key(&mut model, KeyInput::plain(KeyCode::Char('c'))),
        Some(Message::ToggleCalendar)
    );
    assert_eq!(
        handle_key(&mut model, KeyInput::ctrl(KeyCode::Char('n'))),
        Some(Message::OpenFilenameEditbox)
    );
    assert_eq!(
        handle_key(&mut model, KeyInput::plain(KeyCode::Tab)),
        Some(Message::SwitchWindows(ActiveWindow::EditBox))
    );
    assert_eq!(handle_key(&mut model, KeyInput::plain(KeyCode::Up)), Some(Message::Up));
    assert_eq!(handle_key(&mut model, KeyInput::plain(KeyCode::Down)), Some(Message::Down));
    assert_eq!(handle_key(&mut model, KeyInput::plain(KeyCode::Left)), Some(Message::Left));
    assert_eq!(handle_key(&mut model, KeyInput::plain(KeyCode::Right)), Some(Message::Right));
    assert_eq!(handle_key(&mut model, KeyInput::plain(KeyCode::Enter)), Some(Message::Enter));
    // A bare 'n' means nothing on the menu.
    assert_eq!(handle_key(&mut model, KeyInput::plain(KeyCode::Char('n'))), None);
}

#[test]
fn editor_keys_map_to_intents_or_edit_the_buffer() {
    let mut model = on_may_first();
    update(&mut model, Message::SwitchWindows(ActiveWindow::EditBox));
    assert_eq!(
        handle_key(&mut model, KeyInput::plain(KeyCode::Tab)),
        Some(Message::SwitchWindows(ActiveWindow::Menu))
    );
    assert_eq!(
        handle_key(&mut model, KeyInput::ctrl(KeyCode::Char('s'))),
        Some(Message::SaveFile)
    );
    assert_eq!(
        handle_key(&mut model, KeyInput::ctrl(KeyCode::Char('n'))),
        Some(Message::OpenFilenameEditbox)
    );
    // Ordinary typing goes into the editor buffer, 'q' included.
    assert_eq!(handle_key(&mut model, KeyInput::plain(KeyCode::Char('q'))), None);
    assert_eq!(handle_key(&mut model, KeyInput::plain(KeyCode::Char('x'))), None);
    assert_eq!(model.editbox_textarea.area.lines(), ["qx"]);
}

#[test]
fn prompt_keys_map_to_intents_or_edit_the_prompt() {
    let mut model = on_may_first();
    update(&mut model, Message::OpenFilenameEditbox);
    assert_eq!(
        handle_key(&mut model, KeyInput::plain(KeyCode::Esc)),
        Some(Message::SwitchWindows(ActiveWindow::Menu))
    );
    assert_eq!(
        handle_key(&mut model, KeyInput::plain(KeyCode::Enter)),
        Some(Message::CreateFile)
    );
    assert_eq!(handle_key(&mut model, KeyInput::plain(KeyCode::Char('a'))), None);
    assert_eq!(model.popup_textarea_content(), "a");
}

#[test]
fn selection_moves_are_clamped_and_never_wrap() {
    let mut model = with_entries(&["a.txt", "b.txt", "c.txt"]);
    assert_eq!(model.selected_file_idx(), 0);

    // Up from the first entry stays put.
    let e = update(&mut model, Message::Up);
    assert_eq!(e, Effect::Done);
    assert_eq!(model.selected_file_idx(), 0);

    for expected in [1usize, 2] {
        let e = update(&mut model, Message::Down);
        match e {
            Effect::ReadEntry { index, .. } => assert_eq!(index, expected),
            other => panic!("expected a read request, got {:?}", other),
        }
        // The selection moves only once the entry's content arrives.
        assert_eq!(model.selected_file_idx(), expected - 1);
        model.load_selected_content(expected, Some(String::new()));
        assert_eq!(model.selected_file_idx(), expected);
    }

    // Down from the last entry stays put: no wrap-around.
    let e = update(&mut model, Message::Down);
    assert_eq!(e, Effect::Done);
    assert_eq!(model.selected_file_idx(), 2);
}

#[test]
fn navigation_on_empty_listing_does_nothing() {
    let mut model = with_entries(&[]);
    assert_eq!(update(&mut model, Message::Up), Effect::Done);
    assert_eq!(update(&mut model, Message::Down), Effect::Done);
    assert_eq!(model.num_menu_listings(), 0);
}

#[test]
fn refresh_selects_by_name_or_falls_back_to_first() {
    let mut model = on_may_first();
    let listing = || {
        vec![
            MenuListing::new(String::from("entries/2024-05-01/a.txt"), String::from("a.txt")),
            MenuListing::new(String::from("entries/2024-05-01/b.txt"), String::from("b.txt")),
        ]
    };
    let wanted = String::from("b.txt");
    let e = model.refresh_menu(Some(listing()), Some(&wanted));
    match e {
        Effect::ReadEntry { index, path } => {
            assert_eq!(index, 1);
            assert_eq!(path, "entries/2024-05-01/b.txt");
        }
        other => panic!("expected a read request, got {:?}", other),
    }

    let missing = String::from("zzz.txt");
    let e = model.refresh_menu(Some(listing()), Some(&missing));
    match e {
        Effect::ReadEntry { index, .. } => assert_eq!(index, 0),
        other => panic!("expected a read request, got {:?}", other),
    }
}

#[test]
fn selecting_out_of_range_is_a_no_op() {
    let mut model = with_entries(&["a.txt"]);
    assert_eq!(model.update_selected_by_index(5), Effect::Done);
    assert_eq!(model.update_selected_by_index(-1), Effect::Done);
    assert_eq!(model.selected_file_idx(), 0);
}

#[test]
fn week_shifts_are_clamped_to_the_month() {
    let mut model = ModelState::new_on(Date { year: 2024, month: 5, day: 5 });
    update(&mut model, Message::ToggleCalendar);

    // 5 - 7 leaves May: rejected.
    assert_eq!(update(&mut model, Message::Up), Effect::Done);
    assert_eq!(model.selected_date(), Date { year: 2024, month: 5, day: 5 });

    // 5 + 7 = 12 stays in May: accepted, with a rebuild of the listing.
    let e = update(&mut model, Message::Down);
    match e {
        Effect::ListDir { dir, select } => {
            assert_eq!(dir, "entries/2024-05-12");
            assert!(select.is_none());
        }
        other => panic!("expected a listing request, got {:?}", other),
    }
    assert_eq!(model.selected_date(), Date { year: 2024, month: 5, day: 12 });
    assert!(model.calendar_enabled());
}

#[test]
fn enter_closes_the_calendar_and_does_nothing_otherwise() {
    let mut model = on_may_first();
    assert_eq!(update(&mut model, Message::Enter), Effect::Done);
    assert!(!model.calendar_enabled());

    update(&mut model, Message::ToggleCalendar);
    assert!(model.calendar_enabled());
    assert_eq!(update(&mut model, Message::Enter), Effect::Done);
    assert!(!model.calendar_enabled());
}

#[test]
fn exactly_one_window_has_focus_after_each_switch() {
    let mut model = on_may_first();
    for target in [ActiveWindow::EditBox, ActiveWindow::TextPopup, ActiveWindow::Menu] {
        update(&mut model, Message::SwitchWindows(target));
        let focus = *model.active_window();
        assert_eq!(focus, target);
        let actives = [ActiveWindow::Menu, ActiveWindow::EditBox, ActiveWindow::TextPopup]
            .iter()
            .filter(|w| **w == focus)
            .count();
        assert_eq!(actives, 1);
    }
}

#[test]
fn clearing_buffers_leaves_one_empty_line() {
    let mut model = with_entries(&["a.txt"]);
    model.load_selected_content(0, Some(String::from("abc\ndef")));
    model.clear_editbox();
    assert_eq!(model.editbox_textarea.area.lines(), [""]);

    update(&mut model, Message::OpenFilenameEditbox);
    handle_key(&mut model, KeyInput::plain(KeyCode::Char('z')));
    model.clear_popup_textarea();
    assert_eq!(model.popup_textarea_content(), "");
}

#[test]
fn failed_create_changes_nothing() {
    let mut model = on_may_first();
    update(&mut model, Message::OpenFilenameEditbox);
    handle_key(&mut model, KeyInput::plain(KeyCode::Char('x')));
    let e = model.file_created(false);
    assert_eq!(e, Effect::Done);
    assert_eq!(*model.active_window(), ActiveWindow::TextPopup);
    assert_eq!(model.num_menu_listings(), 0);
    assert_eq!(model.popup_textarea_content(), "x");
}

#[test]
fn typing_with_enter_makes_lines_that_save_joins() {
    let mut model = with_entries(&["a.txt"]);
    update(&mut model, Message::SwitchWindows(ActiveWindow::EditBox));
    handle_key(&mut model, KeyInput::plain(KeyCode::Char('a')));
    handle_key(&mut model, KeyInput::plain(KeyCode::Enter));
    handle_key(&mut model, KeyInput::plain(KeyCode::Char('b')));
    assert_eq!(model.editbox_textarea.area.lines(), ["a", "b"]);

    let e = update(&mut model, Message::SaveFile);
    match e {
        Effect::WriteEntry { content, .. } => assert_eq!(content, "a\nb"),
        other => panic!("expected a write request, got {:?}", other),
    }
}

#[test]
fn spare_intents_change_nothing() {
    let mut model = with_entries(&["a.txt"]);
    assert_eq!(update(&mut model, Message::Save), Effect::Done);
    assert_eq!(update(&mut model, Message::Other), Effect::Done);
    assert_eq!(update(&mut model, Message::Left), Effect::Done);
    assert_eq!(update(&mut model, Message::Right), Effect::Done);
    assert_eq!(model.num_menu_listings(), 1);
    assert_eq!(model.selected_file_idx(), 0);
}

#[test]
fn failed_read_keeps_the_selection_and_the_buffer() {
    let mut model = with_entries(&["a.txt", "b.txt"]);
    model.load_selected_content(0, Some(String::from("keep me")));
    let e = model.update_selected_by_name(&String::from("b.txt"));
    assert!(matches!(e, Effect::ReadEntry { index: 1, .. }));
    model.load_selected_content(1, None);
    assert_eq!(model.selected_file_idx(), 0);
    assert_eq!(model.editbox_textarea.area.lines(), ["keep me"]);
}

#[test]
fn cursor_keys_reach_the_editor() {
    let mut model = with_entries(&["a.txt"]);
    update(&mut model, Message::SwitchWindows(ActiveWindow::EditBox));
    handle_key(&mut model, KeyInput::plain(KeyCode::Char('a')));
    handle_key(&mut model, KeyInput::plain(KeyCode::Char('b')));
    handle_key(&mut model, KeyInput::plain(KeyCode::Home));
    handle_key(&mut model, KeyInput::plain(KeyCode::Char('c')));
    assert_eq!(model.editbox_textarea.area.lines(), ["cab"]);
    handle_key(&mut model, KeyInput::plain(KeyCode::End));
    handle_key(&mut model, KeyInput::plain(KeyCode::Char('d')));
    assert_eq!(model.editbox_textarea.area.lines(), ["cabd"]);
}
