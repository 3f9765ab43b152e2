use demo_sqlite::config::{Theme, BOLD};
use demo_sqlite::error::Error;
use demo_sqlite::tui::{
    error_modal_text_of, password_mask_of, password_text, password_title_of, row_cells, table_header,
    table_title, Effect, FindItemState, KeyCode, KeyEvent, KeyEventKind, Margin, MouseEventKind,
    PasswordEntryState, Rect, State, UiEvent,
};

fn press(code: KeyCode) -> UiEvent {
    UiEvent::Key(KeyEvent { code, kind: KeyEventKind::Press, ctrl: false })
}

fn ctrl(c: char) -> UiEvent {
    UiEvent::Key(KeyEvent { code: KeyCode::Char(c), kind: KeyEventKind::Press, ctrl: true })
}

#[test]
fn starts_on_first_row() {
    let s = State::new(Theme::builtin(), 3);
    assert!(s.is_running());
    assert_eq!(s.selected(), Some(0));
    assert_eq!(State::new(Theme::builtin(), 0).selected(), None);
    assert!(s.main_table_has_focus());
}

#[test]
fn table_navigation() {
    let mut s = State::new(Theme::builtin(), 3);
    assert_eq!(s.handle_event(press(KeyCode::Down)), Effect::Nothing);
    assert_eq!(s.selected(), Some(1));
    s.handle_event(press(KeyCode::Char('j')));
    s.handle_event(press(KeyCode::Tab));
    assert_eq!(s.selected(), Some(3));
    s.handle_event(press(KeyCode::Char('K')));
    assert_eq!(s.selected(), Some(2));
    s.handle_event(press(KeyCode::Char('1')));
    assert_eq!(s.selected(), Some(0));
    s.handle_event(press(KeyCode::Up));
    assert_eq!(s.selected(), Some(0));
    s.handle_event(press(KeyCode::Char('0')));
    assert_eq!(s.selected(), Some(usize::MAX));
    s.handle_event(UiEvent::Mouse(MouseEventKind::ScrollDown));
    assert_eq!(s.selected(), Some(usize::MAX));
    s.handle_event(UiEvent::Mouse(MouseEventKind::ScrollUp));
    assert_eq!(s.selected(), Some(usize::MAX - 1));
    s.set_selected(None);
    s.handle_event(UiEvent::Mouse(MouseEventKind::ScrollUp));
    assert_eq!(s.selected(), Some(usize::MAX));
}

#[test]
fn released_keys_do_nothing_in_the_table() {
    let mut s = State::new(Theme::builtin(), 3);
    let ev = UiEvent::Key(KeyEvent { code: KeyCode::Char('q'), kind: KeyEventKind::Release, ctrl: false });
    assert_eq!(s.handle_event(ev), Effect::Nothing);
    assert!(s.is_running());
    s.handle_event(press(KeyCode::Char('Q')));
    assert!(!s.is_running());
}

#[test]
fn copying_a_secret() {
    let mut s = State::new(Theme::builtin(), 3);
    s.handle_event(press(KeyCode::Char('c')));
    assert_eq!(s.passwd_entry(), Some(PasswordEntryState { is_visible: false }));
    assert!(!s.main_table_has_focus());
    assert_eq!(s.handle_event(press(KeyCode::Char('x'))), Effect::EditPassword);
    assert_eq!(s.handle_event(UiEvent::Other), Effect::EditPassword);
    assert_eq!(s.handle_event(ctrl('h')), Effect::Nothing);
    assert_eq!(s.passwd_entry(), Some(PasswordEntryState { is_visible: true }));
    s.handle_event(ctrl('H'));
    assert_eq!(s.passwd_entry(), Some(PasswordEntryState { is_visible: false }));
    s.handle_event(press(KeyCode::Down));
    assert_eq!(s.selected(), Some(0));
    assert_eq!(s.handle_event(press(KeyCode::Enter)), Effect::CopySecret(0));
    assert_eq!(s.passwd_entry(), None);
}

#[test]
fn copying_without_selection_shows_an_error() {
    let mut s = State::new(Theme::builtin(), 0);
    s.handle_event(press(KeyCode::Enter));
    assert_eq!(s.handle_event(press(KeyCode::Enter)), Effect::Nothing);
    assert!(matches!(s.popup_error(), Some(Error::SelectionRequired)));
    // the popup takes every event until Escape
    assert_eq!(s.handle_event(press(KeyCode::Char('q'))), Effect::Nothing);
    assert!(s.is_running());
    s.handle_event(press(KeyCode::Esc));
    assert!(s.popup_error().is_none());
}

#[test]
fn escape_cancels_password_entry() {
    let mut s = State::new(Theme::builtin(), 2);
    s.handle_event(press(KeyCode::Char('C')));
    assert_eq!(s.handle_event(press(KeyCode::Esc)), Effect::Nothing);
    assert_eq!(s.passwd_entry(), None);
}

#[test]
fn find_panel() {
    let mut s = State::new(Theme::builtin(), 5);
    s.handle_event(press(KeyCode::Char('/')));
    assert_eq!(s.find(), Some(FindItemState { has_focus: true }));
    assert_eq!(s.handle_event(press(KeyCode::Char('q'))), Effect::EditSearchThenSync);
    assert!(s.is_running());
    assert_eq!(s.search_term(Some("  abc \t")), Some("%abc%".to_string()));
    assert_eq!(s.search_term(None), None);
    assert_eq!(s.search_term(Some("\u{3000}x y\u{a0}\n")), Some("%x y%".to_string()));
    assert_eq!(s.search_term(Some("   ")), Some("%%".to_string()));
    assert_eq!(s.handle_event(press(KeyCode::Enter)), Effect::Nothing);
    assert_eq!(s.find(), Some(FindItemState { has_focus: false }));
    assert!(s.main_table_has_focus());
    // without the focus, keys go to the table
    s.handle_event(press(KeyCode::Down));
    assert_eq!(s.selected(), Some(1));
    s.handle_event(press(KeyCode::Char('f')));
    assert_eq!(s.find(), Some(FindItemState { has_focus: true }));
    assert_eq!(s.handle_event(press(KeyCode::Esc)), Effect::Sync);
    assert_eq!(s.find(), None);
    assert_eq!(s.search_term(Some("abc")), None);
}

#[test]
fn reload_adjusts_the_selection() {
    let mut s = State::new(Theme::builtin(), 5);
    assert_eq!(s.handle_event(press(KeyCode::Char('r'))), Effect::Sync);
    s.finish_sync(Ok(5));
    assert_eq!(s.selected(), Some(4));
    s.set_selected(Some(1));
    s.finish_sync(Ok(2));
    assert_eq!(s.selected(), Some(1));
    s.set_selected(Some(0));
    s.finish_sync(Ok(5));
    assert_eq!(s.selected(), Some(4));
    s.set_selected(None);
    s.finish_sync(Ok(0));
    assert_eq!(s.selected(), None);
    s.finish_sync(Ok(1));
    assert_eq!(s.selected(), Some(0));
    s.finish_sync(Err(Error::Db("locked".to_string())));
    assert!(matches!(s.popup_error(), Some(Error::Db(_))));
}

#[test]
fn layout_of_the_screen() {
    let full = Rect { x: 0, y: 0, width: 100, height: 40 };
    let mut s = State::new(Theme::builtin(), 1);
    let l = s.layout(full);
    assert_eq!(l.table_area, Rect { x: 0, y: 0, width: 100, height: 20 });
    assert_eq!(l.input_area, None);
    assert_eq!(l.dialog_area, None);
    s.handle_event(press(KeyCode::Char('f')));
    s.report_error(Error::SecretRequired);
    let l = s.layout(full);
    assert_eq!(l.table_area, Rect { x: 0, y: 0, width: 100, height: 17 });
    assert_eq!(l.input_area, Some(Rect { x: 0, y: 17, width: 100, height: 3 }));
    assert_eq!(l.dialog_area, Some(Rect { x: 13, y: 7, width: 74, height: 6 }));
    let small = s.layout(Rect { x: 2, y: 1, width: 10, height: 7 });
    assert_eq!(small.table_area, Rect { x: 2, y: 1, width: 10, height: 0 });
    assert_eq!(small.dialog_area, Some(Rect { x: 2, y: 1, width: 10, height: 3 }));
}

#[test]
fn inner_area() {
    let r = Rect { x: 1, y: 2, width: 10, height: 6 };
    assert_eq!(r.inner(Margin { horizontal: 2, vertical: 1 }), Rect { x: 3, y: 3, width: 6, height: 4 });
    assert_eq!(r.inner(Margin { horizontal: 6, vertical: 1 }), Rect { x: 0, y: 0, width: 0, height: 0 });
    let wide = Rect { x: 0, y: 0, width: u16::MAX, height: u16::MAX };
    assert_eq!(
        wide.inner(Margin { horizontal: u16::MAX, vertical: 0 }),
        Rect { x: u16::MAX, y: 0, width: 0, height: u16::MAX }
    );
}

#[test]
fn widget_texts() {
    assert_eq!(error_modal_text_of(&Error::SecretRequired), "\nSecret is required\n");
    assert_eq!(password_title_of(true), " <^H> Hide password ");
    assert_eq!(password_title_of(false), " <^H> Show password ");
    assert_eq!(password_mask_of(true), None);
    assert_eq!(password_mask_of(false), Some('\u{25cf}'));
    assert_eq!(password_text(&["ab".to_string(), "c".to_string()]), "ab\nc");
    assert_eq!(password_text(&[]), "");
    assert_eq!(table_title("1.2.3"), " SteelSafe v1.2.3 (read-only) ");
    assert_eq!(row_cells("bank", None, "2024-01-01 10:00:00"), vec!["bank", "", "2024-01-01 10:00:00"]);
    assert_eq!(row_cells("mail", Some("me"), "t"), vec!["mail", "me", "t"]);
    assert_eq!(table_header(), vec!["Title", "Username or account", "Modified at (UTC)"]);
}

#[test]
fn styles_follow_focus() {
    let mut s = State::new(Theme::builtin(), 1);
    let t = Theme::builtin();
    assert_eq!(s.table_border_style(), t.border().add_modifier(BOLD));
    let (text, border) = s.find_field_styles(true);
    assert_eq!(text, t.default().add_modifier(BOLD));
    assert_eq!(border, t.border().add_modifier(BOLD));
    assert_eq!(s.find_field_styles(false), (t.default(), t.border()));
    s.handle_event(press(KeyCode::Char('c')));
    assert_eq!(s.table_border_style(), t.border());
    let (text, border) = s.error_modal_styles();
    assert_eq!(text, t.error());
    assert_eq!(border, t.error().add_modifier(BOLD));
}

#[test]
fn layout_near_the_last_row_number() {
    let mut s = State::new(Theme::builtin(), 1);
    s.handle_event(press(KeyCode::Char('f')));
    let l = s.layout(Rect { x: 0, y: 65530, width: 20, height: 8 });
    assert_eq!(l.table_area, Rect { x: 0, y: 65530, width: 20, height: 1 });
    assert_eq!(l.input_area, Some(Rect { x: 0, y: 65531, width: 20, height: 3 }));
}
