use nixos_installer::keys::Key;
use nixos_installer::widgets::{LineEditor, StrList, TableWidget, WidgetBox};

fn strings(items: &[&str]) -> Vec<String> {
    items.iter().map(|s| s.to_string()).collect()
}

fn typed(text: &str) -> LineEditor {
    let mut e = LineEditor::new("Field");
    for c in text.chars() {
        e.handle_input(Key::Char(c));
    }
    e
}

#[test]
fn editor_inserts_at_cursor() {
    let mut e = typed("helo");
    e.handle_input(Key::Left);
    e.handle_input(Key::Char('l'));
    assert_eq!(e.value(), "hello");
    e.handle_input(Key::Home);
    e.handle_input(Key::Char('>'));
    assert_eq!(e.value(), ">hello");
    e.handle_input(Key::End);
    e.handle_input(Key::Char('!'));
    assert_eq!(e.value(), ">hello!");
}

#[test]
fn editor_deletes_around_cursor() {
    let mut e = typed("abc");
    e.handle_input(Key::Backspace);
    assert_eq!(e.value(), "ab");
    e.handle_input(Key::Home);
    e.handle_input(Key::Delete);
    assert_eq!(e.value(), "b");
    e.handle_input(Key::Delete);
    e.handle_input(Key::Delete);
    e.handle_input(Key::Backspace);
    assert_eq!(e.value(), "");
    assert!(e.is_empty());
}

#[test]
fn editor_type_then_backspace_restores_text() {
    let mut e = typed("wheel");
    e.handle_input(Key::Left);
    e.handle_input(Key::Left);
    e.handle_input(Key::Char('x'));
    assert_eq!(e.value(), "whexel");
    e.handle_input(Key::Backspace);
    assert_eq!(e.value(), "wheel");
}

#[test]
fn editor_errors_clear_on_edit_and_clear() {
    let mut e = typed("a");
    e.error("bad");
    assert_eq!(e.error_message(), Some("bad".to_string()));
    e.handle_input(Key::Left);
    assert_eq!(e.error_message(), Some("bad".to_string()));
    e.handle_input(Key::Char('b'));
    assert_eq!(e.error_message(), None);
    e.error("bad");
    e.clear();
    assert_eq!(e.error_message(), Some("bad".to_string()));
    assert_eq!(e.value(), "");
}

#[test]
fn editor_focus_and_secret() {
    let mut e = LineEditor::new("Password").secret(true);
    assert!(!e.is_focused());
    e.focus();
    assert!(e.is_focused());
    e.unfocus();
    assert!(!e.is_focused());
}

#[test]
fn menu_moves_and_reports_ends() {
    let mut m = WidgetBox::button_menu(strings(&["a", "b", "c"]));
    assert_eq!(m.selected_child(), Some(0));
    assert!(!m.prev_child());
    assert!(m.next_child());
    assert!(m.next_child());
    assert!(!m.next_child());
    assert_eq!(m.selected_child(), Some(2));
    m.first_child();
    assert_eq!(m.selected_child(), Some(0));
    m.last_child();
    assert_eq!(m.selected_child(), Some(2));
    m.set_children_inplace(strings(&["x", "y"]));
    assert_eq!(m.selected_child(), Some(1));
    assert_eq!(m.labels(), strings(&["x", "y"]));
    let empty = WidgetBox::button_menu(Vec::new());
    assert_eq!(empty.selected_child(), None);
}

#[test]
fn table_selection_and_fix() {
    let mut t = TableWidget::new("T", strings(&["h"]), vec![strings(&["r0"]), strings(&["r1"]), strings(&["r2"])]);
    assert!(t.next_row());
    assert!(t.next_row());
    assert!(!t.next_row());
    assert_eq!(t.selected_row(), Some(2));
    t.set_rows(vec![strings(&["only"])]);
    assert_eq!(t.selected_row(), None);
    t.fix_selection();
    assert_eq!(t.selected_row(), Some(0));
    assert_eq!(t.cell(0, 0), Some("only".to_string()));
    assert_eq!(t.cell(0, 1), None);
    assert_eq!(t.row_count(), 1);
    t.last_row();
    assert!(!t.previous_row());
}

#[test]
fn list_wraps_and_keeps_selection_on_items() {
    let mut l = StrList::new("Groups", strings(&["a", "b"]));
    l.previous_item_wrapping();
    assert_eq!(l.selected_item(), Some("b".to_string()));
    l.next_item_wrapping();
    assert_eq!(l.selected_item(), Some("a".to_string()));
    l.next_item_wrapping();
    l.set_items(strings(&["z"]));
    assert_eq!(l.selected_item(), Some("z".to_string()));
    l.set_items(Vec::new());
    assert!(l.is_empty());
    assert_eq!(l.selected_item(), None);
}
