use nixos_installer::keys::Key;
use nixos_installer::picker::PackagePicker;

fn strings(items: &[&str]) -> Vec<String> {
    items.iter().map(|s| s.to_string()).collect()
}

fn picker() -> PackagePicker {
    PackagePicker::new("Chosen", "Offered", strings(&["git"]), strings(&["git", "vim", "neovim", "emacs"]))
}

#[test]
fn enter_on_offered_list_adds_once() {
    let mut p = picker();
    p.handle_input(Key::Down);
    p.handle_input(Key::Enter);
    assert_eq!(p.get_selected_packages(), strings(&["git", "vim"]));
    p.handle_input(Key::Enter);
    assert_eq!(p.get_selected_packages(), strings(&["git", "vim"]));
    p.handle_input(Key::Up);
    p.handle_input(Key::Enter);
    assert_eq!(p.get_selected_packages(), strings(&["git", "vim"]));
}

#[test]
fn enter_on_chosen_list_removes() {
    let mut p = picker();
    p.handle_input(Key::Tab);
    assert!(p.on_selected_list());
    p.handle_input(Key::Enter);
    assert_eq!(p.get_selected_packages(), Vec::<String>::new());
    p.handle_input(Key::Enter);
    assert_eq!(p.get_selected_packages(), Vec::<String>::new());
}

#[test]
fn search_narrows_offered_list() {
    let mut p = picker();
    p.handle_input(Key::Char('/'));
    assert!(p.search_bar().is_focused());
    for c in "vim".chars() {
        p.handle_input(Key::Char(c));
    }
    assert_eq!(p.visible_packages(), strings(&["vim", "neovim"]));
    p.handle_input(Key::Esc);
    assert!(!p.search_bar().is_focused());
    p.handle_input(Key::Char('j'));
    assert_eq!(p.cursors(), (1, 0));
    p.handle_input(Key::Enter);
    assert_eq!(p.get_selected_packages(), strings(&["git", "neovim"]));
}

#[test]
fn tab_cycles_lists_and_search() {
    let mut p = picker();
    p.handle_input(Key::Tab);
    assert!(p.on_selected_list());
    p.handle_input(Key::Tab);
    assert!(p.search_bar().is_focused());
    assert!(!p.on_selected_list());
    p.handle_input(Key::Tab);
    assert!(!p.search_bar().is_focused());
}

#[test]
fn cursor_stops_at_list_ends() {
    let mut p = picker();
    p.handle_input(Key::Up);
    assert_eq!(p.cursors(), (0, 0));
    for _ in 0..10 {
        p.handle_input(Key::Down);
    }
    assert_eq!(p.cursors(), (3, 0));
}

#[test]
fn filter_persists_while_adding_and_removing() {
    let mut p = picker();
    p.handle_input(Key::Char('/'));
    for c in "vim".chars() {
        p.handle_input(Key::Char(c));
    }
    p.handle_input(Key::Enter);
    p.handle_input(Key::Enter);
    assert_eq!(p.get_selected_packages(), strings(&["git", "vim"]));
    assert_eq!(p.search_bar().value(), "vim");
    assert_eq!(p.visible_packages(), strings(&["vim", "neovim"]));
    p.handle_input(Key::Tab);
    p.handle_input(Key::Enter);
    assert_eq!(p.get_selected_packages(), strings(&["vim"]));
    assert_eq!(p.search_bar().value(), "vim");
    assert_eq!(p.visible_packages(), strings(&["vim", "neovim"]));
}
