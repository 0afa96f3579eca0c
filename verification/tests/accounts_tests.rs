use nixos_installer::accounts::UserAccounts;
use nixos_installer::keys::{Key, Signal};
use nixos_installer::user::{HomeManagerCfg, User};

fn strings(items: &[&str]) -> Vec<String> {
    items.iter().map(|s| s.to_string()).collect()
}

fn users() -> Vec<User> {
    vec![
        User { username: "alice".into(), password_hash: "h".into(), groups: strings(&["wheel"]), home_manager_cfg: None },
        User {
            username: "bob".into(),
            password_hash: "h".into(),
            groups: vec![],
            home_manager_cfg: Some(HomeManagerCfg { packages: vec![] }),
        },
    ]
}

#[test]
fn accounts_table_lists_add_row_then_users() {
    let page = UserAccounts::new(users());
    assert!(page.user_table.is_focused());
    assert!(!page.buttons.is_focused());
    assert_eq!(page.user_table.row_count(), 3);
    assert_eq!(page.user_table.cell(0, 0), Some("Add a new user".to_string()));
    assert_eq!(page.user_table.cell(1, 1), Some("wheel".to_string()));
    assert_eq!(page.user_table.cell(2, 2), Some("yes".to_string()));
    assert_eq!(page.buttons.labels(), strings(&["Back"]));
}

#[test]
fn enter_on_first_row_adds_a_user() {
    let us = users();
    let mut page = UserAccounts::new(us.clone());
    assert!(matches!(page.handle_input(&us, Key::Enter), Signal::PushAddUser));
}

#[test]
fn enter_on_user_row_alters_that_user() {
    let us = users();
    let mut page = UserAccounts::new(us.clone());
    page.handle_input(&us, Key::Char('j'));
    match page.handle_input(&us, Key::Char('l')) {
        Signal::PushAlterUser { user_index, groups } => {
            assert_eq!(user_index, 0);
            assert_eq!(groups, strings(&["wheel"]));
        }
        other => panic!("unexpected {:?}", other),
    }
}

#[test]
fn moving_past_the_table_reaches_the_menu_and_back() {
    let us = users();
    let mut page = UserAccounts::new(us.clone());
    page.handle_input(&us, Key::Up);
    assert!(page.buttons.is_focused());
    assert!(!page.user_table.is_focused());
    page.handle_input(&us, Key::Down);
    assert!(page.user_table.is_focused());
    assert_eq!(page.user_table.selected_row(), Some(0));
    page.handle_input(&us, Key::Up);
    page.handle_input(&us, Key::Up);
    assert!(page.user_table.is_focused());
    assert_eq!(page.user_table.selected_row(), Some(2));
}

#[test]
fn back_button_and_back_keys_leave() {
    let us = users();
    let mut page = UserAccounts::new(us.clone());
    assert!(matches!(page.handle_input(&us, Key::Esc), Signal::Pop));
    page.handle_input(&us, Key::Up);
    assert!(matches!(page.handle_input(&us, Key::Enter), Signal::Pop));
    assert!(matches!(page.handle_input(&us, Key::Char('h')), Signal::Pop));
}

#[test]
fn help_swallows_keys_until_closed() {
    let us = users();
    let mut page = UserAccounts::new(us.clone());
    page.handle_input(&us, Key::Char('?'));
    assert!(page.help_modal().is_visible());
    assert!(matches!(page.handle_input(&us, Key::Enter), Signal::Wait));
    assert!(matches!(page.handle_input(&us, Key::Char('q')), Signal::Wait));
    assert!(!page.help_modal().is_visible());
    assert!(matches!(page.handle_input(&us, Key::Enter), Signal::PushAddUser));
}

#[test]
fn no_selected_row_is_an_error() {
    let us = users();
    let mut page = UserAccounts::new(us.clone());
    page.handle_input(&us, Key::Up);
    page.handle_input(&us, Key::Up);
    // The table's last row is selected; with one user fewer it no longer exists.
    let fewer = vec![us[0].duplicate()];
    page.user_table.set_rows(vec![strings(&["Add a new user", ""])]);
    match page.handle_input(&fewer, Key::Enter) {
        Signal::Error(msg) => assert_eq!(msg, "No user selected"),
        other => panic!("unexpected {:?}", other),
    }
}

#[test]
fn refresh_rebuilds_rows_and_fixes_selection() {
    let us = users();
    let mut page = UserAccounts::new(us.clone());
    page.handle_input(&us, Key::Up);
    page.handle_input(&us, Key::Up);
    assert_eq!(page.user_table.selected_row(), Some(2));
    let fewer = vec![us[0].duplicate()];
    page.refresh(&fewer);
    assert_eq!(page.user_table.row_count(), 2);
    assert_eq!(page.user_table.selected_row(), Some(1));
}

#[test]
fn summary_table_needs_users() {
    assert!(UserAccounts::display_widget(&Vec::new()).is_none());
    let t = UserAccounts::display_widget(&users()).unwrap();
    assert_eq!(t.row_count(), 2);
    assert_eq!(t.cell(0, 0), Some("alice".to_string()));
    assert!(!t.is_focused());
}

#[test]
fn accounts_texts() {
    let page = UserAccounts::new(users());
    let (title, lines) = page.get_help_content();
    assert_eq!(title, "User Accounts");
    assert_eq!(lines.len(), 9);
    assert_eq!(lines[1][0].text, "Enter, →, j");
    assert_eq!(page.help_modal().content()[1][0].text, "Enter →, l");
    let (title, info) = UserAccounts::page_info();
    assert_eq!(title, "User Accounts");
    assert_eq!(info[0][0].text, "Manage user accounts for the system.");
}

#[test]
fn tab_switches_between_table_and_menu() {
    let us = users();
    let mut page = UserAccounts::new(us.clone());
    page.handle_input(&us, Key::Down);
    assert!(matches!(page.handle_input(&us, Key::Tab), Signal::Wait));
    assert!(page.buttons.is_focused());
    assert!(!page.user_table.is_focused());
    assert!(matches!(page.handle_input(&us, Key::Tab), Signal::Wait));
    assert!(page.user_table.is_focused());
    assert!(!page.buttons.is_focused());
    assert_eq!(page.user_table.selected_row(), Some(1));
}
