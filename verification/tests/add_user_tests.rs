use nixos_installer::add_user::AddUser;
use nixos_installer::keys::{Key, Signal};
use nixos_installer::user::User;

fn type_text(page: &mut AddUser, text: &str) {
    for c in text.chars() {
        assert!(matches!(page.handle_input(Key::Char(c)), Signal::Wait));
    }
}

#[test]
fn new_page_focuses_username() {
    let page = AddUser::new();
    assert!(page.name_input().is_focused());
    assert!(!page.pass_input().is_focused());
    assert!(!page.pass_confirm().is_focused());
    let d = AddUser::default();
    assert!(d.name_input().is_focused());
}

#[test]
fn empty_username_is_refused() {
    let mut page = AddUser::new();
    page.handle_input(Key::Enter);
    assert_eq!(page.name_input().error_message(), Some("Username cannot be empty".to_string()));
    assert!(page.name_input().is_focused());
    page.cycle_forward();
    assert!(page.name_input().is_focused());
}

#[test]
fn full_flow_adds_user_after_hashing() {
    let mut page = AddUser::new();
    type_text(&mut page, "alice");
    page.handle_input(Key::Enter);
    assert!(page.pass_input().is_focused());
    type_text(&mut page, "pw");
    page.handle_input(Key::Enter);
    assert!(page.pass_confirm().is_focused());
    type_text(&mut page, "pw");
    let password = match page.handle_input(Key::Enter) {
        Signal::HashPassword { password } => password,
        other => panic!("unexpected {:?}", other),
    };
    assert_eq!(password, "pw");
    let mut users: Vec<User> = vec![User::new("root".into(), "r".into())];
    assert!(matches!(page.complete(&mut users, Ok("HASH".to_string())), Signal::Pop));
    assert_eq!(users.len(), 2);
    assert_eq!(users[1].username, "alice");
    assert_eq!(users[1].password_hash, "HASH");
    assert!(users[1].groups.is_empty());
    assert!(users[1].home_manager_cfg.is_none());
}

#[test]
fn hashing_failure_is_reported_and_adds_nothing() {
    let page = AddUser::new();
    let mut users: Vec<User> = Vec::new();
    match page.complete(&mut users, Err("no mkpasswd".to_string())) {
        Signal::Error(msg) => assert_eq!(msg, "Failed to hash password: no mkpasswd"),
        other => panic!("unexpected {:?}", other),
    }
    assert!(users.is_empty());
}

#[test]
fn mismatched_passwords_go_back_to_password() {
    let mut page = AddUser::new();
    type_text(&mut page, "bob");
    page.handle_input(Key::Tab);
    type_text(&mut page, "one");
    page.handle_input(Key::Tab);
    type_text(&mut page, "two");
    assert!(matches!(page.handle_input(Key::Enter), Signal::Wait));
    assert!(page.pass_input().is_focused());
    assert!(!page.pass_confirm().is_focused());
    assert_eq!(page.pass_input().error_message(), Some("Passwords do not match".to_string()));
    assert_eq!(page.pass_confirm().value(), "");
    assert_eq!(page.pass_input().value(), "one");
}

#[test]
fn empty_password_is_refused_on_enter() {
    let mut page = AddUser::new();
    type_text(&mut page, "bob");
    page.handle_input(Key::Enter);
    page.handle_input(Key::Enter);
    assert_eq!(page.pass_input().error_message(), Some("Password cannot be empty".to_string()));
    assert!(page.pass_input().is_focused());
}

#[test]
fn tab_and_backtab_cycle_fields() {
    let mut page = AddUser::new();
    page.handle_input(Key::BackTab);
    assert!(page.pass_confirm().is_focused());
    page.handle_input(Key::BackTab);
    assert!(page.pass_input().is_focused());
    page.handle_input(Key::BackTab);
    assert!(page.name_input().is_focused());
    type_text(&mut page, "x");
    page.cycle_forward();
    assert!(page.pass_input().is_focused());
    page.cycle_forward();
    assert!(page.pass_confirm().is_focused());
    page.cycle_forward();
    assert!(page.name_input().is_focused());
}

#[test]
fn esc_leaves_and_help_toggles() {
    let mut page = AddUser::new();
    assert!(matches!(page.handle_input(Key::Char('?')), Signal::Wait));
    assert!(page.help_modal().is_visible());
    assert!(matches!(page.handle_input(Key::Esc), Signal::Wait));
    assert!(!page.help_modal().is_visible());
    assert!(matches!(page.handle_input(Key::Esc), Signal::Pop));
    let (title, lines) = page.get_help_content();
    assert_eq!(title, "Add User");
    assert_eq!(lines.len(), 11);
}

#[test]
fn help_shown_keeps_fields_and_twice_restores() {
    let mut page = AddUser::new();
    type_text(&mut page, "al");
    assert!(matches!(page.handle_input(Key::Char('?')), Signal::Wait));
    assert!(matches!(page.handle_input(Key::Char('x')), Signal::Wait));
    assert!(matches!(page.handle_input(Key::Tab), Signal::Wait));
    assert!(matches!(page.handle_input(Key::Enter), Signal::Wait));
    assert_eq!(page.name_input().value(), "al");
    assert!(page.name_input().is_focused());
    assert!(matches!(page.handle_input(Key::Char('?')), Signal::Wait));
    assert!(!page.help_modal().is_visible());
    type_text(&mut page, "ice");
    assert_eq!(page.name_input().value(), "alice");
}

#[test]
fn passwords_stay_hidden_while_typed() {
    let mut page = AddUser::new();
    assert!(page.pass_input().is_secret());
    assert!(page.pass_confirm().is_secret());
    assert!(!page.name_input().is_secret());
    type_text(&mut page, "bob");
    page.handle_input(Key::Tab);
    type_text(&mut page, "pw");
    page.handle_input(Key::Enter);
    type_text(&mut page, "px");
    page.handle_input(Key::Enter);
    assert!(page.pass_input().is_secret());
    assert!(page.pass_confirm().is_secret());
}
