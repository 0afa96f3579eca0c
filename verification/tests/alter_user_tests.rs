use nixos_installer::alter_user::{AlterPart, AlterUser};
use nixos_installer::keys::{Key, Signal};
use nixos_installer::user::{HomeManagerCfg, User};

fn strings(items: &[&str]) -> Vec<String> {
    items.iter().map(|s| s.to_string()).collect()
}

fn users() -> Vec<User> {
    vec![
        User { username: "alice".into(), password_hash: "a".into(), groups: strings(&["wheel"]), home_manager_cfg: None },
        User {
            username: "bob".into(),
            password_hash: "b".into(),
            groups: strings(&["audio", "video"]),
            home_manager_cfg: Some(HomeManagerCfg { packages: strings(&["git"]) }),
        },
    ]
}

fn type_text(page: &mut AlterUser, us: &mut Vec<User>, text: &str) {
    for c in text.chars() {
        page.handle_input(us, Key::Char(c));
    }
}

fn pick_option(page: &mut AlterUser, us: &mut Vec<User>, index: usize) -> Signal {
    page.buttons.first_child();
    for _ in 0..index {
        page.handle_input(us, Key::Down);
    }
    page.handle_input(us, Key::Enter)
}

#[test]
fn new_page_shows_menu() {
    let page = AlterUser::new(1, strings(&["audio"]));
    assert!(page.buttons.is_focused());
    assert_eq!(
        page.buttons.labels(),
        strings(&["Change username", "Change password", "Edit Groups", "Configure Home Manager", "Delete user"])
    );
    assert_eq!(page.group_list.items(), strings(&["audio"]));
    assert_eq!(page.selected_user, 1);
}

#[test]
fn rename_user() {
    let mut us = users();
    let mut page = AlterUser::new(0, strings(&["wheel"]));
    pick_option(&mut page, &mut us, 0);
    assert!(page.name_input.is_focused());
    page.handle_input(&mut us, Key::Enter);
    assert_eq!(page.name_input.error_message(), Some("Username cannot be empty".to_string()));
    type_text(&mut page, &mut us, "alicia");
    page.handle_input(&mut us, Key::Enter);
    assert_eq!(us[0].username, "alicia");
    assert_eq!(us[1].username, "bob");
    assert!(page.buttons.is_focused());
}

#[test]
fn q_closes_username_field() {
    let mut us = users();
    let mut page = AlterUser::new(0, vec![]);
    pick_option(&mut page, &mut us, 0);
    page.handle_input(&mut us, Key::Char('q'));
    assert!(page.buttons.is_focused());
    assert!(!page.name_input.is_focused());
    assert_eq!(us[0].username, "alice");
}

#[test]
fn change_password() {
    let mut us = users();
    let mut page = AlterUser::new(1, vec![]);
    pick_option(&mut page, &mut us, 1);
    assert!(page.pass_input.is_focused());
    type_text(&mut page, &mut us, "pw");
    page.handle_input(&mut us, Key::Tab);
    type_text(&mut page, &mut us, "pw");
    let password = match page.handle_input(&mut us, Key::Enter) {
        Signal::HashPassword { password } => password,
        other => panic!("unexpected {:?}", other),
    };
    assert_eq!(password, "pw");
    assert!(matches!(page.complete_password(&mut us, Ok("NEW".into())), Signal::Wait));
    assert_eq!(us[1].password_hash, "NEW");
    assert_eq!(us[0].password_hash, "a");
    assert!(page.buttons.is_focused());
    assert!(!page.pass_confirm.is_focused());
}

#[test]
fn password_mismatch_empties_fields() {
    let mut us = users();
    let mut page = AlterUser::new(1, vec![]);
    pick_option(&mut page, &mut us, 1);
    type_text(&mut page, &mut us, "one");
    page.handle_input(&mut us, Key::Enter);
    type_text(&mut page, &mut us, "two");
    assert!(matches!(page.handle_input(&mut us, Key::Enter), Signal::Wait));
    assert_eq!(page.pass_confirm.error_message(), Some("Passwords do not match".to_string()));
    assert_eq!(page.pass_input.value(), "");
    assert_eq!(page.pass_confirm.value(), "");
    assert!(page.pass_confirm.is_focused());
    match page.complete_password(&mut us, Err("boom".into())) {
        Signal::Error(msg) => assert_eq!(msg, "Failed to hash password: boom"),
        other => panic!("unexpected {:?}", other),
    }
    assert_eq!(us[1].password_hash, "b");
}

#[test]
fn empty_password_is_refused() {
    let mut us = users();
    let mut page = AlterUser::new(1, vec![]);
    pick_option(&mut page, &mut us, 1);
    page.handle_input(&mut us, Key::Enter);
    assert_eq!(page.pass_input.error_message(), Some("Password cannot be empty".to_string()));
    page.handle_input(&mut us, Key::Esc);
    assert!(page.buttons.is_focused());
}

#[test]
fn add_and_remove_groups() {
    let mut us = users();
    let mut page = AlterUser::new(0, strings(&["wheel"]));
    pick_option(&mut page, &mut us, 2);
    assert!(page.group_name_input.is_focused());
    page.handle_input(&mut us, Key::Enter);
    assert_eq!(page.group_name_input.error_message(), Some("Group name cannot be empty".to_string()));
    type_text(&mut page, &mut us, "wheel");
    page.handle_input(&mut us, Key::Enter);
    assert_eq!(page.group_name_input.error_message(), Some("User already in group".to_string()));
    assert_eq!(us[0].groups, strings(&["wheel"]));
    page.group_name_input.clear();
    type_text(&mut page, &mut us, "docker");
    page.handle_input(&mut us, Key::Enter);
    assert_eq!(us[0].groups, strings(&["wheel", "docker"]));
    assert_eq!(page.group_list.items(), strings(&["wheel", "docker"]));
    assert_eq!(page.group_name_input.value(), "");
    page.handle_input(&mut us, Key::Tab);
    assert!(page.group_list.is_focused());
    page.handle_input(&mut us, Key::Down);
    page.handle_input(&mut us, Key::Enter);
    assert_eq!(us[0].groups, strings(&["wheel"]));
    page.handle_input(&mut us, Key::Enter);
    assert!(us[0].groups.is_empty());
    assert!(page.group_name_input.is_focused());
    assert!(!page.group_list.is_focused());
    assert_eq!(us[1].groups, strings(&["audio", "video"]));
}

#[test]
fn tab_to_empty_group_list_stays() {
    let mut us = users();
    let mut page = AlterUser::new(0, vec![]);
    pick_option(&mut page, &mut us, 2);
    page.handle_input(&mut us, Key::Tab);
    assert!(page.group_name_input.is_focused());
    page.handle_input(&mut us, Key::Esc);
    assert!(page.buttons.is_focused());
}

#[test]
fn delete_needs_confirmation() {
    let mut us = users();
    let mut page = AlterUser::new(0, vec![]);
    assert!(matches!(pick_option(&mut page, &mut us, 4), Signal::Wait));
    assert!(page.confirming_delete());
    assert_eq!(page.buttons.labels()[4], "Really?");
    assert_eq!(us.len(), 2);
    assert!(matches!(page.handle_input(&mut us, Key::Enter), Signal::Pop));
    assert_eq!(us.len(), 1);
    assert_eq!(us[0].username, "bob");
}

#[test]
fn other_key_withdraws_deletion() {
    let mut us = users();
    let mut page = AlterUser::new(0, vec![]);
    pick_option(&mut page, &mut us, 4);
    page.handle_input(&mut us, Key::Down);
    assert!(!page.confirming_delete());
    assert_eq!(page.buttons.labels()[4], "Delete user");
    page.handle_input(&mut us, Key::Up);
    assert!(matches!(page.handle_input(&mut us, Key::Enter), Signal::Wait));
    assert_eq!(us.len(), 2);
}

#[test]
fn menu_wraps_round() {
    let mut us = users();
    let mut page = AlterUser::new(0, vec![]);
    page.handle_input(&mut us, Key::Char('k'));
    assert_eq!(page.buttons.selected_child(), Some(4));
    page.handle_input(&mut us, Key::Char('j'));
    assert_eq!(page.buttons.selected_child(), Some(0));
}

#[test]
fn home_manager_choice_carries_configuration() {
    let mut us = users();
    let mut page = AlterUser::new(1, vec![]);
    match pick_option(&mut page, &mut us, 3) {
        Signal::PushConfigureHomeManager { user_index, existing } => {
            assert_eq!(user_index, 1);
            assert_eq!(existing.unwrap().packages, strings(&["git"]));
        }
        other => panic!("unexpected {:?}", other),
    }
    let mut page = AlterUser::new(0, vec![]);
    assert!(matches!(
        pick_option(&mut page, &mut us, 3),
        Signal::PushConfigureHomeManager { user_index: 0, existing: None }
    ));
}

#[test]
fn back_keys_leave_from_menu() {
    let mut us = users();
    let mut page = AlterUser::new(0, vec![]);
    assert!(matches!(page.handle_input(&mut us, Key::Left), Signal::Pop));
}

#[test]
fn drawn_part_follows_focus() {
    let mut us = users();
    let mut page = AlterUser::new(0, vec![]);
    assert_eq!(page.part_to_render(), AlterPart::MainMenu);
    pick_option(&mut page, &mut us, 1);
    assert_eq!(page.part_to_render(), AlterPart::PassChange);
    page.pass_input.unfocus();
    assert_eq!(page.part_to_render(), AlterPart::MainMenu);
    assert!(page.buttons.is_focused());
}

#[test]
fn help_swallows_keys() {
    let mut us = users();
    let mut page = AlterUser::new(0, vec![]);
    page.handle_input(&mut us, Key::Char('?'));
    assert!(matches!(page.handle_input(&mut us, Key::Left), Signal::Wait));
    page.handle_input(&mut us, Key::Esc);
    assert!(!page.help_modal().is_visible());
    let (title, lines) = page.get_help_content();
    assert_eq!(title, "Alter User");
    assert_eq!(lines.len(), 8);
    assert_eq!(AlterUser::group_editor_hint()[2][1].text, "wheel");
}
