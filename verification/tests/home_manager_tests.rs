use nixos_installer::home_manager::ConfigureHomeManager;
use nixos_installer::keys::{Key, Signal};
use nixos_installer::user::{HomeManagerCfg, User};

fn strings(items: &[&str]) -> Vec<String> {
    items.iter().map(|s| s.to_string()).collect()
}

fn users(hm: Option<&[&str]>) -> Vec<User> {
    vec![User {
        username: "alice".into(),
        password_hash: "a".into(),
        groups: vec![],
        home_manager_cfg: hm.map(|p| HomeManagerCfg { packages: strings(p) }),
    }]
}

fn offered() -> Vec<String> {
    strings(&["git", "vim"])
}

#[test]
fn new_without_configuration_asks_first() {
    let page = ConfigureHomeManager::new(0, None, offered());
    assert!(!page.confirmed);
    assert!(page.confirm_buttons.is_focused());
    assert!(!page.configuration_options.is_focused());
    assert_eq!(page.confirm_buttons.labels(), strings(&["Yes", "No"]));
    assert_eq!(page.package_picker.get_selected_packages(), Vec::<String>::new());
}

#[test]
fn new_with_configuration_shows_menu() {
    let page = ConfigureHomeManager::new(0, Some(HomeManagerCfg { packages: strings(&["git"]) }), offered());
    assert!(page.confirmed);
    assert!(page.configuration_options.is_focused());
    assert_eq!(page.package_picker.get_selected_packages(), strings(&["git"]));
    assert_eq!(
        page.configuration_options.labels(),
        strings(&["Configure User Packages", "Disable Home Manager"])
    );
}

#[test]
fn yes_turns_home_manager_on() {
    let mut us = users(None);
    let mut page = ConfigureHomeManager::new(0, None, offered());
    assert!(matches!(page.handle_input(&mut us, Key::Enter), Signal::Wait));
    assert!(page.confirmed);
    assert_eq!(us[0].home_manager_cfg.as_ref().unwrap().packages, Vec::<String>::new());
}

#[test]
fn yes_keeps_existing_packages() {
    let mut us = users(Some(&["git"]));
    let mut page = ConfigureHomeManager::new(0, None, offered());
    page.handle_input(&mut us, Key::Enter);
    assert_eq!(us[0].home_manager_cfg.as_ref().unwrap().packages, strings(&["git"]));
}

#[test]
fn no_turns_home_manager_off() {
    let mut us = users(Some(&["git"]));
    let mut page = ConfigureHomeManager::new(0, None, offered());
    page.handle_input(&mut us, Key::Down);
    assert!(matches!(page.handle_input(&mut us, Key::Enter), Signal::Pop));
    assert!(us[0].home_manager_cfg.is_none());
}

#[test]
fn picking_packages_stores_them() {
    let mut us = users(Some(&[]));
    let mut page = ConfigureHomeManager::new(0, Some(HomeManagerCfg { packages: vec![] }), offered());
    page.handle_input(&mut us, Key::Enter);
    assert!(page.picking_pkgs);
    page.handle_input(&mut us, Key::Down);
    page.handle_input(&mut us, Key::Enter);
    assert!(us[0].home_manager_cfg.as_ref().unwrap().packages.is_empty());
    assert!(matches!(page.handle_input(&mut us, Key::Esc), Signal::Wait));
    assert!(!page.picking_pkgs);
    assert_eq!(us[0].home_manager_cfg.as_ref().unwrap().packages, strings(&["vim"]));
    assert_eq!(page.user_packages(&us), Some(strings(&["vim"])));
}

#[test]
fn esc_in_search_stays_in_picker() {
    let mut us = users(Some(&[]));
    let mut page = ConfigureHomeManager::new(0, Some(HomeManagerCfg { packages: vec![] }), offered());
    page.handle_input(&mut us, Key::Enter);
    page.handle_input(&mut us, Key::Char('/'));
    page.handle_input(&mut us, Key::Char('q'));
    assert!(page.picking_pkgs);
    page.handle_input(&mut us, Key::Esc);
    assert!(page.picking_pkgs);
    page.handle_input(&mut us, Key::Char('q'));
    assert!(!page.picking_pkgs);
}

#[test]
fn disable_needs_confirmation() {
    let mut us = users(Some(&["git"]));
    let mut page = ConfigureHomeManager::new(0, Some(HomeManagerCfg { packages: strings(&["git"]) }), offered());
    page.handle_input(&mut us, Key::Down);
    assert!(matches!(page.handle_input(&mut us, Key::Enter), Signal::Wait));
    assert!(page.confirming_disable);
    assert_eq!(page.configuration_options.labels()[1], "Really?");
    assert!(us[0].home_manager_cfg.is_some());
    assert!(matches!(page.handle_input(&mut us, Key::Enter), Signal::Pop));
    assert!(us[0].home_manager_cfg.is_none());
}

#[test]
fn other_key_withdraws_disable() {
    let mut us = users(Some(&["git"]));
    let mut page = ConfigureHomeManager::new(0, Some(HomeManagerCfg { packages: strings(&["git"]) }), offered());
    page.handle_input(&mut us, Key::Down);
    page.handle_input(&mut us, Key::Enter);
    page.handle_input(&mut us, Key::Up);
    assert!(!page.confirming_disable);
    assert_eq!(page.configuration_options.labels()[1], "Disable Home Manager");
    assert!(matches!(page.handle_input(&mut us, Key::Esc), Signal::Pop));
    assert!(us[0].home_manager_cfg.is_some());
}

#[test]
fn user_packages_of_missing_user() {
    let page = ConfigureHomeManager::new(3, None, offered());
    assert_eq!(page.user_packages(&users(None)), None);
    let page = ConfigureHomeManager::new(0, None, offered());
    assert_eq!(page.user_packages(&users(None)), Some(vec![]));
    assert_eq!(ConfigureHomeManager::question()[2][2].text, "Nix");
}
