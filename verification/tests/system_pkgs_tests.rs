use nixos_installer::keys::{Key, Signal};
use nixos_installer::system_pkgs::SystemPackages;

fn strings(items: &[&str]) -> Vec<String> {
    items.iter().map(|s| s.to_string()).collect()
}

#[test]
fn choosing_a_package_updates_system_packages() {
    let mut pkgs = strings(&["git"]);
    let mut page = SystemPackages::new(pkgs.clone(), strings(&["git", "htop"]));
    page.handle_input(&mut pkgs, Key::Down);
    assert_eq!(pkgs, strings(&["git"]));
    assert!(matches!(page.handle_input(&mut pkgs, Key::Enter), Signal::Wait));
    assert_eq!(pkgs, strings(&["git", "htop"]));
    page.handle_input(&mut pkgs, Key::Tab);
    page.handle_input(&mut pkgs, Key::Enter);
    assert_eq!(pkgs, strings(&["htop"]));
}

#[test]
fn esc_and_q_leave_unless_searching() {
    let mut pkgs = Vec::new();
    let mut page = SystemPackages::new(vec![], strings(&["git"]));
    assert!(matches!(page.handle_input(&mut pkgs, Key::Esc), Signal::Pop));
    assert!(matches!(page.handle_input(&mut pkgs, Key::Char('q')), Signal::Pop));
    page.handle_input(&mut pkgs, Key::Char('/'));
    assert!(matches!(page.handle_input(&mut pkgs, Key::Char('q')), Signal::Wait));
    assert!(matches!(page.handle_input(&mut pkgs, Key::Esc), Signal::Wait));
    assert!(!page.package_picker().search_bar().is_focused());
}

#[test]
fn unchanged_choice_leaves_system_packages() {
    let mut pkgs = strings(&["unrelated"]);
    let mut page = SystemPackages::new(vec![], strings(&["git"]));
    page.handle_input(&mut pkgs, Key::Down);
    assert_eq!(pkgs, strings(&["unrelated"]));
}

#[test]
fn summary_table_lists_packages() {
    assert!(SystemPackages::display_widget(&Vec::new()).is_none());
    let t = SystemPackages::display_widget(&strings(&["git", "vim"])).unwrap();
    assert_eq!(t.row_count(), 2);
    assert_eq!(t.cell(1, 0), Some("vim".to_string()));
}

#[test]
fn system_packages_texts() {
    let page = SystemPackages::new(vec![], vec![]);
    let (title, lines) = page.get_help_content();
    assert_eq!(title, "System Packages");
    assert_eq!(lines.len(), 10);
    let (title, info) = SystemPackages::page_info();
    assert_eq!(title, "System Packages");
    assert_eq!(info[0][0].text, "Select extra system packages to include in the configuration");
}
