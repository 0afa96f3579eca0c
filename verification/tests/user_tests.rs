use nixos_installer::user::{
    add_group_at, enable_home_manager, groups_of, home_manager_of, remove_group_at,
    remove_user_at, set_home_manager, set_home_manager_packages, set_password_hash, set_username,
    user_rows, HomeManagerCfg, User,
};

fn strings(items: &[&str]) -> Vec<String> {
    items.iter().map(|s| s.to_string()).collect()
}

fn user(name: &str, groups: &[&str], hm: Option<&[&str]>) -> User {
    User {
        username: name.to_string(),
        password_hash: "hash".to_string(),
        groups: strings(groups),
        home_manager_cfg: hm.map(|p| HomeManagerCfg { packages: strings(p) }),
    }
}

#[test]
fn table_row_without_groups_or_home_manager() {
    assert_eq!(user("alice", &[], None).as_table_row(), strings(&["alice", "<none>", "no"]));
}

#[test]
fn table_row_with_groups_and_home_manager() {
    assert_eq!(
        user("bob", &["wheel", "audio"], Some(&[])).as_table_row(),
        strings(&["bob", "wheel, audio", "yes"])
    );
}

#[test]
fn rows_follow_users() {
    let users = vec![user("a", &["x"], None), user("b", &[], Some(&["git"]))];
    assert_eq!(
        user_rows(&users),
        vec![strings(&["a", "x", "no"]), strings(&["b", "<none>", "yes"])]
    );
}

#[test]
fn new_user_has_no_groups_and_no_home_manager() {
    let u = User::new("carol".to_string(), "h".to_string());
    assert_eq!(u.username, "carol");
    assert_eq!(u.password_hash, "h");
    assert!(u.groups.is_empty());
    assert!(u.home_manager_cfg.is_none());
}

#[test]
fn add_group_skips_groups_already_there() {
    let mut u = user("a", &["wheel"], None);
    assert!(u.add_group("audio".to_string()));
    assert!(!u.add_group("wheel".to_string()));
    assert_eq!(u.groups, strings(&["wheel", "audio"]));
}

#[test]
fn remove_group_takes_out_every_occurrence() {
    let mut u = user("a", &["wheel", "audio", "wheel"], None);
    u.remove_group(&"wheel".to_string());
    assert_eq!(u.groups, strings(&["audio"]));
    u.remove_group(&"video".to_string());
    assert_eq!(u.groups, strings(&["audio"]));
}

#[test]
fn add_then_remove_group_restores_groups() {
    let mut u = user("a", &["wheel"], None);
    u.add_group("docker".to_string());
    u.remove_group(&"docker".to_string());
    assert_eq!(u.groups, strings(&["wheel"]));
}

#[test]
fn list_updates_touch_only_the_given_user() {
    let mut users = vec![user("a", &[], None), user("b", &[], None)];
    set_username(&mut users, 1, "bee".to_string());
    set_password_hash(&mut users, 0, "new".to_string());
    assert!(add_group_at(&mut users, 1, "wheel".to_string()));
    assert!(!add_group_at(&mut users, 1, "wheel".to_string()));
    assert!(!add_group_at(&mut users, 5, "wheel".to_string()));
    assert_eq!(users[0].username, "a");
    assert_eq!(users[0].password_hash, "new");
    assert!(users[0].groups.is_empty());
    assert_eq!(users[1].username, "bee");
    assert_eq!(users[1].password_hash, "hash");
    assert_eq!(groups_of(&users, 1), strings(&["wheel"]));
    assert_eq!(groups_of(&users, 9), Vec::<String>::new());
    remove_group_at(&mut users, 1, &"wheel".to_string());
    assert!(users[1].groups.is_empty());
    set_username(&mut users, 7, "nobody".to_string());
    assert_eq!(users.len(), 2);
}

#[test]
fn home_manager_updates() {
    let mut users = vec![user("a", &[], None), user("b", &[], Some(&["git"]))];
    enable_home_manager(&mut users, 0);
    enable_home_manager(&mut users, 1);
    assert_eq!(users[0].home_manager_cfg.as_ref().unwrap().packages, Vec::<String>::new());
    assert_eq!(users[1].home_manager_cfg.as_ref().unwrap().packages, strings(&["git"]));
    set_home_manager_packages(&mut users, 1, strings(&["vim"]));
    assert_eq!(home_manager_of(&users, 1).unwrap().packages, strings(&["vim"]));
    set_home_manager(&mut users, 1, None);
    assert!(home_manager_of(&users, 1).is_none());
    set_home_manager_packages(&mut users, 1, strings(&["vim"]));
    assert!(users[1].home_manager_cfg.is_none());
    assert!(home_manager_of(&users, 3).is_none());
}

#[test]
fn remove_user_removes_one_user() {
    let mut users = vec![user("a", &[], None), user("b", &[], None), user("c", &[], None)];
    remove_user_at(&mut users, 1);
    assert_eq!(users.iter().map(|u| u.username.clone()).collect::<Vec<_>>(), strings(&["a", "c"]));
    remove_user_at(&mut users, 4);
    assert_eq!(users.len(), 2);
}

#[test]
fn duplicate_copies_everything() {
    let u = user("a", &["wheel"], Some(&["git"]));
    let d = u.duplicate();
    assert_eq!(d.username, "a");
    assert_eq!(d.groups, strings(&["wheel"]));
    assert_eq!(d.home_manager_cfg.unwrap().packages, strings(&["git"]));
}
