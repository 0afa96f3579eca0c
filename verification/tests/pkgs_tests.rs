use nixos_installer::pkgs::{
    fetch_nixpkgs, pkg_names_from_keys, poll_step, PkgListError, PkgPoll, MAX_FETCH_RETRIES,
};

fn strings(items: &[&str]) -> Vec<String> {
    items.iter().map(|s| s.to_string()).collect()
}

#[test]
fn names_lose_the_index_prefix_and_repeats() {
    let keys = strings(&[
        "legacyPackages.x86_64-linux.hello",
        "git",
        "hello",
        "legacyPackages.x86_64-linux.git",
        "legacyPackages.x86_64-linux.vim",
    ]);
    assert_eq!(pkg_names_from_keys(&keys), strings(&["hello", "git", "vim"]));
}

#[test]
fn names_of_no_keys_is_empty() {
    assert_eq!(pkg_names_from_keys(&Vec::new()), Vec::<String>::new());
}

#[test]
fn fetch_reads_object_keys() {
    let json = r#"{"legacyPackages.x86_64-linux.hello": {"pname": "hello"},
                   "legacyPackages.x86_64-linux.git": {},
                   "git": {}}"#;
    // serde_json's map walks its keys in sorted order.
    assert_eq!(fetch_nixpkgs(json), Ok(strings(&["git", "hello"])));
}

#[test]
fn fetch_of_empty_object_is_empty() {
    assert_eq!(fetch_nixpkgs("{}"), Ok(Vec::new()));
}

#[test]
fn fetch_rejects_text_that_is_not_json() {
    assert_eq!(fetch_nixpkgs("{not json"), Err(PkgListError::InvalidJson));
    assert_eq!(fetch_nixpkgs(""), Err(PkgListError::InvalidJson));
}

#[test]
fn fetch_rejects_json_that_is_not_an_object() {
    assert_eq!(fetch_nixpkgs("[\"hello\"]"), Err(PkgListError::NotAnObject));
    assert_eq!(fetch_nixpkgs("42"), Err(PkgListError::NotAnObject));
}

#[test]
fn poll_takes_loaded_list_first() {
    assert_eq!(poll_step(true, 0), PkgPoll::UseLoaded);
    assert_eq!(poll_step(true, 99), PkgPoll::UseLoaded);
}

#[test]
fn poll_waits_then_fetches() {
    let mut retries = 0u32;
    let mut waits = 0u32;
    loop {
        match poll_step(false, retries) {
            PkgPoll::WaitAndRetry => {
                waits += 1;
                retries += 1;
            }
            PkgPoll::FetchNow => break,
            PkgPoll::UseLoaded => panic!("nothing was loaded"),
        }
    }
    assert_eq!(waits, MAX_FETCH_RETRIES);
    assert_eq!(MAX_FETCH_RETRIES, 5);
}
