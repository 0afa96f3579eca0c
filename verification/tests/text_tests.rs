use nixos_installer::text::{
    chars_contain_run, chars_of, copy_strings, join_strings, string_from_chars, strings_contain,
    strings_equal, strip_prefix_or_keep,
};

fn strings(items: &[&str]) -> Vec<String> {
    items.iter().map(|s| s.to_string()).collect()
}

#[test]
fn join_strings_puts_separator_between_parts() {
    assert_eq!(join_strings(&strings(&["wheel", "audio", "video"]), ", "), "wheel, audio, video");
    assert_eq!(join_strings(&strings(&["wheel"]), ", "), "wheel");
    assert_eq!(join_strings(&strings(&[]), ", "), "");
}

#[test]
fn strip_prefix_takes_off_only_a_leading_prefix() {
    assert_eq!(strip_prefix_or_keep("legacyPackages.x86_64-linux.hello", "legacyPackages.x86_64-linux."), "hello");
    assert_eq!(strip_prefix_or_keep("hello", "legacyPackages.x86_64-linux."), "hello");
    assert_eq!(strip_prefix_or_keep("xlegacyPackages.x86_64-linux.hello", "legacyPackages.x86_64-linux."), "xlegacyPackages.x86_64-linux.hello");
    assert_eq!(strip_prefix_or_keep("abc", "abc"), "");
    assert_eq!(strip_prefix_or_keep("ab", "abc"), "ab");
    assert_eq!(strip_prefix_or_keep("héllo wörld", "hé"), "llo wörld");
}

#[test]
fn chars_round_trip() {
    let chars = chars_of("añb");
    assert_eq!(chars, vec!['a', 'ñ', 'b']);
    assert_eq!(string_from_chars(&chars), "añb");
}

#[test]
fn contains_run_finds_substrings() {
    let text = chars_of("firefox-esr");
    assert!(chars_contain_run(&text, &chars_of("fox")));
    assert!(chars_contain_run(&text, &chars_of("")));
    assert!(chars_contain_run(&text, &chars_of("firefox-esr")));
    assert!(!chars_contain_run(&text, &chars_of("foxy")));
    assert!(!chars_contain_run(&chars_of("ab"), &chars_of("abc")));
}

#[test]
fn string_lists_compare_and_copy() {
    let a = strings(&["git", "vim"]);
    assert!(strings_contain(&a, &"vim".to_string()));
    assert!(!strings_contain(&a, &"emacs".to_string()));
    assert!(strings_equal(&a, &copy_strings(&a)));
    assert!(!strings_equal(&a, &strings(&["vim", "git"])));
    assert!(!strings_equal(&a, &strings(&["git"])));
}
