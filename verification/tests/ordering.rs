use corrator::text::{sort_strings, str_eq, str_le, vec_contains_str};

#[test]
fn strings_sort_lexicographically() {
    let mut v = vec![
        String::from("zsh"),
        String::from("bash"),
        String::from("grep"),
        String::from("bash"),
    ];
    sort_strings(&mut v);
    assert_eq!(
        v,
        vec![
            String::from("bash"),
            String::from("bash"),
            String::from("grep"),
            String::from("zsh"),
        ]
    );
}

#[test]
fn comparison_is_by_code_point() {
    assert!(str_le("abc", "abd"));
    assert!(str_le("ab", "abc"));
    assert!(!str_le("abd", "abc"));
    assert!(str_le("", "a"));
    assert!(str_le("same", "same"));
}

#[test]
fn equality_is_by_characters() {
    assert!(str_eq("ubuntu", "ubuntu"));
    assert!(!str_eq("ubuntu", "ubunty"));
    assert!(!str_eq("ubuntu", "ubunt"));
}

#[test]
fn membership_checks_every_entry() {
    let v = vec![String::from("one"), String::from("two")];
    assert!(vec_contains_str(&v, "two"));
    assert!(!vec_contains_str(&v, "three"));
}
