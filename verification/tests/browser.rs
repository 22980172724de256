use light_pdf::browser::{entry_le_exec, sort_dir_entries, str_le, DirEntry};

fn entry(name: Option<&str>, is_dir: bool) -> DirEntry {
    DirEntry {
        path: format!("/d/{}", name.unwrap_or("")),
        name: name.map(|n| n.to_string()),
        is_dir,
        is_file: !is_dir,
    }
}

#[test]
fn directories_come_first_then_files_by_name() {
    let v = vec![
        entry(Some("b.pdf"), false),
        entry(Some("zeta"), true),
        entry(Some("a.pdf"), false),
        entry(Some("alpha"), true),
        entry(Some("B.pdf"), false),
    ];
    let sorted = sort_dir_entries(v);
    let names: Vec<&str> = sorted.iter().map(|e| e.name.as_deref().unwrap()).collect();
    assert_eq!(names, vec!["alpha", "zeta", "B.pdf", "a.pdf", "b.pdf"]);
}

#[test]
fn missing_name_sorts_first_in_its_group() {
    let v = vec![entry(Some("a"), false), entry(None, false)];
    let sorted = sort_dir_entries(v);
    assert_eq!(sorted[0].name, None);
    assert_eq!(sorted[1].name.as_deref(), Some("a"));
}

#[test]
fn sort_of_empty_is_empty() {
    assert!(sort_dir_entries(Vec::new()).is_empty());
}

#[test]
fn sort_keeps_every_entry() {
    let v = vec![entry(Some("c"), false), entry(Some("c"), false), entry(Some("a"), true)];
    let sorted = sort_dir_entries(v);
    assert_eq!(sorted.len(), 3);
    assert_eq!(sorted[0].name.as_deref(), Some("a"));
    assert_eq!(sorted[1].name.as_deref(), Some("c"));
    assert_eq!(sorted[2].name.as_deref(), Some("c"));
}

#[test]
fn equal_keys_keep_their_order() {
    let mut first = entry(Some("same"), false);
    first.path = "/one/same".to_string();
    let mut second = entry(Some("same"), false);
    second.path = "/two/same".to_string();
    let sorted = sort_dir_entries(vec![first, entry(Some("a"), false), second]);
    assert_eq!(sorted[1].path, "/one/same");
    assert_eq!(sorted[2].path, "/two/same");
}

#[test]
fn str_le_is_lexicographic_by_code_point() {
    assert!(str_le("abc", "abd"));
    assert!(str_le("ab", "abc"));
    assert!(str_le("", "a"));
    assert!(str_le("abc", "abc"));
    assert!(!str_le("abd", "abc"));
    assert!(!str_le("b", "a"));
    assert!(str_le("Z", "a"));
    assert!(str_le("z", "é"));
}

#[test]
fn entry_order_puts_non_files_first() {
    assert!(entry_le_exec(&entry(Some("z"), true), &entry(Some("a"), false)));
    assert!(!entry_le_exec(&entry(Some("a"), false), &entry(Some("z"), true)));
}
