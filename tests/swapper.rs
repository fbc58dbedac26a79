use cairo_lang_language_server::swapper::{
    ensure_exists_in_db, swap_due, FileOverrides, FileTranslation,
};

#[test]
fn overrides_follow_open_files() {
    let mut old = FileOverrides::new();
    old.insert(1, "one".to_string());
    old.insert(2, "two".to_string());
    old.insert(3, "three".to_string());
    let open = vec![
        Some(FileTranslation { old_id: 1, new_id: 10 }),
        None,
        Some(FileTranslation { old_id: 4, new_id: 40 }),
        Some(FileTranslation { old_id: 3, new_id: 30 }),
    ];
    let new = ensure_exists_in_db(&old, &open);
    assert_eq!(new.get(10), Some(&"one".to_string()));
    assert_eq!(new.get(30), Some(&"three".to_string()));
    assert_eq!(new.get(40), None);
    assert_eq!(new.get(20), None);
    assert_eq!(new.get(1), None);
}

#[test]
fn override_insert_replaces() {
    let mut o = FileOverrides::new();
    o.insert(5, "a".to_string());
    o.insert(5, "b".to_string());
    assert_eq!(o.get(5), Some(&"b".to_string()));
}

#[test]
fn no_open_files_no_overrides() {
    let mut old = FileOverrides::new();
    old.insert(1, "one".to_string());
    let new = ensure_exists_in_db(&old, &vec![]);
    assert_eq!(new.get(1), None);
}

#[test]
fn swap_due_after_interval() {
    assert!(!swap_due(100, 149, 50));
    assert!(swap_due(100, 150, 50));
    assert!(swap_due(100, 151, 50));
    assert!(!swap_due(100, 90, 0));
}
