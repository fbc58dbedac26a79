use std::sync::Arc;

use cairo_lang_language_server::state::Owned;

#[test]
fn snapshot_sees_value() {
    let owned = Owned::new(Arc::new(vec![1, 2, 3]));
    let snapshot = owned.snapshot();
    assert_eq!(*snapshot.get(), vec![1, 2, 3]);
    assert_eq!(*owned.get(), vec![1, 2, 3]);
}

#[test]
fn snapshot_keeps_old_value_after_set() {
    let mut owned = Owned::new(Arc::new(String::from("old")));
    let snapshot = owned.snapshot();
    owned.set(String::from("new"));
    assert_eq!(snapshot.get(), "old");
    assert_eq!(owned.get(), "new");
}
