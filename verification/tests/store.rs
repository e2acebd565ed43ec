use todo_list::store::Store;
use todo_list::todo::Todo;

fn text(s: &str) -> String {
    s.to_string()
}

#[test]
fn new_store_is_empty() {
    let store = Store::new();
    assert_eq!(store.len(), 0);
    assert!(store.list().is_empty());
    assert_eq!(Store::default().len(), 0);
}

#[test]
fn todo_new_is_not_done() {
    let todo = Todo::new(text("a"), text("write"));
    assert_eq!(todo, Todo { id: text("a"), title: text("write"), done: false });
    assert_eq!(todo.clone(), todo);
}

#[test]
fn create_appends_record_not_done() {
    let mut store = Store::new();
    let created = store.create(text("Buy milk")).unwrap();
    assert_eq!(created.title, "Buy milk");
    assert!(!created.done);
    assert!(!created.id.is_empty());
    assert_eq!(store.len(), 1);
    assert_eq!(store.list(), vec![created]);
}

#[test]
fn create_accepts_empty_and_blank_titles() {
    let mut store = Store::new();
    assert_eq!(store.create(text("")).unwrap().title, "");
    assert_eq!(store.create(text("   ")).unwrap().title, "   ");
    assert_eq!(store.len(), 2);
}

#[test]
fn created_identifier_has_uuid_shape() {
    let mut store = Store::new();
    let id = store.create(text("x")).unwrap().id;
    assert_eq!(id.len(), 36);
    for (i, c) in id.chars().enumerate() {
        if i == 8 || i == 13 || i == 18 || i == 23 {
            assert_eq!(c, '-');
        } else {
            assert!(c.is_ascii_digit() || ('a'..='f').contains(&c));
        }
    }
    assert_eq!(id.chars().nth(14), Some('4'));
}

#[test]
fn created_identifiers_differ() {
    let mut store = Store::new();
    let mut ids: Vec<String> = Vec::new();
    for n in 0..50 {
        let todo = store.create(format!("task {}", n)).unwrap();
        assert!(!ids.contains(&todo.id));
        ids.push(todo.id);
    }
    assert_eq!(store.len(), 50);
    let listed: Vec<String> = store.list().into_iter().map(|t| t.id).collect();
    assert_eq!(listed, ids);
}

#[test]
fn create_with_id_refuses_identifier_in_use() {
    let mut store = Store::new();
    let first = store.create_with_id(text("a"), text("one"));
    assert_eq!(first, Some(Todo { id: text("a"), title: text("one"), done: false }));
    assert_eq!(store.create_with_id(text("a"), text("two")), None);
    assert_eq!(store.len(), 1);
    assert_eq!(store.list()[0].title, "one");
    assert!(store.create_with_id(text("b"), text("two")).is_some());
    assert_eq!(store.len(), 2);
}

#[test]
fn contains_finds_identifiers() {
    let mut store = Store::new();
    assert!(!store.contains(&text("a")));
    store.create_with_id(text("a"), text("one"));
    assert!(store.contains(&text("a")));
    assert!(!store.contains(&text("A")));
    assert!(!store.contains(&text("")));
}

#[test]
fn set_done_updates_matching_record_only() {
    let mut store = Store::new();
    store.create_with_id(text("a"), text("one"));
    store.create_with_id(text("b"), text("two"));
    store.create_with_id(text("c"), text("three"));
    assert!(store.set_done(&text("b"), true));
    let flags: Vec<bool> = store.list().iter().map(|t| t.done).collect();
    assert_eq!(flags, vec![false, true, false]);
    assert!(store.set_done(&text("b"), false));
    let flags: Vec<bool> = store.list().iter().map(|t| t.done).collect();
    assert_eq!(flags, vec![false, false, false]);
}

#[test]
fn set_done_on_unknown_identifier_changes_nothing() {
    let mut store = Store::new();
    store.create_with_id(text("a"), text("one"));
    store.set_done(&text("a"), true);
    let before = store.list();
    assert!(!store.set_done(&text("nonexistent"), true));
    assert!(!store.set_done(&text("nonexistent"), false));
    assert_eq!(store.list(), before);
}

#[test]
fn set_done_twice_is_set_done_once() {
    let mut store = Store::new();
    store.create_with_id(text("a"), text("one"));
    store.create_with_id(text("b"), text("two"));
    store.set_done(&text("a"), true);
    let once = store.list();
    store.set_done(&text("a"), true);
    assert_eq!(store.list(), once);
}

#[test]
fn toggles_keep_count_and_order() {
    let mut store = Store::new();
    let mut created = 0;
    for (id, title) in [("a", "one"), ("b", "two"), ("a", "again"), ("c", "three")] {
        if store.create_with_id(text(id), text(title)).is_some() {
            created += 1;
        }
        store.set_done(&text("a"), true);
        store.set_done(&text("zzz"), true);
        store.set_done(&text("b"), false);
    }
    assert_eq!(created, 3);
    assert_eq!(store.len(), created);
    let listed: Vec<(String, String, bool)> =
        store.list().into_iter().map(|t| (t.id, t.title, t.done)).collect();
    assert_eq!(
        listed,
        vec![
            (text("a"), text("one"), true),
            (text("b"), text("two"), false),
            (text("c"), text("three"), false),
        ]
    );
}

#[test]
fn list_is_a_copy() {
    let mut store = Store::new();
    store.create_with_id(text("a"), text("one"));
    let mut snapshot = store.list();
    snapshot[0].done = true;
    snapshot.clear();
    assert_eq!(store.len(), 1);
    assert!(!store.list()[0].done);
}

#[test]
fn create_succeeds_where_no_identifier_can_collide() {
    let mut store = Store::new();
    assert!(store.create(text("first")).is_some());
    let mut named = Store::new();
    named.create_with_id(text("a"), text("one"));
    named.create_with_id(text("not-a-uuid"), text("two"));
    for n in 0..20 {
        let created = named.create(format!("task {}", n));
        assert!(created.is_some());
    }
    assert_eq!(named.len(), 22);
}
