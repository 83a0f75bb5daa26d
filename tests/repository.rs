use todo_service::table::{RepoError, TodoTable};
use todo_service::todo::{CreateTodo, RequestError};

fn req(title: &str) -> CreateTodo {
    CreateTodo { title: title.to_string(), completed: None }
}

#[test]
fn create_assigns_id_and_default_flag() {
    let mut t = TodoTable::new();
    let a = t.create(req("buy milk")).unwrap();
    assert_eq!(a.id, 1);
    assert_eq!(a.title, "buy milk");
    assert!(!a.completed);
    let b = t.create(CreateTodo { title: "walk".to_string(), completed: Some(true) }).unwrap();
    assert_eq!(b.id, 2);
    assert!(b.completed);
}

#[test]
fn buy_milk_scenario() {
    let mut t = TodoTable::new();
    let a = t.create(req("buy milk")).unwrap();
    assert_eq!((a.id, a.title.as_str(), a.completed), (1, "buy milk", false));
    let b = t.toggle(1).unwrap();
    assert_eq!((b.id, b.title.as_str(), b.completed), (1, "buy milk", true));
    let all = t.list();
    assert_eq!(all.len(), 1);
    assert_eq!((all[0].id, all[0].title.as_str(), all[0].completed), (1, "buy milk", true));
}

#[test]
fn toggle_twice_restores_flag() {
    let mut t = TodoTable::new();
    t.create(req("a")).unwrap();
    t.create(CreateTodo { title: "b".to_string(), completed: Some(true) }).unwrap();
    assert!(!t.toggle(2).unwrap().completed);
    assert!(t.toggle(2).unwrap().completed);
    let all = t.list();
    assert!(!all[0].completed);
    assert!(all[1].completed);
}

#[test]
fn toggle_missing_id_is_not_found() {
    let mut t = TodoTable::new();
    assert!(matches!(t.toggle(1), Err(RepoError::NotFound(1))));
    t.create(req("a")).unwrap();
    assert!(matches!(t.toggle(7), Err(RepoError::NotFound(7))));
    assert!(!t.list()[0].completed);
}

#[test]
fn fifty_creates_are_all_listed_with_distinct_ids() {
    let mut t = TodoTable::new();
    let mut ids = Vec::new();
    for k in 0..50 {
        let made = t.create(req(&format!("todo {}", k))).unwrap();
        assert_eq!(made.title, format!("todo {}", k));
        ids.push(made.id);
    }
    let all = t.list();
    assert_eq!(all.len(), 50);
    for (k, row) in all.iter().enumerate() {
        assert_eq!(row.id, ids[k]);
        assert_eq!(row.title, format!("todo {}", k));
    }
    let mut sorted = ids.clone();
    sorted.sort();
    sorted.dedup();
    assert_eq!(sorted.len(), 50);
}

#[test]
fn empty_table_lists_nothing() {
    let t = TodoTable::new();
    assert!(t.list().is_empty());
}

#[test]
fn missing_title_is_rejected() {
    assert!(matches!(CreateTodo::from_fields(None, Some(true)), Err(RequestError::MissingTitle)));
    let c = CreateTodo::from_fields(Some("x".to_string()), None).unwrap();
    assert_eq!(c.title, "x");
    assert_eq!(c.completed, None);
}
