use todo_service::reply::{
    failure_json, failure_page, html_outcome_reply, rejection_reply, render_template, reply_for_render,
};
use todo_service::todo::RequestError;
use todo_service::store::{failure_for_id, rows_outcome, toggle_outcome};
use todo_service::table::RepoError;
use todo_service::todo::Todo;

#[test]
fn missing_row_page_is_not_found() {
    let r = failure_page(&RepoError::NotFound(3));
    assert_eq!(r.status, 404);
    assert_eq!(r.body, "Error querying for todos");
    let r = failure_page(&RepoError::Database("down".to_string()));
    assert_eq!(r.status, 500);
}

#[test]
fn json_failure_carries_error_field() {
    let r = failure_json(&RepoError::Database("boom".to_string()));
    assert_eq!(r.status, 500);
    assert_eq!(r.body, "{\"error\":\"boom\"}");
    let r = failure_json(&RepoError::Database("say \"hi\"".to_string()));
    assert_eq!(r.body, "{\"error\":\"say \\\"hi\\\"\"}");
    let r = failure_json(&RepoError::NotFound(2));
    assert_eq!(r.body, "{\"error\":\"todo not found\"}");
}

#[test]
fn render_outcome_replies() {
    let ok = reply_for_render(Ok("<p>x</p>".to_string()));
    assert_eq!(ok.status, 200);
    assert_eq!(ok.body, "<p>x</p>");
    let bad = reply_for_render(Err("E".to_string()));
    assert_eq!(bad.status, 500);
    assert!(bad.body.contains("Something really bad happened"));
    assert!(bad.body.contains("E"));
    assert!(bad.body.ends_with("</body></html>"));
}

#[test]
fn render_template_uses_tera() {
    let mut tera = tera::Tera::default();
    tera.add_raw_template("hello.html", "Hello {{ name }}").unwrap();
    let mut ctx = tera::Context::new();
    ctx.insert("name", "milk");
    let r = render_template("hello.html", &ctx, &tera);
    assert_eq!(r.status, 200);
    assert_eq!(r.body, "Hello milk");
    let r = render_template("absent.html", &ctx, &tera);
    assert_eq!(r.status, 500);
    assert!(r.body.starts_with("<html>"));
}

#[test]
fn toggle_query_outcomes() {
    let t = Todo { id: 4, title: "a".to_string(), completed: true };
    let r = toggle_outcome(Ok(t), 4).unwrap();
    assert_eq!((r.id, r.completed), (4, true));
    assert!(matches!(toggle_outcome(Err(sqlx::Error::RowNotFound), 9), Err(RepoError::NotFound(9))));
    match toggle_outcome(Err(sqlx::Error::PoolTimedOut), 9) {
        Err(RepoError::Database(text)) => assert!(!text.is_empty()),
        _ => panic!("expected a database failure"),
    }
}

#[test]
fn list_query_outcomes() {
    let rows = vec![Todo { id: 1, title: "a".to_string(), completed: false }];
    assert_eq!(rows_outcome(Ok(rows)).unwrap().len(), 1);
    assert!(matches!(rows_outcome(Err(sqlx::Error::RowNotFound)), Err(RepoError::Database(_))));
    assert!(matches!(failure_for_id(true, String::new(), 5), RepoError::NotFound(5)));
    match failure_for_id(false, "x".to_string(), 5) {
        RepoError::Database(t) => assert_eq!(t, "x"),
        _ => panic!("expected a database failure"),
    }
}

#[test]
fn handler_outcome_replies() {
    let mut tera = tera::Tera::default();
    tera.add_raw_template("todo.html", "<li>{{ title }}</li>").unwrap();
    let mut ctx = tera::Context::new();
    ctx.insert("title", "buy milk");
    let r = html_outcome_reply(Ok(ctx), "todo.html", &tera);
    assert_eq!(r.status, 200);
    assert_eq!(r.body, "<li>buy milk</li>");
    let r = html_outcome_reply(Err(RepoError::NotFound(1)), "todo.html", &tera);
    assert_eq!(r.status, 404);
    assert_eq!(r.body, "Error querying for todos");
    let r = html_outcome_reply(Err(RepoError::Database("x".to_string())), "todo.html", &tera);
    assert_eq!(r.status, 500);
}

#[test]
fn missing_title_reply() {
    let r = rejection_reply(RequestError::MissingTitle);
    assert_eq!(r.status, 422);
    assert_eq!(r.body, "Missing title");
}
