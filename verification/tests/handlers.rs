use todo_list::error::ErrorKind;
use todo_list::handlers::{checked, create, create_as, read, respond, todos, update, Outcome, Response};
use todo_list::render::{outcome_of, render_fragment, render_page};
use todo_list::store::Store;
use todo_list::todo::Todo;

fn text(s: &str) -> String {
    s.to_string()
}

fn two() -> Store {
    let mut store = Store::new();
    store.create_with_id(text("a"), text("one"));
    store.create_with_id(text("b"), text("two"));
    store
}

#[test]
fn checkbox_is_on_only_for_the_value_on() {
    assert!(checked(&Some(text("on"))));
    assert!(!checked(&None));
    assert!(!checked(&Some(text(""))));
    assert!(!checked(&Some(text("off"))));
    assert!(!checked(&Some(text("On"))));
    assert!(!checked(&Some(text("on "))));
    assert!(!checked(&Some(text("true"))));
}

#[test]
fn status_of_each_kind() {
    assert_eq!(ErrorKind::BadRequest.status(), 400);
    assert_eq!(ErrorKind::NotFound.status(), 404);
    assert_eq!(ErrorKind::Internal.status(), 500);
    assert_eq!(Response::Html(text("x")).status(), 200);
    assert_eq!(Response::Todos(vec![]).status(), 200);
    assert_eq!(Response::Failure(ErrorKind::BadRequest).status(), 400);
    assert_eq!(Response::Failure(ErrorKind::NotFound).status(), 404);
    assert_eq!(Response::Failure(ErrorKind::Internal).status(), 500);
}

#[test]
fn todos_lists_the_store() {
    assert_eq!(todos(&Store::new()), Outcome::Listing(vec![]));
    let store = two();
    assert_eq!(todos(&store), Outcome::Listing(store.list()));
}

#[test]
fn read_asks_for_the_page() {
    let store = two();
    assert_eq!(read(&store), Outcome::Page(store.list()));
}

#[test]
fn create_without_title_is_bad_request() {
    let mut store = two();
    assert_eq!(create(&mut store, None), Outcome::Failure(ErrorKind::BadRequest));
    assert_eq!(create_as(&mut store, text("c"), None), Outcome::Failure(ErrorKind::BadRequest));
    assert_eq!(store.len(), 2);
}

#[test]
fn create_as_appends_and_asks_for_the_fragment() {
    let mut store = two();
    let outcome = create_as(&mut store, text("c"), Some(text("three")));
    assert_eq!(store.len(), 3);
    assert_eq!(outcome, Outcome::Fragment(store.list()));
    assert_eq!(store.list()[2], Todo { id: text("c"), title: text("three"), done: false });
}

#[test]
fn create_as_with_identifier_in_use_is_internal() {
    let mut store = two();
    let before = store.list();
    let outcome = create_as(&mut store, text("a"), Some(text("three")));
    assert_eq!(outcome, Outcome::Failure(ErrorKind::Internal));
    assert_eq!(store.list(), before);
}

#[test]
fn create_draws_an_identifier() {
    let mut store = two();
    let outcome = create(&mut store, Some(text("three")));
    assert_eq!(store.len(), 3);
    assert_eq!(outcome, Outcome::Fragment(store.list()));
    let last = &store.list()[2];
    assert_eq!(last.title, "three");
    assert!(!last.done);
    assert_eq!(last.id.len(), 36);
}

#[test]
fn update_without_id_is_bad_request() {
    let mut store = two();
    let before = store.list();
    assert_eq!(update(&mut store, None, Some(text("on"))), Outcome::Failure(ErrorKind::BadRequest));
    assert_eq!(update(&mut store, None, None), Outcome::Failure(ErrorKind::BadRequest));
    assert_eq!(store.list(), before);
}

#[test]
fn update_sets_and_clears_the_flag() {
    let mut store = two();
    let outcome = update(&mut store, Some(text("b")), Some(text("on")));
    assert_eq!(outcome, Outcome::Fragment(store.list()));
    assert!(store.list()[1].done);
    assert!(!store.list()[0].done);
    update(&mut store, Some(text("b")), None);
    assert!(!store.list()[1].done);
    update(&mut store, Some(text("b")), Some(text("on")));
    update(&mut store, Some(text("b")), Some(text("yes")));
    assert!(!store.list()[1].done);
}

#[test]
fn update_of_unknown_id_is_no_failure() {
    let mut store = two();
    let before = store.list();
    let outcome = update(&mut store, Some(text("nonexistent")), Some(text("on")));
    assert_eq!(outcome, Outcome::Fragment(before.clone()));
    assert_eq!(store.list(), before);
}

#[test]
fn update_twice_renders_the_same() {
    let mut store = two();
    let once = respond(update(&mut store, Some(text("a")), Some(text("on"))));
    let twice = respond(update(&mut store, Some(text("a")), Some(text("on"))));
    assert_eq!(once, twice);
}

#[test]
fn respond_renders_what_the_outcome_asks_for() {
    let list = two().list();
    assert_eq!(
        respond(Outcome::Page(two().list())),
        Response::Html(render_page(&list).unwrap())
    );
    assert_eq!(
        respond(Outcome::Fragment(two().list())),
        Response::Html(render_fragment(&list).unwrap())
    );
    assert_eq!(respond(Outcome::Listing(two().list())), Response::Todos(list));
    assert_eq!(
        respond(Outcome::Failure(ErrorKind::BadRequest)),
        Response::Failure(ErrorKind::BadRequest)
    );
}

#[test]
fn outcome_of_keeps_text_and_maps_engine_errors() {
    assert_eq!(outcome_of(Ok(text("<p>"))), Ok(text("<p>")));
    let failed = minijinja::Environment::new().render_str("{% if %}", ());
    assert!(failed.is_err());
    assert_eq!(outcome_of(failed), Err(ErrorKind::Internal));
}
