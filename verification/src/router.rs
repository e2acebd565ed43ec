//! The routing table, and a request taken from its arrival to its response.

use vstd::prelude::*;
use crate::error::ErrorKind;
use crate::handlers::{
    after_creation, after_toggle, create, creation, field, read, respond, response_to, todos,
    toggle, update, Outcome, OutcomeView, Response,
};
use crate::ident::is_uuid_text;
use crate::store::{unique_ids, Store};

verus! {

/// The method of a request, as far as the routing table tells methods apart.
#[derive(Clone, Copy, Debug, PartialEq, Eq, Structural)]
pub enum Method {
    Get,
    Post,
    /// Any other method.
    Other,
}

/// The handlers that a request can be routed to.
#[derive(Clone, Copy, Debug, PartialEq, Eq, Structural)]
pub enum Route {
    /// `GET /`: the page.
    RenderPage,
    /// `GET /todos`: the records as data.
    ListJson,
    /// `POST /create`: a new record.
    Create,
    /// `POST /update`: a record's flag.
    ToggleDone,
}

/// The fields of a submitted form, each present or not.
#[derive(Debug, PartialEq, Eq)]
pub struct Form {
    pub title: Option<String>,
    pub id: Option<String>,
    pub done: Option<String>,
}

/// The routing table: the handler under a method and a path, if there is
/// one.
pub open spec fn routed(method: Method, path: Seq<char>) -> Option<Route> {
    if method == Method::Get && path == seq!['/'] {
        Some(Route::RenderPage)
    } else if method == Method::Get && path == seq!['/', 't', 'o', 'd', 'o', 's'] {
        Some(Route::ListJson)
    } else if method == Method::Post && path == seq!['/', 'c', 'r', 'e', 'a', 't', 'e'] {
        Some(Route::Create)
    } else if method == Method::Post && path == seq!['/', 'u', 'p', 'd', 'a', 't', 'e'] {
        Some(Route::ToggleDone)
    } else {
        None
    }
}

/// Looks the method and the path up in the routing table. What the table
/// does not hold is not found.
pub fn route(method: Method, path: &str) -> (found: Result<Route, ErrorKind>)
    ensures
        match routed(method, path@) {
            Some(r) => found == Ok::<Route, ErrorKind>(r),
            None => found == Err::<Route, ErrorKind>(ErrorKind::NotFound),
        },
{
    proof {
        reveal_strlit("/");
        reveal_strlit("/todos");
        reveal_strlit("/create");
        reveal_strlit("/update");
        assert("/"@ =~= seq!['/']);
        assert("/todos"@ =~= seq!['/', 't', 'o', 'd', 'o', 's']);
        assert("/create"@ =~= seq!['/', 'c', 'r', 'e', 'a', 't', 'e']);
        assert("/update"@ =~= seq!['/', 'u', 'p', 'd', 'a', 't', 'e']);
    }
    match method {
        Method::Get => if path.eq("/") {
            Ok(Route::RenderPage)
        } else if path.eq("/todos") {
            Ok(Route::ListJson)
        } else {
            Err(ErrorKind::NotFound)
        },
        Method::Post => if path.eq("/create") {
            Ok(Route::Create)
        } else if path.eq("/update") {
            Ok(Route::ToggleDone)
        } else {
            Err(ErrorKind::NotFound)
        },
        Method::Other => Err(ErrorKind::NotFound),
    }
}

impl Route {
    /// Whether the handler changes the store, and so needs it for itself.
    pub open spec fn spec_mutates(self) -> bool {
        self == Route::Create || self == Route::ToggleDone
    }

    /// Whether the handler changes the store, and so needs it for itself.
    #[verifier::when_used_as_spec(spec_mutates)]
    pub fn mutates(self) -> (writes: bool)
        ensures
            writes == self.spec_mutates(),
    {
        match self {
            Route::RenderPage => false,
            Route::ListJson => false,
            Route::Create => true,
            Route::ToggleDone => true,
        }
    }
}

/// Runs the handler of `route` if it only reads the store; `None` for a
/// handler that changes it.
pub fn handle_shared(store: &Store, route: Route) -> (outcome: Option<Outcome>)
    ensures
        match route {
            Route::RenderPage => outcome is Some && outcome->0@ == OutcomeView::Page(store@),
            Route::ListJson => outcome is Some && outcome->0@ == OutcomeView::Listing(store@),
            Route::Create => outcome is None,
            Route::ToggleDone => outcome is None,
        },
        unique_ids(store@),
{
    store.ids_are_unique();
    match route {
        Route::RenderPage => Some(read(store)),
        Route::ListJson => Some(todos(store)),
        Route::Create => None,
        Route::ToggleDone => None,
    }
}

/// Runs the handler of `route` on the store, with the fields of the form.
/// A handler that only reads leaves the store as it is and answers as
/// `handle_shared` does. For a creation the identifier is drawn at random:
/// whatever it is, the outcome is that of `create_as` with it.
pub fn handle(store: &mut Store, route: Route, form: Form) -> (outcome: Outcome)
    ensures
        route == Route::RenderPage ==> final(store)@ == old(store)@ && outcome@
            == OutcomeView::Page(old(store)@),
        route == Route::ListJson ==> final(store)@ == old(store)@ && outcome@
            == OutcomeView::Listing(old(store)@),
        route == Route::ToggleDone ==> final(store)@ == after_toggle(
            old(store)@,
            field(form.id),
            field(form.done),
        ) && outcome@ == toggle(old(store)@, field(form.id), field(form.done)),
        route == Route::Create && form.title is None ==> final(store)@ == old(store)@ && outcome@
            == OutcomeView::Failure(ErrorKind::BadRequest),
        route == Route::Create && form.title is Some ==> exists|id: Seq<char>|
            {
                &&& is_uuid_text(id)
                &&& final(store)@ == #[trigger] after_creation(old(store)@, id, field(form.title))
                &&& outcome@ == creation(old(store)@, id, field(form.title))
            },
        unique_ids(final(store)@),
{
    match route {
        Route::RenderPage => read(store),
        Route::ListJson => todos(store),
        Route::Create => create(store, form.title),
        Route::ToggleDone => update(store, form.id, form.done),
    }
}

/// Takes a request from its method, path and form to its response: routes
/// it, runs the handler on the store, and renders what the handler left. A
/// request that the routing table does not hold is answered with `NotFound`
/// and leaves the store as it is.
pub fn dispatch(store: &mut Store, method: Method, path: &str, form: Form) -> (response: Response)
    ensures
        routed(method, path@) is None ==> final(store)@ == old(store)@ && response@
            == response_to(OutcomeView::Failure(ErrorKind::NotFound)),
        routed(method, path@) == Some(Route::RenderPage) ==> final(store)@ == old(store)@
            && response@ == response_to(OutcomeView::Page(old(store)@)),
        routed(method, path@) == Some(Route::ListJson) ==> final(store)@ == old(store)@
            && response@ == response_to(OutcomeView::Listing(old(store)@)),
        routed(method, path@) == Some(Route::ToggleDone) ==> final(store)@ == after_toggle(
            old(store)@,
            field(form.id),
            field(form.done),
        ) && response@ == response_to(toggle(old(store)@, field(form.id), field(form.done))),
        routed(method, path@) == Some(Route::Create) && form.title is None ==> final(store)@
            == old(store)@ && response@ == response_to(
            OutcomeView::Failure(ErrorKind::BadRequest),
        ),
        routed(method, path@) == Some(Route::Create) && form.title is Some ==> exists|
            id: Seq<char>,
        |
            {
                &&& is_uuid_text(id)
                &&& final(store)@ == #[trigger] after_creation(old(store)@, id, field(form.title))
                &&& response@ == response_to(creation(old(store)@, id, field(form.title)))
            },
        unique_ids(final(store)@),
{
    store.ids_are_unique();
    match route(method, path) {
        Ok(found) => {
            let outcome = handle(store, found, form);
            respond(outcome)
        },
        Err(kind) => Response::Failure(kind),
    }
}

} // verus!
