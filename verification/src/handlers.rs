//! The four requests: what each does to the store and what it answers.
//!
//! A handler works on the store and hands back an `Outcome`, which holds a
//! copy of the records. `respond` turns the outcome into the text to send
//! and needs the store no more, so the store can be released in between.

use vstd::prelude::*;
use crate::error::ErrorKind;
use crate::ident::{fresh_id, is_uuid_text};
use crate::render::{fragment_text, page_text, render_fragment, render_page};
use crate::store::{appended, has_id, toggled, unique_ids, Store};
use crate::todo::{records, Todo, TodoView};

verus! {

/// What a handler leaves to be done once it has let go of the store.
#[derive(Debug, PartialEq, Eq)]
pub enum Outcome {
    /// Send the page for these records.
    Page(Vec<Todo>),
    /// Send the fragment for these records.
    Fragment(Vec<Todo>),
    /// Send these records themselves.
    Listing(Vec<Todo>),
    /// Send a failure of this kind.
    Failure(ErrorKind),
}

/// An outcome in contracts.
pub enum OutcomeView {
    Page(Seq<TodoView>),
    Fragment(Seq<TodoView>),
    Listing(Seq<TodoView>),
    Failure(ErrorKind),
}

impl View for Outcome {
    type V = OutcomeView;

    open spec fn view(&self) -> OutcomeView {
        match self {
            Outcome::Page(todos) => OutcomeView::Page(records(todos@)),
            Outcome::Fragment(todos) => OutcomeView::Fragment(records(todos@)),
            Outcome::Listing(todos) => OutcomeView::Listing(records(todos@)),
            Outcome::Failure(kind) => OutcomeView::Failure(*kind),
        }
    }
}

/// What is sent to the client.
#[derive(Debug, PartialEq, Eq)]
pub enum Response {
    /// Status 200, an HTML body.
    Html(String),
    /// Status 200, the records as a JSON array.
    Todos(Vec<Todo>),
    /// The status of the kind, no body.
    Failure(ErrorKind),
}

/// A response in contracts.
pub enum ResponseView {
    Html(Seq<char>),
    Todos(Seq<TodoView>),
    Failure(ErrorKind),
}

impl View for Response {
    type V = ResponseView;

    open spec fn view(&self) -> ResponseView {
        match self {
            Response::Html(body) => ResponseView::Html(body@),
            Response::Todos(todos) => ResponseView::Todos(records(todos@)),
            Response::Failure(kind) => ResponseView::Failure(*kind),
        }
    }
}

impl Response {
    /// The HTTP status of the response.
    pub open spec fn spec_status(&self) -> u16 {
        match self {
            Response::Html(_) => 200,
            Response::Todos(_) => 200,
            Response::Failure(kind) => kind.spec_status(),
        }
    }

    /// The HTTP status of the response.
    #[verifier::when_used_as_spec(spec_status)]
    pub fn status(&self) -> (code: u16)
        ensures
            code == self.spec_status(),
    {
        match self {
            Response::Html(_) => 200,
            Response::Todos(_) => 200,
            Response::Failure(kind) => kind.status(),
        }
    }
}

/// A form field in contracts: its text, where it was sent.
pub open spec fn field(value: Option<String>) -> Option<Seq<char>> {
    match value {
        Some(text) => Some(text@),
        None => None,
    }
}

/// What the field of a checkbox means: checked where it was sent with the
/// value `on`, unchecked where it was sent with another value or not at all.
pub open spec fn is_checked(done: Option<Seq<char>>) -> bool {
    done == Some(seq!['o', 'n'])
}

/// Whether two string slices hold the same text: `==` of `str`.
pub assume_specification[ <str as PartialEq>::eq ](left: &str, right: &str) -> (same: bool)
    ensures
        same == (left@ == right@),
;

/// Reads the field of a checkbox.
pub fn checked(done: &Option<String>) -> (on: bool)
    ensures
        on == is_checked(field(*done)),
{
    proof {
        reveal_strlit("on");
        assert("on"@ =~= seq!['o', 'n']);
    }
    match done {
        Some(value) => value.as_str().eq("on"),
        None => false,
    }
}

/// The outcome of a creation for which the identifier `id` was drawn, on
/// the records `before`.
pub open spec fn creation(before: Seq<TodoView>, id: Seq<char>, title: Option<Seq<char>>) -> OutcomeView {
    match title {
        None => OutcomeView::Failure(ErrorKind::BadRequest),
        Some(text) => if has_id(before, id) {
            OutcomeView::Failure(ErrorKind::Internal)
        } else {
            OutcomeView::Fragment(appended(before, id, text))
        },
    }
}

/// The records after a creation for which the identifier `id` was drawn.
pub open spec fn after_creation(before: Seq<TodoView>, id: Seq<char>, title: Option<Seq<char>>) -> Seq<TodoView> {
    match title {
        None => before,
        Some(text) => appended(before, id, text),
    }
}

/// The records after a toggle.
pub open spec fn after_toggle(before: Seq<TodoView>, id: Option<Seq<char>>, done: Option<Seq<char>>) -> Seq<TodoView> {
    match id {
        None => before,
        Some(text) => toggled(before, text, is_checked(done)),
    }
}

/// The outcome of a toggle on the records `before`.
pub open spec fn toggle(before: Seq<TodoView>, id: Option<Seq<char>>, done: Option<Seq<char>>) -> OutcomeView {
    match id {
        None => OutcomeView::Failure(ErrorKind::BadRequest),
        Some(_) => OutcomeView::Fragment(after_toggle(before, id, done)),
    }
}

/// What is sent for an outcome: the rendered text or the records, and
/// `Internal` where the text cannot be rendered.
pub open spec fn response_to(outcome: OutcomeView) -> ResponseView {
    match outcome {
        OutcomeView::Page(s) => match page_text(s) {
            Some(html) => ResponseView::Html(html),
            None => ResponseView::Failure(ErrorKind::Internal),
        },
        OutcomeView::Fragment(s) => match fragment_text(s) {
            Some(html) => ResponseView::Html(html),
            None => ResponseView::Failure(ErrorKind::Internal),
        },
        OutcomeView::Listing(s) => ResponseView::Todos(s),
        OutcomeView::Failure(kind) => ResponseView::Failure(kind),
    }
}

/// The list as data: every record, in the order of creation.
pub fn todos(store: &Store) -> (outcome: Outcome)
    ensures
        outcome@ == OutcomeView::Listing(store@),
        unique_ids(store@),
{
    Outcome::Listing(store.list())
}

/// The page with the current records.
pub fn read(store: &Store) -> (outcome: Outcome)
    ensures
        outcome@ == OutcomeView::Page(store@),
        unique_ids(store@),
{
    Outcome::Page(store.list())
}

/// Creates a record under the identifier `id`, with the title that the
/// form holds, and answers with the fragment for the new list. Without a
/// title the request is bad; with an identifier that is in use nothing is
/// created and the failure is internal.
pub fn create_as(store: &mut Store, id: String, title: Option<String>) -> (outcome: Outcome)
    ensures
        final(store)@ == after_creation(old(store)@, id@, field(title)),
        outcome@ == creation(old(store)@, id@, field(title)),
        unique_ids(final(store)@),
{
    store.ids_are_unique();
    match title {
        None => Outcome::Failure(ErrorKind::BadRequest),
        Some(text) => match store.create_with_id(id, text) {
            Some(_) => Outcome::Fragment(store.list()),
            None => Outcome::Failure(ErrorKind::Internal),
        },
    }
}

/// Creates a record under a random identifier, with the title that the form
/// holds, and answers with the fragment for the new list. Whatever
/// identifier is drawn, the outcome is that of `create_as` with it.
pub fn create(store: &mut Store, title: Option<String>) -> (outcome: Outcome)
    ensures
        title is None ==> outcome@ == OutcomeView::Failure(ErrorKind::BadRequest) && final(store)@
            == old(store)@,
        title is Some ==> exists|id: Seq<char>|
            {
                &&& is_uuid_text(id)
                &&& final(store)@ == #[trigger] after_creation(old(store)@, id, field(title))
                &&& outcome@ == creation(old(store)@, id, field(title))
            },
        unique_ids(final(store)@),
{
    store.ids_are_unique();
    match title {
        None => Outcome::Failure(ErrorKind::BadRequest),
        Some(text) => {
            let id = fresh_id();
            let ghost drawn = id@;
            let outcome = create_as(store, id, Some(text));
            assert(final(store)@ == after_creation(old(store)@, drawn, field(title)));
            outcome
        },
    }
}

/// Sets the flag of the record that the form names and answers with the
/// fragment for the list as it then is. Without an identifier the request
/// is bad; an identifier that no record has changes nothing and is no
/// failure.
pub fn update(store: &mut Store, id: Option<String>, done: Option<String>) -> (outcome: Outcome)
    ensures
        final(store)@ == after_toggle(old(store)@, field(id), field(done)),
        outcome@ == toggle(old(store)@, field(id), field(done)),
        unique_ids(final(store)@),
{
    store.ids_are_unique();
    match id {
        None => Outcome::Failure(ErrorKind::BadRequest),
        Some(text) => {
            let on = checked(&done);
            store.set_done(&text, on);
            Outcome::Fragment(store.list())
        },
    }
}

/// Turns an outcome into what is sent: renders the page or the fragment,
/// hands the records on, reports the failure.
pub fn respond(outcome: Outcome) -> (response: Response)
    ensures
        response@ == response_to(outcome@),
{
    match outcome {
        Outcome::Page(todos) => match render_page(&todos) {
            Ok(html) => Response::Html(html),
            Err(kind) => Response::Failure(kind),
        },
        Outcome::Fragment(todos) => match render_fragment(&todos) {
            Ok(html) => Response::Html(html),
            Err(kind) => Response::Failure(kind),
        },
        Outcome::Listing(todos) => Response::Todos(todos),
        Outcome::Failure(kind) => Response::Failure(kind),
    }
}

} // verus!
