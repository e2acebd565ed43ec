//! What holds of the list after any sequence of creations and toggles.

use vstd::prelude::*;
use crate::handlers::{after_creation, after_toggle, creation, response_to, toggle, OutcomeView, ResponseView};
use crate::ident::is_uuid_text;
use crate::render::{fragment_text, page_text};
use crate::store::{appended, fresh_record, has_id, toggled, toggled_keeps_ids, unique_ids};
use crate::todo::TodoView;

verus! {

/// One change to the list.
pub enum Op {
    /// A creation for which the identifier `id` was drawn.
    Create { id: Seq<char>, title: Seq<char> },
    /// A toggle of the record with the identifier `id`.
    Toggle { id: Seq<char>, done: bool },
}

/// The list `s` after the change `op`.
pub open spec fn step(s: Seq<TodoView>, op: Op) -> Seq<TodoView> {
    match op {
        Op::Create { id, title } => appended(s, id, title),
        Op::Toggle { id, done } => toggled(s, id, done),
    }
}

/// Whether `op` is a creation that adds a record to `s`.
pub open spec fn creates(s: Seq<TodoView>, op: Op) -> bool {
    match op {
        Op::Create { id, title } => !has_id(s, id),
        Op::Toggle { id, done } => false,
    }
}

/// The list `s` after the changes `ops`, first to last.
pub open spec fn run(s: Seq<TodoView>, ops: Seq<Op>) -> Seq<TodoView>
    decreases ops.len(),
{
    if ops.len() == 0 {
        s
    } else {
        step(run(s, ops.drop_last()), ops.last())
    }
}

/// How many of the changes `ops`, made to `s` first to last, are creations
/// that add a record.
pub open spec fn creations(s: Seq<TodoView>, ops: Seq<Op>) -> nat
    decreases ops.len(),
{
    if ops.len() == 0 {
        0
    } else {
        creations(s, ops.drop_last()) + if creates(run(s, ops.drop_last()), ops.last()) {
            1nat
        } else {
            0nat
        }
    }
}

/// Whether `later` holds the records of `earlier` at their places, with
/// their identifiers and titles: it may be longer, and flags may differ.
pub open spec fn extends(later: Seq<TodoView>, earlier: Seq<TodoView>) -> bool {
    &&& earlier.len() <= later.len()
    &&& forall|i: int|
        0 <= i < earlier.len() ==> (#[trigger] later[i]).id == earlier[i].id && later[i].title
            == earlier[i].title
}

/// Toggling a record to the state it was just toggled to changes nothing:
/// the list is the same, and so are the fragment and the page.
pub proof fn toggle_is_idempotent(s: Seq<TodoView>, id: Seq<char>, done: bool)
    ensures
        toggled(toggled(s, id, done), id, done) == toggled(s, id, done),
        fragment_text(toggled(toggled(s, id, done), id, done)) == fragment_text(
            toggled(s, id, done),
        ),
        page_text(toggled(toggled(s, id, done), id, done)) == page_text(toggled(s, id, done)),
{
    assert(toggled(toggled(s, id, done), id, done) =~= toggled(s, id, done));
}

/// A toggle request repeated with the same fields leaves the list as the
/// first one left it and gets the same response.
pub proof fn update_is_idempotent(s: Seq<TodoView>, id: Option<Seq<char>>, done: Option<Seq<char>>)
    ensures
        after_toggle(after_toggle(s, id, done), id, done) == after_toggle(s, id, done),
        response_to(toggle(after_toggle(s, id, done), id, done)) == response_to(
            toggle(s, id, done),
        ),
{
    assert(after_toggle(after_toggle(s, id, done), id, done) =~= after_toggle(s, id, done));
}

/// A record created under a drawn identifier is in the listing that
/// follows: the last one, with the title as submitted, not done, under an
/// identifier that is not empty and that no other record has.
pub proof fn created_record_is_listed(before: Seq<TodoView>, id: Seq<char>, title: Seq<char>)
    requires
        unique_ids(before),
        is_uuid_text(id),
        !has_id(before, id),
    ensures
        ({
            let after = after_creation(before, id, Some(title));
            &&& creation(before, id, Some(title)) == OutcomeView::Fragment(after)
            &&& response_to(OutcomeView::Listing(after)) == ResponseView::Todos(after)
            &&& after.len() == before.len() + 1
            &&& after.last().title == title
            &&& !after.last().done
            &&& after.last().id == id
            &&& id.len() > 0
            &&& forall|i: int| 0 <= i < before.len() ==> (#[trigger] after[i]).id != id
            &&& unique_ids(after)
        }),
{
    creation_round_trip(before, id, title);
    let after = after_creation(before, id, Some(title));
    assert forall|i: int| 0 <= i < before.len() implies (#[trigger] after[i]).id != id by {
        assert(before[i].id != id);
    }
}

/// A creation with an unused identifier puts the record at the end of the
/// list, with the title as given and not done; the records before it stay,
/// and identifiers that differed still differ.
pub proof fn creation_round_trip(s: Seq<TodoView>, id: Seq<char>, title: Seq<char>)
    requires
        !has_id(s, id),
    ensures
        appended(s, id, title).len() == s.len() + 1,
        appended(s, id, title).last() == fresh_record(id, title),
        appended(s, id, title).drop_last() == s,
        has_id(appended(s, id, title), id),
        unique_ids(s) ==> unique_ids(appended(s, id, title)),
{
    let t = appended(s, id, title);
    assert(t.drop_last() =~= s);
    assert(t[s.len() as int].id == id);
    if unique_ids(s) {
        assert forall|i: int, j: int| 0 <= i < j < t.len() implies t[i].id != t[j].id by {
            if j == s.len() {
                assert(s[i].id != id);
            }
        }
    }
}

/// A single change keeps every record at its place, with its identifier
/// and title, and keeps identifiers distinct.
pub proof fn step_extends(s: Seq<TodoView>, op: Op)
    ensures
        extends(step(s, op), s),
        unique_ids(s) ==> unique_ids(step(s, op)),
        step(s, op).len() == s.len() + if creates(s, op) {
            1nat
        } else {
            0nat
        },
{
    match op {
        Op::Create { id, title } => {
            if !has_id(s, id) {
                creation_round_trip(s, id, title);
            }
        },
        Op::Toggle { id, done } => {
            toggled_keeps_ids(s, id, done);
        },
    }
}

/// After any sequence of creations and toggles the list holds as many
/// records more as creations added one: a toggle never changes the count.
pub proof fn count_is_number_of_creations(s: Seq<TodoView>, ops: Seq<Op>)
    ensures
        run(s, ops).len() == s.len() + creations(s, ops),
    decreases ops.len(),
{
    if ops.len() > 0 {
        count_is_number_of_creations(s, ops.drop_last());
        step_extends(run(s, ops.drop_last()), ops.last());
    }
}

/// After any sequence of creations and toggles every record stands where
/// it stood, with its identifier and title, and what was created since
/// stands behind it: the list is in the order of creation.
pub proof fn order_is_order_of_creation(s: Seq<TodoView>, ops: Seq<Op>)
    ensures
        extends(run(s, ops), s),
    decreases ops.len(),
{
    if ops.len() > 0 {
        order_is_order_of_creation(s, ops.drop_last());
        step_extends(run(s, ops.drop_last()), ops.last());
    }
}

/// Running two sequences of changes one after the other is running their
/// concatenation.
pub proof fn run_in_two_parts(s: Seq<TodoView>, first: Seq<Op>, second: Seq<Op>)
    ensures
        run(s, first + second) == run(run(s, first), second),
    decreases second.len(),
{
    if second.len() == 0 {
        assert(first + second =~= first);
    } else {
        assert((first + second).drop_last() =~= first + second.drop_last());
        assert((first + second).last() == second.last());
        run_in_two_parts(s, first, second.drop_last());
    }
}

/// At every moment of a sequence of changes the list stands, place by
/// place, at the front of the list at every later moment.
pub proof fn earlier_list_stays_in_front(s: Seq<TodoView>, first: Seq<Op>, second: Seq<Op>)
    ensures
        extends(run(s, first + second), run(s, first)),
{
    run_in_two_parts(s, first, second);
    order_is_order_of_creation(run(s, first), second);
}

/// Identifiers that differ at the start differ after any sequence of
/// creations and toggles.
pub proof fn identifiers_stay_unique(s: Seq<TodoView>, ops: Seq<Op>)
    requires
        unique_ids(s),
    ensures
        unique_ids(run(s, ops)),
    decreases ops.len(),
{
    if ops.len() > 0 {
        identifiers_stay_unique(s, ops.drop_last());
        step_extends(run(s, ops.drop_last()), ops.last());
    }
}

} // verus!
