//! The ordered collection of records.

use vstd::prelude::*;
use crate::ident::{fresh_id, is_uuid_text};
use crate::todo::{records, Todo, TodoView};

verus! {

/// No two records of `s` share an identifier.
pub open spec fn unique_ids(s: Seq<TodoView>) -> bool {
    forall|i: int, j: int| 0 <= i < j < s.len() ==> s[i].id != s[j].id
}

/// Some record of `s` has the identifier `id`.
pub open spec fn has_id(s: Seq<TodoView>, id: Seq<char>) -> bool {
    exists|i: int| 0 <= i < s.len() && #[trigger] s[i].id == id
}

/// The record `t` with its flag set to `done` where its identifier is `id`,
/// and unchanged elsewhere.
pub open spec fn marked(t: TodoView, id: Seq<char>, done: bool) -> TodoView {
    if t.id == id {
        TodoView { done, ..t }
    } else {
        t
    }
}

/// The list `s` after every record with the identifier `id` had its flag set
/// to `done`: same length, same order, same identifiers and titles.
pub open spec fn toggled(s: Seq<TodoView>, id: Seq<char>, done: bool) -> Seq<TodoView> {
    Seq::new(s.len(), |i: int| marked(s[i], id, done))
}

/// The record that a creation adds: not done.
pub open spec fn fresh_record(id: Seq<char>, title: Seq<char>) -> TodoView {
    TodoView { id, title, done: false }
}

/// The list `s` after a creation with the identifier `id`: the new record at
/// the end where no record has that identifier yet, and `s` itself where one
/// has.
pub open spec fn appended(s: Seq<TodoView>, id: Seq<char>, title: Seq<char>) -> Seq<TodoView> {
    if has_id(s, id) {
        s
    } else {
        s.push(fresh_record(id, title))
    }
}

/// The records in the order in which they were created.
#[derive(Debug)]
pub struct Store {
    todos: Vec<Todo>,
}

impl View for Store {
    type V = Seq<TodoView>;

    closed spec fn view(&self) -> Seq<TodoView> {
        records(self.todos@)
    }
}

impl Default for Store {
    fn default() -> (store: Store)
        ensures
            store@ == Seq::<TodoView>::empty(),
    {
        Store::new()
    }
}

impl Store {
    #[verifier::type_invariant]
    spec fn ids_differ(&self) -> bool {
        unique_ids(self@)
    }

    /// The store of a process that has just started.
    pub fn new() -> (store: Store)
        ensures
            store@ == Seq::<TodoView>::empty(),
    {
        let store = Store { todos: Vec::new() };
        assert(store@ =~= Seq::<TodoView>::empty());
        store
    }

    /// Tells the verifier what holds of every store: no two of its records
    /// share an identifier. The call does nothing when the program runs.
    pub fn ids_are_unique(&self)
        ensures
            unique_ids(self@),
    {
        proof {
            use_type_invariant(self);
        }
    }

    /// The number of records.
    pub fn len(&self) -> (n: usize)
        ensures
            n == self@.len(),
    {
        self.todos.len()
    }

    /// A copy of the records, in the order of their creation.
    pub fn list(&self) -> (snapshot: Vec<Todo>)
        ensures
            records(snapshot@) == self@,
            unique_ids(self@),
    {
        proof {
            use_type_invariant(self);
        }
        let mut snapshot: Vec<Todo> = Vec::new();
        let mut i: usize = 0;
        while i < self.todos.len()
            invariant
                i <= self.todos.len(),
                snapshot.len() == i,
                forall|k: int| 0 <= k < i ==> #[trigger] snapshot[k]@ == self.todos[k]@,
            decreases self.todos.len() - i,
        {
            snapshot.push(self.todos[i].clone());
            i += 1;
        }
        assert(records(snapshot@) =~= self@);
        snapshot
    }

    /// Whether some record has the identifier `id`.
    pub fn contains(&self, id: &String) -> (found: bool)
        ensures
            found == has_id(self@, id@),
    {
        let mut i: usize = 0;
        while i < self.todos.len()
            invariant
                i <= self.todos.len(),
                forall|k: int| 0 <= k < i ==> (#[trigger] self@[k]).id != id@,
            decreases self.todos.len() - i,
        {
            if self.todos[i].id == *id {
                assert(self@[i as int].id == id@);
                return true;
            }
            i += 1;
        }
        false
    }

    /// Appends a record with the identifier `id` and the title `title`, not
    /// done, and returns a copy of it. Where a record already has that
    /// identifier nothing is added and the result is `None`.
    pub fn create_with_id(&mut self, id: String, title: String) -> (created: Option<Todo>)
        ensures
            final(self)@ == appended(old(self)@, id@, title@),
            created is Some <==> !has_id(old(self)@, id@),
            created is Some ==> created->0@ == fresh_record(id@, title@),
            unique_ids(final(self)@),
    {
        proof {
            use_type_invariant(&*self);
        }
        if self.contains(&id) {
            return None;
        }
        let todo = Todo::new(id, title);
        let copy = todo.clone();
        let ghost before = self@;
        let mut todos: Vec<Todo> = Vec::new();
        std::mem::swap(&mut self.todos, &mut todos);
        todos.push(todo);
        proof {
            assert(records(todos@) =~= before.push(copy@));
            assert forall|i: int, j: int| 0 <= i < j < records(todos@).len() implies records(
                todos@,
            )[i].id != records(todos@)[j].id by {
                if j == before.len() {
                    assert(before[i].id != id@);
                }
            }
        }
        self.todos = todos;
        Some(copy)
    }

    /// Appends a record with the title `title` under a random identifier and
    /// returns a copy of it. The title is taken as it is, empty or not. The
    /// result is `None`, and nothing is added, only in the case that the
    /// identifier drawn is already in use: a store in which no record has
    /// an identifier in the shape of a UUID, such as an empty one, always
    /// gets its record.
    pub fn create(&mut self, title: String) -> (created: Option<Todo>)
        ensures
            match created {
                Some(todo) => {
                    &&& todo@.title == title@
                    &&& !todo@.done
                    &&& is_uuid_text(todo@.id)
                    &&& !has_id(old(self)@, todo@.id)
                    &&& final(self)@ == old(self)@.push(todo@)
                },
                None => {
                    &&& final(self)@ == old(self)@
                    &&& exists|id: Seq<char>| is_uuid_text(id) && #[trigger] has_id(old(self)@, id)
                },
            },
            unique_ids(final(self)@),
    {
        let id = fresh_id();
        let ghost drawn = id@;
        let created = self.create_with_id(id, title);
        assert(created is None ==> is_uuid_text(drawn) && has_id(old(self)@, drawn));
        created
    }

    /// Sets the flag of the record whose identifier is `id`, and says whether
    /// there was one. Without one the store stays as it was.
    pub fn set_done(&mut self, id: &String, done: bool) -> (found: bool)
        ensures
            final(self)@ == toggled(old(self)@, id@, done),
            found == has_id(old(self)@, id@),
            !found ==> final(self)@ == old(self)@,
            unique_ids(final(self)@),
    {
        proof {
            use_type_invariant(&*self);
            toggled_keeps_ids(self@, id@, done);
            toggled_without_match(self@, id@, done);
        }
        let mut todos: Vec<Todo> = Vec::new();
        std::mem::swap(&mut self.todos, &mut todos);
        let found = mark_all(&mut todos, id, done);
        self.todos = todos;
        found
    }
}

/// Walks the whole list and sets the flag wherever the identifier matches.
fn mark_all(todos: &mut Vec<Todo>, id: &String, done: bool) -> (found: bool)
    ensures
        records(final(todos)@) == toggled(records(old(todos)@), id@, done),
        found == has_id(records(old(todos)@), id@),
{
    let ghost before = records(todos@);
    let mut found = false;
    let mut i: usize = 0;
    while i < todos.len()
        invariant
            i <= todos.len(),
            todos.len() == before.len(),
            before == records(old(todos)@),
            forall|k: int| 0 <= k < i ==> #[trigger] todos[k]@ == marked(before[k], id@, done),
            forall|k: int| i <= k < todos.len() ==> #[trigger] todos[k]@ == before[k],
            found == has_id(before.take(i as int), id@),
        decreases todos.len() - i,
    {
        assert(todos[i as int]@ == before[i as int]);
        if todos[i].id == *id {
            todos[i].done = done;
            found = true;
        }
        proof {
            let wider = before.take(i + 1);
            let narrower = before.take(i as int);
            if has_id(narrower, id@) {
                let k = choose|k: int| 0 <= k < narrower.len() && #[trigger] narrower[k].id == id@;
                assert(wider[k].id == id@);
            }
            if before[i as int].id == id@ {
                assert(wider[i as int].id == id@);
            }
            if has_id(wider, id@) {
                let k = choose|k: int| 0 <= k < wider.len() && #[trigger] wider[k].id == id@;
                if k < i {
                    assert(narrower[k].id == id@);
                }
            }
        }
        i += 1;
    }
    proof {
        assert(before.take(i as int) =~= before);
        assert(records(todos@) =~= toggled(before, id@, done));
    }
    found
}

/// Setting a flag changes no identifier, so distinct identifiers stay
/// distinct.
pub proof fn toggled_keeps_ids(s: Seq<TodoView>, id: Seq<char>, done: bool)
    ensures
        toggled(s, id, done).len() == s.len(),
        forall|i: int| 0 <= i < s.len() ==> (#[trigger] toggled(s, id, done)[i]).id == s[i].id,
        forall|i: int| 0 <= i < s.len() ==> (#[trigger] toggled(s, id, done)[i]).title == s[i].title,
        unique_ids(s) ==> unique_ids(toggled(s, id, done)),
        forall|other: Seq<char>| has_id(toggled(s, id, done), other) == has_id(s, other),
{
    let t = toggled(s, id, done);
    assert forall|other: Seq<char>| has_id(t, other) == has_id(s, other) by {
        if has_id(t, other) {
            let k = choose|k: int| 0 <= k < t.len() && #[trigger] t[k].id == other;
            assert(s[k].id == other);
        }
        if has_id(s, other) {
            let k = choose|k: int| 0 <= k < s.len() && #[trigger] s[k].id == other;
            assert(t[k].id == other);
        }
    }
}

/// Where no record has the identifier, setting a flag changes nothing.
pub proof fn toggled_without_match(s: Seq<TodoView>, id: Seq<char>, done: bool)
    ensures
        !has_id(s, id) ==> toggled(s, id, done) == s,
{
    if !has_id(s, id) {
        assert forall|i: int| 0 <= i < s.len() implies toggled(s, id, done)[i] == s[i] by {
            if s[i].id == id {
                assert(has_id(s, id));
            }
        }
        assert(toggled(s, id, done) =~= s);
    }
}

} // verus!
