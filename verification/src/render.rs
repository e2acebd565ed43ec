//! The list as HTML: a fragment that holds the creation form and the
//! records, and the page that holds the fragment.
//!
//! The fragment is written by a template, which the template engine expands.
//! Identifiers and titles are escaped before the engine sees them, so the
//! template writes them out as they are handed to it.

use vstd::prelude::*;
use crate::error::ErrorKind;
use crate::escape::{escape_html, escaped, plain_text_is_unchanged};
use crate::ident::is_uuid_text;
use crate::todo::{records, Todo, TodoView};

verus! {

/// The template of the fragment. It reads one variable, `todos`: a list of
/// records with the fields `id`, `title` and `done`.
pub const FRAGMENT_TEMPLATE: &'static str = "
        <form hx-boost=\"true\" hx-post=\"/create\" class=\"form\" hx-target=\"#content\">
            <input name=\"title\" class=\"input\" type=\"text\" placeholder=\"What needs to be done?\" autofocus>
        </form>
        {% if todos|length %}
        <ul>
            {% for todo in todos %}
            <li class=\"todo-item {% if todo.done %}done{% endif %}\">
                <form hx-target=\"#content\" class=\"inline-form\">
                    <input name=\"id\" type=\"hidden\" value=\"{{ todo.id }}\">
                    <input class=\"check\" name=\"done\" type=\"checkbox\" hx-trigger=\"click\" hx-post=\"/update\" {% if todo.done %}checked{% endif %}>
                    {{ todo.title }}
                </form>
            </li>
            {% endfor %}
        </ul>
        {% endif %}
";

/// The page up to the place of the fragment.
pub const PAGE_HEAD: &'static str = "
<!DOCTYPE html>
<html lang=\"en-US\" dir=\"ltr\">
<head>
    <title>Get things done</title>
    <meta charset=\"UTF-8\" />
    <meta name=\"viewport\" content=\"width=device-width,initial-scale=1\" />
    <style type=\"text/css\">
    .form {
        display: flex;
        flex-direction: column;
    }
    .input {
        padding: 12px;
        font-size: 1.2em;
    }
    .todo-item {
        display: flex;
        flex-direction: row;
        font-family: sans-serif;
        font-size: 2.0em;
    }
    .done {
        color: #999;
        text-decoration: line-through;
    }
    input.check {
        transform: scale(2);
        margin: 12px;
    }
    .inline-form {
        display: flex;
        flex-direction: row;
    }
    ul {
        list-style-type: none;
        padding: 0;
    }
    </style>
    <link rel=\"icon\" href=\"data:,\">
    <script src=\"https://unpkg.com/htmx.org@latest\"></script>
</head>
<body>
    <div class=\"content\" id=\"content\">
         ";

/// The page from the end of the fragment on.
pub const PAGE_TAIL: &'static str = "
    </div>
</body>
</html>";

/// What the template engine makes of the template `template` where the
/// variable `todos` holds `todos`: the text, or `None` where the template
/// does not parse or does not render.
pub uninterp spec fn expansion(template: Seq<char>, todos: Seq<TodoView>) -> Option<Seq<char>>;

/// The error of the template engine.
#[verifier::external_type_specification]
#[verifier::external_body]
pub struct ExTemplateError(minijinja::Error);

/// Expands the fragment's template with
/// `minijinja::Environment::render_str`, in a new environment with the
/// engine's defaults, the variable `todos` bound to the records. Believed
/// of it: the outcome depends on the records alone, since the template
/// reads nothing else. A template handed in as a string has no HTML
/// extension in its name, so the engine escapes nothing by itself.
#[verifier::external_body]
pub(crate) fn expand(template: &str, todos: &Vec<Todo>) -> (out: Result<String, minijinja::Error>)
    requires
        template@ == FRAGMENT_TEMPLATE@,
    ensures
        match out {
            Ok(text) => expansion(template@, records(todos@)) == Some(text@),
            Err(_) => expansion(template@, records(todos@)) is None,
        },
{
    let items: Vec<minijinja::Value> = todos.iter().map(|todo| {
        minijinja::Value::from_iter([
            ("id", minijinja::Value::from(todo.id.as_str())),
            ("title", minijinja::Value::from(todo.title.as_str())),
            ("done", minijinja::Value::from(todo.done)),
        ])
    }).collect();
    let context = minijinja::Value::from_iter([("todos", minijinja::Value::from_iter(items))]);
    minijinja::Environment::new().render_str(template, context)
}

/// The record `t` with its identifier and its title escaped.
pub open spec fn escaped_record(t: TodoView) -> TodoView {
    TodoView { id: escaped(t.id), title: escaped(t.title), done: t.done }
}

/// Each record of `s` escaped, in order.
pub open spec fn escaped_records(s: Seq<TodoView>) -> Seq<TodoView> {
    Seq::new(s.len(), |i: int| escaped_record(s[i]))
}

/// The fragment for the records `s`: the template expanded over the escaped
/// records, or `None` where the engine fails.
pub open spec fn fragment_text(s: Seq<TodoView>) -> Option<Seq<char>> {
    expansion(FRAGMENT_TEMPLATE@, escaped_records(s))
}

/// The page for the records `s`: the fragment between the two parts of the
/// shell, or `None` where there is no fragment.
pub open spec fn page_text(s: Seq<TodoView>) -> Option<Seq<char>> {
    match fragment_text(s) {
        Some(fragment) => Some(PAGE_HEAD@ + fragment + PAGE_TAIL@),
        None => None,
    }
}

/// An identifier in the shape of a UUID holds no markup: the template gets
/// it as it is, and the form that carries it back names the same record.
pub proof fn uuid_text_is_unchanged(id: Seq<char>)
    requires
        is_uuid_text(id),
    ensures
        escaped(id) == id,
{
    plain_text_is_unchanged(id);
}

/// The records with identifiers and titles escaped, ready for the template.
pub fn escape_todos(todos: &Vec<Todo>) -> (safe: Vec<Todo>)
    ensures
        records(safe@) == escaped_records(records(todos@)),
{
    let mut safe: Vec<Todo> = Vec::new();
    let mut i: usize = 0;
    while i < todos.len()
        invariant
            i <= todos.len(),
            safe.len() == i,
            forall|k: int| 0 <= k < i ==> #[trigger] safe[k]@ == escaped_record(todos[k]@),
        decreases todos.len() - i,
    {
        let todo = &todos[i];
        safe.push(
            Todo {
                id: escape_html(todo.id.as_str()),
                title: escape_html(todo.title.as_str()),
                done: todo.done,
            },
        );
        i += 1;
    }
    assert(records(safe@) =~= escaped_records(records(todos@)));
    safe
}

/// What a handler answers with after the engine has run: its text, or
/// `Internal` where it failed.
pub fn outcome_of(expanded: Result<String, minijinja::Error>) -> (out: Result<String, ErrorKind>)
    ensures
        match expanded {
            Ok(text) => out == Ok::<String, ErrorKind>(text),
            Err(_) => out == Err::<String, ErrorKind>(ErrorKind::Internal),
        },
{
    match expanded {
        Ok(text) => Ok(text),
        Err(_) => Err(ErrorKind::Internal),
    }
}

/// Renders the fragment for `todos`.
pub fn render_fragment(todos: &Vec<Todo>) -> (out: Result<String, ErrorKind>)
    ensures
        match out {
            Ok(html) => fragment_text(records(todos@)) == Some(html@),
            Err(kind) => kind == ErrorKind::Internal && fragment_text(records(todos@)) is None,
        },
{
    let safe = escape_todos(todos);
    outcome_of(expand(FRAGMENT_TEMPLATE, &safe))
}

/// Sets `fragment` into the shell of the page.
pub fn embed_in_page(fragment: &str) -> (page: String)
    ensures
        page@ == PAGE_HEAD@ + fragment@ + PAGE_TAIL@,
{
    let mut page = String::from_str(PAGE_HEAD);
    page.append(fragment);
    page.append(PAGE_TAIL);
    page
}

/// Renders the page for `todos`.
pub fn render_page(todos: &Vec<Todo>) -> (out: Result<String, ErrorKind>)
    ensures
        match out {
            Ok(html) => page_text(records(todos@)) == Some(html@),
            Err(kind) => kind == ErrorKind::Internal && page_text(records(todos@)) is None,
        },
{
    match render_fragment(todos) {
        Ok(fragment) => Ok(embed_in_page(fragment.as_str())),
        Err(kind) => Err(kind),
    }
}

} // verus!
