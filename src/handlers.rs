//! One handler per route. Each validates its input, calls the repository,
//! and answers with a `Reply`: a status and what the body carries.

use vstd::prelude::*;

use crate::repository::{RepositoryError, TodoRepository};
use crate::todo::{
    apply_update, can_allocate, lookup, models, next_id, text_view, valid_entries,
    without_id, CreateTodo, Todo, TodoModel, UpdateTodo,
};
use crate::validation::{
    error_message, is_valid_text, text_violations, update_violations, validate_text,
    validate_update_text, validation_message,
};

verus! {

/// What a handler answers.
#[derive(Clone, Debug, PartialEq, Eq)]
pub enum Reply {
    /// 200 with a plain-text body.
    Text(String),
    /// 201 with the created todo.
    Created(Todo),
    /// 200 with one todo.
    Found(Todo),
    /// 200 with every stored todo.
    Listed(Vec<Todo>),
    /// 204 with an empty body.
    NoContent,
    /// 404 with an empty body.
    NotFound,
    /// 400 with the validation message.
    BadRequest(String),
    /// 507: no id is left to allocate.
    StoreFull,
}

impl Reply {
    /// The HTTP status code of a reply.
    pub open spec fn status_spec(&self) -> u16 {
        match self {
            Reply::Text(_) => 200,
            Reply::Created(_) => 201,
            Reply::Found(_) => 200,
            Reply::Listed(_) => 200,
            Reply::NoContent => 204,
            Reply::NotFound => 404,
            Reply::BadRequest(_) => 400,
            Reply::StoreFull => 507,
        }
    }

    /// The HTTP status code of this reply.
    pub fn status(&self) -> (r: u16)
        ensures
            r == self.status_spec(),
    {
        match self {
            Reply::Text(_) => 200,
            Reply::Created(_) => 201,
            Reply::Found(_) => 200,
            Reply::Listed(_) => 200,
            Reply::NoContent => 204,
            Reply::NotFound => 404,
            Reply::BadRequest(_) => 400,
            Reply::StoreFull => 507,
        }
    }
}

/// The greeting of the service root.
pub fn root() -> (r: Reply)
    ensures
        r matches Reply::Text(s) && s@ == "Hello, world!"@,
{
    Reply::Text(String::from_str("Hello, world!"))
}

/// Creates a todo from a payload whose text breaks no rule; answers 400 with
/// the validation message otherwise, leaving the store untouched.
pub fn create_todo<T: TodoRepository>(repository: &mut T, payload: CreateTodo) -> (r: Reply)
    requires
        valid_entries(old(repository).entries()),
    ensures
        valid_entries(final(repository).entries()),
        !is_valid_text(payload.text@) ==> {
            &&& r matches Reply::BadRequest(m) && m@ == error_message(text_violations(payload.text@))
            &&& final(repository).entries() == old(repository).entries()
        },
        is_valid_text(payload.text@) && !can_allocate(old(repository).entries()) ==> {
            &&& r == Reply::StoreFull
            &&& final(repository).entries() == old(repository).entries()
        },
        is_valid_text(payload.text@) && can_allocate(old(repository).entries()) ==> {
            &&& r matches Reply::Created(t) && t@ == (TodoModel {
                id: next_id(old(repository).entries()) as i32,
                text: payload.text@,
            })
            &&& final(repository).entries() == old(repository).entries().push(
                TodoModel { id: next_id(old(repository).entries()) as i32, text: payload.text@ },
            )
        },
{
    let errors = validate_text(payload.text.as_str());
    if errors.len() > 0 {
        return Reply::BadRequest(validation_message(&errors));
    }
    if !repository.has_free_id() {
        return Reply::StoreFull;
    }
    let todo = repository.create(payload);
    Reply::Created(todo)
}

/// Answers the todo stored under `id`, or 404.
pub fn find_todo<T: TodoRepository>(repository: &T, id: i32) -> (r: Reply)
    requires
        valid_entries(repository.entries()),
    ensures
        lookup(repository.entries(), id) is None <==> r == Reply::NotFound,
        lookup(repository.entries(), id) matches Some(text) ==> r matches Reply::Found(t) && t@
            == (TodoModel { id, text }),
{
    match repository.find(id) {
        Ok(todo) => Reply::Found(todo),
        Err(RepositoryError::NotFound(_)) => Reply::NotFound,
    }
}

/// Answers every stored todo, in order of insertion.
pub fn all_todo<T: TodoRepository>(repository: &T) -> (r: Reply)
    requires
        valid_entries(repository.entries()),
    ensures
        r matches Reply::Listed(v) && models(v@) == repository.entries(),
{
    Reply::Listed(repository.all())
}

/// Updates the todo under `id` (the id of the path; the payload's own id is
/// not consulted). A text in the payload is checked first: when it breaks a
/// rule the answer is 400 and the store is untouched.
pub fn update_todo<T: TodoRepository>(repository: &mut T, id: i32, payload: UpdateTodo) -> (r: Reply)
    requires
        valid_entries(old(repository).entries()),
    ensures
        valid_entries(final(repository).entries()),
        update_violations(text_view(payload.text)).len() > 0 ==> {
            &&& r matches Reply::BadRequest(m) && m@ == error_message(
                update_violations(text_view(payload.text)),
            )
            &&& final(repository).entries() == old(repository).entries()
        },
        update_violations(text_view(payload.text)).len() == 0 ==> {
            &&& lookup(old(repository).entries(), id) is None ==> {
                &&& r == Reply::NotFound
                &&& final(repository).entries() == old(repository).entries()
            }
            &&& lookup(old(repository).entries(), id) is Some ==> {
                &&& final(repository).entries() == apply_update(
                    old(repository).entries(),
                    id,
                    text_view(payload.text),
                )
                &&& r matches Reply::Found(t) && t.id == id && lookup(
                    final(repository).entries(),
                    id,
                ) == Some(t.text@)
            }
        },
{
    let errors = validate_update_text(&payload.text);
    if errors.len() > 0 {
        return Reply::BadRequest(validation_message(&errors));
    }
    match repository.update(id, payload) {
        Ok(todo) => Reply::Found(todo),
        Err(RepositoryError::NotFound(_)) => Reply::NotFound,
    }
}

/// Deletes the todo under `id`: 204 when it was stored, 404 otherwise.
pub fn delete_todo<T: TodoRepository>(repository: &mut T, id: i32) -> (r: Reply)
    requires
        valid_entries(old(repository).entries()),
    ensures
        valid_entries(final(repository).entries()),
        lookup(old(repository).entries(), id) is Some <==> r == Reply::NoContent,
        lookup(old(repository).entries(), id) is None <==> r == Reply::NotFound,
        final(repository).entries() == without_id(old(repository).entries(), id),
        r == Reply::NotFound ==> final(repository).entries() == old(repository).entries(),
{
    match repository.delete(id) {
        Ok(()) => Reply::NoContent,
        Err(RepositoryError::NotFound(_)) => Reply::NotFound,
    }
}

} // verus!
