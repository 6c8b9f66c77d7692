//! The storage interface for todos and its in-memory implementation.

use vstd::prelude::*;

use crate::todo::{
    apply_update, can_allocate, lemma_lookup_index, lemma_lookup_push, lemma_lookup_replace,
    lemma_lookup_without, lemma_max_id_bounds, lemma_without_absent, lemma_without_index, lookup,
    max_id, models, next_id, replace_text, text_view, valid_entries, without_id, CreateTodo, Todo,
    TodoModel, UpdateTodo,
};
use crate::validation::is_valid_text;

verus! {

/// The failure of a storage operation.
#[derive(Clone, Copy, Debug, PartialEq, Eq)]
pub enum RepositoryError {
    /// No todo is stored under the id.
    NotFound(i32),
}

/// What finding `id` in the stored entries `s` answers: the todo with its
/// stored text, or `NotFound` when no todo carries the id.
pub open spec fn find_outcome(s: Seq<TodoModel>, id: i32, r: Result<Todo, RepositoryError>) -> bool {
    match r {
        Ok(t) => t.id == id && lookup(s, id) == Some(t.text@),
        Err(e) => e == RepositoryError::NotFound(id) && lookup(s, id) is None,
    }
}

/// The entries after creating todos with the given texts, in turn, in an empty store.
pub open spec fn created_from_empty(texts: Seq<Seq<char>>) -> Seq<TodoModel>
    decreases texts.len(),
{
    if texts.len() == 0 {
        Seq::empty()
    } else {
        let s = created_from_empty(texts.drop_last());
        s.push(TodoModel { id: next_id(s) as i32, text: texts.last() })
    }
}

/// A creation allocates an id that no stored todo carries, and finding that
/// id afterwards gives the text it was created with.
pub proof fn create_then_find(s: Seq<TodoModel>, text: Seq<char>)
    requires
        valid_entries(s),
        can_allocate(s),
        is_valid_text(text),
    ensures
        next_id(s) > 0,
        lookup(s, next_id(s) as i32) is None,
        lookup(s.push(TodoModel { id: next_id(s) as i32, text }), next_id(s) as i32) == Some(text),
{
    lemma_max_id_bounds(s);
    lemma_lookup_index(s, next_id(s) as i32);
    lemma_lookup_push(s, TodoModel { id: next_id(s) as i32, text }, next_id(s) as i32);
}

/// Creating `n` todos in an empty store leaves exactly `n` entries, with the
/// ids 1 to `n` in order, each with its text; none are left after no creation.
pub proof fn creates_from_empty(texts: Seq<Seq<char>>)
    requires
        texts.len() < i32::MAX,
    ensures
        created_from_empty(texts).len() == texts.len(),
        valid_entries(created_from_empty(texts)),
        max_id(created_from_empty(texts)) == texts.len(),
        forall|i: int|
            0 <= i < texts.len() ==> (#[trigger] created_from_empty(texts)[i]).id == i + 1
                && created_from_empty(texts)[i].text == texts[i],
        texts.len() == 0 ==> created_from_empty(texts) == Seq::<TodoModel>::empty(),
    decreases texts.len(),
{
    if texts.len() > 0 {
        let d = texts.drop_last();
        creates_from_empty(d);
        let s = created_from_empty(d);
        let c = created_from_empty(texts);
        assert(c.drop_last() =~= s);
        assert forall|i: int| 0 <= i < texts.len() implies (#[trigger] c[i]).id == i + 1
            && c[i].text == texts[i] by {
            if i < d.len() {
                assert(c[i] == s[i]);
                assert(d[i] == texts[i]);
            }
        }
        assert forall|a: int, b: int| 0 <= a < c.len() && 0 <= b < c.len() && a != b
            implies c[a].id != c[b].id by {
            assert(c[a].id == a + 1 && c[b].id == b + 1);
        }
        assert forall|a: int| 0 <= a < c.len() implies c[a].id > 0 by {
            assert(c[a].id == a + 1);
        }
    }
}

/// An update with a text stores that text under its id; one without a text
/// changes nothing; every other id keeps what it had.
pub proof fn update_then_find(s: Seq<TodoModel>, id: i32, text: Option<Seq<char>>, other: i32)
    requires
        lookup(s, id) is Some,
    ensures
        match text {
            Some(t) => lookup(apply_update(s, id, text), id) == Some(t),
            None => apply_update(s, id, text) == s,
        },
        other != id ==> lookup(apply_update(s, id, text), other) == lookup(s, other),
{
    if let Some(t) = text {
        lemma_lookup_replace(s, id, t, id);
        lemma_lookup_replace(s, id, t, other);
    }
}

/// After a deletion the id is gone, and every other id keeps what it had.
pub proof fn delete_then_find(s: Seq<TodoModel>, id: i32, other: i32)
    ensures
        lookup(without_id(s, id), id) is None,
        other != id ==> lookup(without_id(s, id), other) == lookup(s, other),
{
    lemma_lookup_without(s, id, id);
    lemma_lookup_without(s, id, other);
}

/// Two finds of one id in an unchanged store answer the same: both the same
/// error, or todos with the same id and text.
pub proof fn find_twice(s: Seq<TodoModel>, id: i32, a: Result<Todo, RepositoryError>, b: Result<Todo, RepositoryError>)
    requires
        find_outcome(s, id, a),
        find_outcome(s, id, b),
    ensures
        match (a, b) {
            (Ok(x), Ok(y)) => x@ == y@,
            (Err(x), Err(y)) => x == y,
            _ => false,
        },
{
}

/// Storage of todos. Every operation keeps the stored ids unique and positive.
pub trait TodoRepository {
    /// The stored todos, in order of insertion.
    spec fn entries(&self) -> Seq<TodoModel>;

    /// Whether a creation can still allocate an id within the range of `i32`.
    fn has_free_id(&self) -> (r: bool)
        requires
            valid_entries(self.entries()),
        ensures
            r == can_allocate(self.entries()),
    ;

    /// Stores a new todo under one past the largest stored id (1 when empty).
    /// The text is stored as given: callers validate it first.
    fn create(&mut self, payload: CreateTodo) -> (r: Todo)
        requires
            valid_entries(old(self).entries()),
            can_allocate(old(self).entries()),
        ensures
            r.id == next_id(old(self).entries()),
            r.text@ == payload.text@,
            final(self).entries() == old(self).entries().push(r@),
            valid_entries(final(self).entries()),
    ;

    /// The todo stored under `id`.
    fn find(&self, id: i32) -> (r: Result<Todo, RepositoryError>)
        requires
            valid_entries(self.entries()),
        ensures
            find_outcome(self.entries(), id, r),
    ;

    /// A copy of every stored todo, in order of insertion.
    fn all(&self) -> (r: Vec<Todo>)
        requires
            valid_entries(self.entries()),
        ensures
            models(r@) == self.entries(),
    ;

    /// Replaces the text under `id` when the payload carries one, and returns
    /// the todo as it is then stored.
    fn update(&mut self, id: i32, payload: UpdateTodo) -> (r: Result<Todo, RepositoryError>)
        requires
            valid_entries(old(self).entries()),
        ensures
            valid_entries(final(self).entries()),
            match r {
                Ok(t) => {
                    &&& lookup(old(self).entries(), id) is Some
                    &&& final(self).entries() == apply_update(
                        old(self).entries(),
                        id,
                        text_view(payload.text),
                    )
                    &&& t.id == id
                    &&& lookup(final(self).entries(), id) == Some(t.text@)
                },
                Err(e) => {
                    &&& e == RepositoryError::NotFound(id)
                    &&& lookup(old(self).entries(), id) is None
                    &&& final(self).entries() == old(self).entries()
                },
            },
    ;

    /// Removes the todo stored under `id`.
    fn delete(&mut self, id: i32) -> (r: Result<(), RepositoryError>)
        requires
            valid_entries(old(self).entries()),
        ensures
            valid_entries(final(self).entries()),
            final(self).entries() == without_id(old(self).entries(), id),
            match r {
                Ok(()) => lookup(old(self).entries(), id) is Some,
                Err(e) => {
                    &&& e == RepositoryError::NotFound(id)
                    &&& lookup(old(self).entries(), id) is None
                    &&& final(self).entries() == old(self).entries()
                },
            },
    ;
}

/// Todos held in process memory, in order of insertion.
pub struct TodoRepositoryForMemory {
    todos: Vec<Todo>,
}

impl TodoRepositoryForMemory {
    /// An empty store.
    pub fn new() -> (r: TodoRepositoryForMemory)
        ensures
            r.entries() == Seq::<TodoModel>::empty(),
    {
        let r = TodoRepositoryForMemory { todos: Vec::new() };
        assert(r.entries() =~= Seq::<TodoModel>::empty());
        r
    }

    /// The largest stored id, or 0 when the store is empty.
    fn largest_id(&self) -> (r: i32)
        requires
            valid_entries(self.entries()),
        ensures
            r == max_id(self.entries()),
    {
        let ghost s = self.entries();
        let mut m: i32 = 0;
        let mut k: usize = 0;
        while k < self.todos.len()
            invariant
                s == self.entries(),
                0 <= k <= self.todos.len(),
                m == max_id(s.take(k as int)),
            decreases self.todos.len() - k,
        {
            let id = self.todos[k].id;
            proof {
                assert(s.take(k as int + 1).drop_last() =~= s.take(k as int));
                assert(s[k as int].id == id);
            }
            if id > m {
                m = id;
            }
            k = k + 1;
        }
        proof {
            assert(s.take(k as int) =~= s);
        }
        m
    }

    /// The position of the todo stored under `id`, if any.
    fn position(&self, id: i32) -> (r: Option<usize>)
        requires
            valid_entries(self.entries()),
        ensures
            match r {
                Some(i) => i < self.todos.len() && self.entries()[i as int].id == id
                    && lookup(self.entries(), id) == Some(self.entries()[i as int].text),
                None => lookup(self.entries(), id) is None,
            },
    {
        let ghost s = self.entries();
        let mut k: usize = 0;
        while k < self.todos.len()
            invariant
                s == self.entries(),
                valid_entries(s),
                0 <= k <= self.todos.len(),
                forall|j: int| 0 <= j < k ==> s[j].id != id,
            decreases self.todos.len() - k,
        {
            if self.todos[k].id == id {
                proof {
                    assert(s[k as int] == self.todos@[k as int]@);
                    lemma_lookup_index(s, id);
                }
                return Some(k);
            }
            k = k + 1;
        }
        proof {
            lemma_lookup_index(s, id);
        }
        None
    }
}

impl TodoRepository for TodoRepositoryForMemory {
    closed spec fn entries(&self) -> Seq<TodoModel> {
        models(self.todos@)
    }

    fn has_free_id(&self) -> (r: bool) {
        self.largest_id() < i32::MAX
    }

    fn create(&mut self, payload: CreateTodo) -> (r: Todo) {
        let ghost s = old(self).entries();
        let id = self.largest_id() + 1;
        let todo = Todo { id, text: payload.text.clone() };
        self.todos.push(Todo { id, text: payload.text });
        proof {
            lemma_max_id_bounds(s);
            assert(self.entries() =~= s.push(todo@));
            let e = self.entries();
            assert forall|i: int, j: int| 0 <= i < e.len() && 0 <= j < e.len() && i != j
                implies e[i].id != e[j].id by {
                if i < s.len() && j < s.len() {
                    assert(e[i] == s[i] && e[j] == s[j]);
                } else if i < s.len() {
                    assert(e[i] == s[i]);
                } else {
                    assert(e[j] == s[j]);
                }
            }
            assert forall|i: int| 0 <= i < e.len() implies e[i].id > 0 by {
                if i < s.len() {
                    assert(e[i] == s[i]);
                }
            }
        }
        todo
    }

    fn find(&self, id: i32) -> (r: Result<Todo, RepositoryError>) {
        match self.position(id) {
            Some(i) => {
                let t = &self.todos[i];
                Ok(Todo { id: t.id, text: t.text.clone() })
            },
            None => Err(RepositoryError::NotFound(id)),
        }
    }

    fn all(&self) -> (r: Vec<Todo>) {
        let mut out: Vec<Todo> = Vec::new();
        let mut k: usize = 0;
        while k < self.todos.len()
            invariant
                0 <= k <= self.todos.len(),
                models(out@) =~= models(self.todos@).take(k as int),
            decreases self.todos.len() - k,
        {
            let t = &self.todos[k];
            let ghost before = out@;
            out.push(Todo { id: t.id, text: t.text.clone() });
            proof {
                assert(models(out@) =~= models(before).push(out@[k as int]@));
                assert(models(self.todos@).take(k as int + 1) =~= models(self.todos@).take(
                    k as int,
                ).push(self.todos@[k as int]@));
            }
            k = k + 1;
        }
        proof {
            assert(models(self.todos@).take(k as int) =~= models(self.todos@));
        }
        out
    }

    fn update(&mut self, id: i32, payload: UpdateTodo) -> (r: Result<Todo, RepositoryError>) {
        let ghost s = old(self).entries();
        match self.position(id) {
            Some(i) => {
                let stored = match payload.text {
                    Some(text) => {
                        self.todos.set(i, Todo { id, text });
                        proof {
                            let e = self.entries();
                            let rt = replace_text(s, id, e[i as int].text);
                            assert(e =~= rt) by {
                                assert forall|j: int| 0 <= j < e.len() implies e[j] == rt[j] by {
                                    if j != i {
                                        assert(e[j] == s[j]);
                                    }
                                }
                            }
                        }
                        &self.todos[i]
                    },
                    None => &self.todos[i],
                };
                let t = Todo { id: stored.id, text: stored.text.clone() };
                proof {
                    let e = self.entries();
                    assert(e[i as int] == t@);
                    assert forall|a: int, b: int| 0 <= a < e.len() && 0 <= b < e.len() && a != b
                        implies e[a].id != e[b].id by {
                        assert(e[a].id == s[a].id && e[b].id == s[b].id);
                    }
                    assert forall|a: int| 0 <= a < e.len() implies e[a].id > 0 by {
                        assert(e[a].id == s[a].id);
                    }
                    lemma_lookup_index(e, id);
                }
                Ok(t)
            },
            None => Err(RepositoryError::NotFound(id)),
        }
    }

    fn delete(&mut self, id: i32) -> (r: Result<(), RepositoryError>) {
        let ghost s = old(self).entries();
        match self.position(id) {
            Some(i) => {
                self.todos.remove(i);
                proof {
                    lemma_without_index(s, id, i as int);
                    let e = self.entries();
                    assert(e =~= s.remove(i as int));
                    assert forall|a: int, b: int| 0 <= a < e.len() && 0 <= b < e.len() && a != b
                        implies e[a].id != e[b].id by {
                        let a2 = if a < i { a } else { a + 1 };
                        let b2 = if b < i { b } else { b + 1 };
                        assert(e[a] == s[a2] && e[b] == s[b2]);
                    }
                    assert forall|a: int| 0 <= a < e.len() implies e[a].id > 0 by {
                        let a2 = if a < i { a } else { a + 1 };
                        assert(e[a] == s[a2]);
                    }
                }
                Ok(())
            },
            None => {
                proof {
                    lemma_lookup_index(s, id);
                    lemma_without_absent(s, id);
                }
                Err(RepositoryError::NotFound(id))
            },
        }
    }
}

} // verus!
