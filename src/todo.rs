//! The todo record, the payloads that create and change it, and the
//! mathematical model of a stored collection of todos.

use vstd::prelude::*;

verus! {

/// A stored todo item.
#[derive(Clone, Debug, PartialEq, Eq)]
pub struct Todo {
    pub id: i32,
    pub text: String,
}

/// The payload of a creation request.
#[derive(Clone, Debug, PartialEq, Eq)]
pub struct CreateTodo {
    pub text: String,
}

/// The payload of an update request. The `id` it carries is informational:
/// the id the caller addresses is authoritative.
#[derive(Clone, Debug, PartialEq, Eq)]
pub struct UpdateTodo {
    pub id: i32,
    pub text: Option<String>,
}

/// What a stored todo is, mathematically: its id and the characters of its text.
pub struct TodoModel {
    pub id: i32,
    pub text: Seq<char>,
}

impl View for Todo {
    type V = TodoModel;

    open spec fn view(&self) -> TodoModel {
        TodoModel { id: self.id, text: self.text@ }
    }
}

impl Todo {
    pub fn new(id: i32, text: String) -> (r: Todo)
        ensures
            r.id == id,
            r.text == text,
    {
        Todo { id, text }
    }
}

impl CreateTodo {
    pub fn new(text: String) -> (r: CreateTodo)
        ensures
            r.text == text,
    {
        CreateTodo { text }
    }
}

impl UpdateTodo {
    pub fn new(id: i32, text: Option<String>) -> (r: UpdateTodo)
        ensures
            r.id == id,
            r.text == text,
    {
        UpdateTodo { id, text }
    }
}

/// The models of a sequence of todos, element by element.
pub open spec fn models(v: Seq<Todo>) -> Seq<TodoModel> {
    v.map_values(|t: Todo| t@)
}

/// No two entries share an id.
pub open spec fn ids_unique(s: Seq<TodoModel>) -> bool {
    forall|i: int, j: int| 0 <= i < s.len() && 0 <= j < s.len() && i != j ==> s[i].id != s[j].id
}

/// Every id is a positive integer.
pub open spec fn ids_positive(s: Seq<TodoModel>) -> bool {
    forall|i: int| 0 <= i < s.len() ==> s[i].id > 0
}

/// The invariant of every stored collection.
pub open spec fn valid_entries(s: Seq<TodoModel>) -> bool {
    ids_unique(s) && ids_positive(s)
}

/// The largest id in the collection, or 0 when it is empty.
pub open spec fn max_id(s: Seq<TodoModel>) -> int
    decreases s.len(),
{
    if s.len() == 0 {
        0
    } else {
        let m = max_id(s.drop_last());
        if s.last().id > m {
            s.last().id as int
        } else {
            m
        }
    }
}

/// The id that the next creation allocates: one past the largest stored id.
pub open spec fn next_id(s: Seq<TodoModel>) -> int {
    max_id(s) + 1
}

/// Whether an id is still free for a creation within the range of `i32`.
pub open spec fn can_allocate(s: Seq<TodoModel>) -> bool {
    max_id(s) < i32::MAX
}

/// Whether some entry carries the id.
pub open spec fn has_id(s: Seq<TodoModel>, id: i32) -> bool {
    exists|i: int| 0 <= i < s.len() && s[i].id == id
}

/// The text stored under an id, if any.
pub open spec fn lookup(s: Seq<TodoModel>, id: i32) -> Option<Seq<char>>
    decreases s.len(),
{
    if s.len() == 0 {
        None
    } else if s.last().id == id {
        Some(s.last().text)
    } else {
        lookup(s.drop_last(), id)
    }
}

/// The collection with the text under `id` replaced; other entries unchanged.
pub open spec fn replace_text(s: Seq<TodoModel>, id: i32, text: Seq<char>) -> Seq<TodoModel> {
    s.map_values(|t: TodoModel| if t.id == id { TodoModel { id: t.id, text } } else { t })
}

/// The collection with every entry under `id` left out, order kept.
pub open spec fn without_id(s: Seq<TodoModel>, id: i32) -> Seq<TodoModel>
    decreases s.len(),
{
    if s.len() == 0 {
        s
    } else if s.last().id == id {
        without_id(s.drop_last(), id)
    } else {
        without_id(s.drop_last(), id).push(s.last())
    }
}

/// The stored collection after an update: the text replaced when one is given.
pub open spec fn apply_update(s: Seq<TodoModel>, id: i32, text: Option<Seq<char>>) -> Seq<TodoModel> {
    match text {
        Some(t) => replace_text(s, id, t),
        None => s,
    }
}

/// The characters of an optional text.
pub open spec fn text_view(text: Option<String>) -> Option<Seq<char>> {
    match text {
        Some(t) => Some(t@),
        None => None,
    }
}

/// Every stored id is at most the largest one, which is never negative.
pub proof fn lemma_max_id_bounds(s: Seq<TodoModel>)
    ensures
        max_id(s) >= 0,
        forall|i: int| 0 <= i < s.len() ==> s[i].id <= max_id(s),
    decreases s.len(),
{
    if s.len() > 0 {
        lemma_max_id_bounds(s.drop_last());
        assert forall|i: int| 0 <= i < s.len() implies s[i].id <= max_id(s) by {
            if i < s.len() - 1 {
                assert(s[i] == s.drop_last()[i]);
            }
        }
    }
}

/// The stored text under an id is found exactly where that id stands.
pub proof fn lemma_lookup_index(s: Seq<TodoModel>, id: i32)
    requires
        ids_unique(s),
    ensures
        lookup(s, id) is Some <==> has_id(s, id),
        forall|i: int| 0 <= i < s.len() && s[i].id == id ==> lookup(s, id) == Some(s[i].text),
    decreases s.len(),
{
    if s.len() > 0 {
        let d = s.drop_last();
        assert(ids_unique(d)) by {
            assert forall|i: int, j: int| 0 <= i < d.len() && 0 <= j < d.len() && i != j
                implies d[i].id != d[j].id by {
                assert(d[i] == s[i] && d[j] == s[j]);
            }
        }
        lemma_lookup_index(d, id);
        if s.last().id != id {
            if has_id(s, id) {
                let k = choose|k: int| 0 <= k < s.len() && s[k].id == id;
                assert(d[k] == s[k]);
            }
            if has_id(d, id) {
                let k = choose|k: int| 0 <= k < d.len() && d[k].id == id;
                assert(d[k] == s[k]);
            }
            assert forall|i: int| 0 <= i < s.len() && s[i].id == id implies lookup(s, id) == Some(
                s[i].text,
            ) by {
                assert(d[i] == s[i]);
            }
        } else {
            assert(has_id(s, id));
        }
    } else {
        assert(!has_id(s, id));
    }
}

/// Lookup in a collection extended by one entry.
pub proof fn lemma_lookup_push(s: Seq<TodoModel>, t: TodoModel, id: i32)
    ensures
        lookup(s.push(t), id) == if t.id == id {
            Some(t.text)
        } else {
            lookup(s, id)
        },
{
    assert(s.push(t).drop_last() =~= s);
}

/// Without the id, a collection that does not hold it is unchanged.
pub proof fn lemma_without_absent(s: Seq<TodoModel>, id: i32)
    requires
        !has_id(s, id),
    ensures
        without_id(s, id) == s,
    decreases s.len(),
{
    if s.len() > 0 {
        let d = s.drop_last();
        assert(!has_id(d, id)) by {
            if has_id(d, id) {
                let k = choose|k: int| 0 <= k < d.len() && d[k].id == id;
                assert(s[k] == d[k]);
            }
        }
        lemma_without_absent(d, id);
        assert(s.last() == s[s.len() - 1]);
        assert(d.push(s.last()) =~= s);
    }
}

/// Without the id, a collection with unique ids loses exactly the entry at its index.
pub proof fn lemma_without_index(s: Seq<TodoModel>, id: i32, i: int)
    requires
        ids_unique(s),
        0 <= i < s.len(),
        s[i].id == id,
    ensures
        without_id(s, id) =~= s.remove(i),
    decreases s.len(),
{
    let d = s.drop_last();
    assert(ids_unique(d)) by {
        assert forall|a: int, b: int| 0 <= a < d.len() && 0 <= b < d.len() && a != b
            implies d[a].id != d[b].id by {
            assert(d[a] == s[a] && d[b] == s[b]);
        }
    }
    if i == s.len() - 1 {
        assert(!has_id(d, id)) by {
            if has_id(d, id) {
                let k = choose|k: int| 0 <= k < d.len() && d[k].id == id;
                assert(s[k] == d[k]);
            }
        }
        lemma_without_absent(d, id);
        assert(s.remove(i) =~= d);
    } else {
        assert(s.last().id != id) by {
            assert(s.last() == s[s.len() - 1]);
        }
        lemma_without_index(d, id, i);
        assert(d.remove(i).push(s.last()) =~= s.remove(i));
    }
}

/// Lookup after an entry is left out: that id is gone, every other one is as before.
pub proof fn lemma_lookup_without(s: Seq<TodoModel>, id: i32, x: i32)
    ensures
        lookup(without_id(s, id), x) == if x == id {
            None
        } else {
            lookup(s, x)
        },
    decreases s.len(),
{
    if s.len() > 0 {
        lemma_lookup_without(s.drop_last(), id, x);
        if s.last().id != id {
            lemma_lookup_push(without_id(s.drop_last(), id), s.last(), x);
        }
    }
}

/// Lookup after a text is replaced: the new text under that id, every other id as before.
pub proof fn lemma_lookup_replace(s: Seq<TodoModel>, id: i32, text: Seq<char>, x: i32)
    ensures
        lookup(replace_text(s, id, text), x) == if x == id && lookup(s, id) is Some {
            Some(text)
        } else {
            lookup(s, x)
        },
    decreases s.len(),
{
    if s.len() > 0 {
        let d = s.drop_last();
        assert(replace_text(s, id, text).drop_last() =~= replace_text(d, id, text));
        lemma_lookup_replace(d, id, text, x);
    }
}

} // verus!
