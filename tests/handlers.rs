use todo_api::handlers::{
    all_todo, create_todo, delete_todo, find_todo, root, update_todo, Reply,
};
use todo_api::repository::{RepositoryError, TodoRepository, TodoRepositoryForMemory};
use todo_api::todo::{CreateTodo, Todo, UpdateTodo};

fn create(text: &str) -> CreateTodo {
    CreateTodo::new(text.to_string())
}

#[test]
fn should_return_hello_world() {
    let reply = root();
    assert_eq!(reply.status(), 200);
    assert_eq!(reply, Reply::Text("Hello, world!".to_string()));
}

#[test]
fn should_created_todo() {
    let expected = Todo::new(1, "should_return_created_todo".to_string());
    let mut repository = TodoRepositoryForMemory::new();
    let reply = create_todo(&mut repository, create("should_return_created_todo"));
    assert_eq!(Reply::Created(expected), reply);
}

#[test]
fn should_find_todo() {
    let expexted = Todo::new(1, "should_find_todo".to_string());
    let mut repository = TodoRepositoryForMemory::new();
    repository.create(create("should_find_todo"));
    let reply = find_todo(&repository, 1);
    assert_eq!(Reply::Found(expexted), reply);
}

#[test]
fn should_get_all_todos() {
    let expected = Todo::new(1, "should_get_all_todos".to_string());
    let mut repository = TodoRepositoryForMemory::new();
    repository.create(create("should_get_all_todos"));
    let reply = all_todo(&repository);
    assert_eq!(Reply::Listed(vec![expected]), reply);
}

#[test]
fn should_update_todo() {
    let expected = Todo::new(1, "after_update_todo".to_string());
    let mut repository = TodoRepositoryForMemory::new();
    repository.create(create("before_update_todo"));
    let payload = UpdateTodo::new(1, Some("after_update_todo".to_string()));
    let reply = update_todo(&mut repository, 1, payload);
    assert_eq!(Reply::Found(expected), reply);
}

#[test]
fn should_delete_todo() {
    let mut repository = TodoRepositoryForMemory::new();
    repository.create(create("before_delete_todo"));
    let reply = delete_todo(&mut repository, 1);
    assert_eq!(204, reply.status());
}

#[test]
fn should_fail_validate_empty_text() {
    let mut repository = TodoRepositoryForMemory::new();
    let reply = create_todo(&mut repository, create(""));
    assert_eq!(reply.status(), 400);
    assert_eq!(
        Reply::BadRequest("Validation error: [text: Can not be empty]".to_string()),
        reply
    );
}

#[test]
fn should_fail_validate_over_100_text() {
    let mut repository = TodoRepositoryForMemory::new();
    let text = "aaaaaaaaaaaaaaaaaaaaaaaaaaaaaaaaaaaaaaaaaaaaaaaaaaaaaaaaaaaaaaaaaaaaaaaaaaaaaaaaaaaaaaaaaaaaaaaaaaaaa";
    let reply = create_todo(&mut repository, create(text));
    assert_eq!(reply.status(), 400);
    assert_eq!(
        Reply::BadRequest("Validation error: [text: Over text length]".to_string()),
        reply
    );
}

#[test]
fn post_buy_milk_answers_created_with_id_one() {
    let mut repository = TodoRepositoryForMemory::new();
    let reply = create_todo(&mut repository, create("buy milk"));
    assert_eq!(reply.status(), 201);
    assert_eq!(reply, Reply::Created(Todo::new(1, "buy milk".to_string())));
}

#[test]
fn rejected_create_leaves_store_empty() {
    let mut repository = TodoRepositoryForMemory::new();
    create_todo(&mut repository, create(""));
    create_todo(&mut repository, create(&"a".repeat(101)));
    assert_eq!(repository.all(), Vec::<Todo>::new());
}

#[test]
fn text_of_exactly_100_characters_is_accepted() {
    let mut repository = TodoRepositoryForMemory::new();
    let text = "a".repeat(100);
    let reply = create_todo(&mut repository, create(&text));
    assert_eq!(reply, Reply::Created(Todo::new(1, text)));
}

#[test]
fn length_counts_characters_not_bytes() {
    let mut repository = TodoRepositoryForMemory::new();
    let text = "é".repeat(100);
    assert_eq!(text.len(), 200);
    let reply = create_todo(&mut repository, create(&text));
    assert_eq!(reply.status(), 201);
    let reply = create_todo(&mut repository, create(&"é".repeat(101)));
    assert_eq!(reply.status(), 400);
}

#[test]
fn find_after_create_and_missing_id() {
    let mut repository = TodoRepositoryForMemory::new();
    create_todo(&mut repository, create("water plants"));
    let reply = find_todo(&repository, 1);
    assert_eq!(reply.status(), 200);
    assert_eq!(reply, Reply::Found(Todo::new(1, "water plants".to_string())));
    let missing = find_todo(&repository, 999);
    assert_eq!(missing, Reply::NotFound);
    assert_eq!(missing.status(), 404);
}

#[test]
fn patch_before_to_after() {
    let mut repository = TodoRepositoryForMemory::new();
    create_todo(&mut repository, create("before"));
    let reply = update_todo(&mut repository, 1, UpdateTodo::new(1, Some("after".to_string())));
    assert_eq!(reply.status(), 200);
    assert_eq!(reply, Reply::Found(Todo::new(1, "after".to_string())));
    assert_eq!(
        find_todo(&repository, 1),
        Reply::Found(Todo::new(1, "after".to_string()))
    );
}

#[test]
fn delete_then_find_answers_not_found() {
    let mut repository = TodoRepositoryForMemory::new();
    create_todo(&mut repository, create("gone soon"));
    let reply = delete_todo(&mut repository, 1);
    assert_eq!(reply, Reply::NoContent);
    assert_eq!(find_todo(&repository, 1), Reply::NotFound);
    assert_eq!(delete_todo(&mut repository, 1), Reply::NotFound);
}

#[test]
fn update_without_text_keeps_text() {
    let mut repository = TodoRepositoryForMemory::new();
    create_todo(&mut repository, create("keep me"));
    let reply = update_todo(&mut repository, 1, UpdateTodo::new(1, None));
    assert_eq!(reply, Reply::Found(Todo::new(1, "keep me".to_string())));
}

#[test]
fn update_with_invalid_text_is_rejected_and_changes_nothing() {
    let mut repository = TodoRepositoryForMemory::new();
    create_todo(&mut repository, create("original"));
    let reply = update_todo(&mut repository, 1, UpdateTodo::new(1, Some(String::new())));
    assert_eq!(
        reply,
        Reply::BadRequest("Validation error: [text: Can not be empty]".to_string())
    );
    let reply = update_todo(&mut repository, 1, UpdateTodo::new(1, Some("b".repeat(101))));
    assert_eq!(
        reply,
        Reply::BadRequest("Validation error: [text: Over text length]".to_string())
    );
    assert_eq!(
        find_todo(&repository, 1),
        Reply::Found(Todo::new(1, "original".to_string()))
    );
}

#[test]
fn update_of_missing_id_answers_not_found() {
    let mut repository = TodoRepositoryForMemory::new();
    let reply = update_todo(&mut repository, 3, UpdateTodo::new(3, Some("x".to_string())));
    assert_eq!(reply, Reply::NotFound);
    assert_eq!(reply.status(), 404);
}

#[test]
fn path_id_wins_over_payload_id() {
    let mut repository = TodoRepositoryForMemory::new();
    create_todo(&mut repository, create("one"));
    create_todo(&mut repository, create("two"));
    let reply = update_todo(&mut repository, 2, UpdateTodo::new(1, Some("changed".to_string())));
    assert_eq!(reply, Reply::Found(Todo::new(2, "changed".to_string())));
    assert_eq!(find_todo(&repository, 1), Reply::Found(Todo::new(1, "one".to_string())));
}

#[test]
fn all_lists_in_insertion_order() {
    let mut repository = TodoRepositoryForMemory::new();
    assert_eq!(all_todo(&repository), Reply::Listed(Vec::new()));
    create_todo(&mut repository, create("a"));
    create_todo(&mut repository, create("b"));
    create_todo(&mut repository, create("c"));
    let reply = all_todo(&repository);
    assert_eq!(reply.status(), 200);
    assert_eq!(
        reply,
        Reply::Listed(vec![
            Todo::new(1, "a".to_string()),
            Todo::new(2, "b".to_string()),
            Todo::new(3, "c".to_string()),
        ])
    );
}

#[test]
fn next_id_is_one_past_the_largest() {
    let mut repository = TodoRepositoryForMemory::new();
    create_todo(&mut repository, create("a"));
    create_todo(&mut repository, create("b"));
    create_todo(&mut repository, create("c"));
    delete_todo(&mut repository, 2);
    let reply = create_todo(&mut repository, create("d"));
    assert_eq!(reply, Reply::Created(Todo::new(4, "d".to_string())));
    delete_todo(&mut repository, 4);
    let reply = create_todo(&mut repository, create("e"));
    assert_eq!(reply, Reply::Created(Todo::new(4, "e".to_string())));
}

#[test]
fn delete_leaves_other_ids() {
    let mut repository = TodoRepositoryForMemory::new();
    create_todo(&mut repository, create("a"));
    create_todo(&mut repository, create("b"));
    create_todo(&mut repository, create("c"));
    assert_eq!(delete_todo(&mut repository, 2), Reply::NoContent);
    assert_eq!(
        repository.all(),
        vec![Todo::new(1, "a".to_string()), Todo::new(3, "c".to_string())]
    );
}

#[test]
fn find_twice_answers_the_same() {
    let mut repository = TodoRepositoryForMemory::new();
    repository.create(create("same"));
    assert_eq!(repository.find(1), repository.find(1));
    assert_eq!(repository.find(7), repository.find(7));
}

#[test]
fn repository_reports_not_found() {
    let mut repository = TodoRepositoryForMemory::new();
    assert_eq!(repository.find(5), Err(RepositoryError::NotFound(5)));
    assert_eq!(
        repository.update(5, UpdateTodo::new(5, None)),
        Err(RepositoryError::NotFound(5))
    );
    assert_eq!(repository.delete(5), Err(RepositoryError::NotFound(5)));
    assert!(repository.has_free_id());
}

#[test]
fn repository_create_stores_unvalidated_text() {
    let mut repository = TodoRepositoryForMemory::new();
    let todo = repository.create(create(""));
    assert_eq!(todo, Todo::new(1, String::new()));
    assert_eq!(repository.find(1), Ok(Todo::new(1, String::new())));
}
