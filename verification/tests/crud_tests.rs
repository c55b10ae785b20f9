use samba_mounter::crud::{
    is_valid_identifier, paginate, query_offset, CreateTask, CreateTodo, Pagination,
    PaginationParams, UpdateTask, UpdateTodo,
};
use samba_mounter::greeting::greet;

fn params(page: Option<i32>, per_page: Option<i32>) -> PaginationParams {
    PaginationParams { page, per_page }
}

#[test]
fn pagination_rounds_the_page_count_up() {
    let p: Pagination = paginate(&params(Some(2), Some(10)), 25);
    assert_eq!(p.current_page, 2);
    assert_eq!(p.per_page, 10);
    assert_eq!(p.total, 25);
    assert_eq!(p.total_pages, 3);
}

#[test]
fn pagination_defaults_to_first_page_of_ten() {
    let p = paginate(&params(None, None), 10);
    assert_eq!(p.current_page, 1);
    assert_eq!(p.per_page, 10);
    assert_eq!(p.total_pages, 1);
}

#[test]
fn no_rows_means_no_pages() {
    let p = paginate(&params(None, None), 0);
    assert_eq!(p.total_pages, 0);
}

#[test]
fn offset_skips_the_earlier_pages() {
    assert_eq!(query_offset(&params(Some(3), Some(10))), 20);
    assert_eq!(query_offset(&params(None, None)), 0);
}

#[test]
fn pages_below_one_give_a_non_positive_offset() {
    assert_eq!(query_offset(&params(Some(0), Some(10))), -10);
    assert_eq!(query_offset(&params(Some(-2), Some(5))), -15);
    let p = paginate(&params(Some(0), Some(10)), 25);
    assert_eq!(p.current_page, 0);
    assert_eq!(p.total_pages, 3);
}

#[test]
fn identifiers_are_letters_digits_and_underscores() {
    assert!(is_valid_identifier("todos"));
    assert!(is_valid_identifier("user_1"));
    assert!(!is_valid_identifier(""));
    assert!(!is_valid_identifier("users; drop"));
    assert!(!is_valid_identifier("a-b"));
    // Unicode letters count as alphanumeric.
    assert!(is_valid_identifier("caf\u{e9}"));
}

#[test]
fn todo_update_fields_keep_only_what_is_set() {
    let all = UpdateTodo { title: Some("milk".to_string()), completed: Some(true) };
    assert_eq!(
        all.update_fields(),
        vec![
            ("title".to_string(), "milk".to_string()),
            ("completed".to_string(), "true".to_string()),
        ]
    );
    let none = UpdateTodo { title: None, completed: None };
    assert!(none.update_fields().is_empty());
    let done = UpdateTodo { title: None, completed: Some(false) };
    assert_eq!(done.update_fields(), vec![("completed".to_string(), "false".to_string())]);
}

#[test]
fn new_todos_start_uncompleted() {
    let c = CreateTodo { title: "milk".to_string() };
    assert_eq!(
        c.initial_fields(),
        vec![
            ("title".to_string(), "milk".to_string()),
            ("completed".to_string(), "false".to_string()),
        ]
    );
}

#[test]
fn task_update_fields_keep_only_what_is_set() {
    let some = UpdateTask {
        name: Some("n".to_string()),
        description: None,
        status: Some("completed".to_string()),
    };
    assert_eq!(
        some.update_fields(),
        vec![
            ("name".to_string(), "n".to_string()),
            ("status".to_string(), "completed".to_string()),
        ]
    );
}

#[test]
fn new_tasks_start_pending() {
    let c = CreateTask { name: "n".to_string(), description: "d".to_string() };
    assert_eq!(
        c.initial_fields(),
        vec![
            ("name".to_string(), "n".to_string()),
            ("description".to_string(), "d".to_string()),
            ("status".to_string(), "pending".to_string()),
        ]
    );
}

#[test]
fn greeting_names_the_caller() {
    assert_eq!(greet("World"), "Hello, World! You've been greeted from Rust!");
}
