use todo_stream::{
    error_status, todo_created, validate_description, Bus, MutationKind, Received, RequestError,
    StoreError, Todo, TodoUpdate, BUS_CAPACITY,
};

#[test]
fn description_is_required() {
    assert_eq!(validate_description(None), Err(RequestError::MissingDescription));
    assert_eq!(
        validate_description(Some(String::new())),
        Err(RequestError::MissingDescription)
    );
    assert_eq!(validate_description(Some("buy milk".to_string())), Ok("buy milk".to_string()));
}

#[test]
fn statuses() {
    assert_eq!(error_status(RequestError::MissingDescription), 400);
    assert_eq!(error_status(RequestError::Store(StoreError::Rejected)), 422);
    assert_eq!(error_status(RequestError::Store(StoreError::Unavailable)), 500);
}

#[test]
fn created_todo_is_published_and_echoed() {
    let mut bus = Bus::new(BUS_CAPACITY);
    let s = bus.subscribe().unwrap();
    let (page, told) = todo_created(&mut bus, Todo { id: 3, description: "buy milk".to_string() });
    assert_eq!(told, 1);
    assert_eq!(page.todo.id, 3);
    assert_eq!(page.todo.description, "buy milk");
    assert_eq!(bus.recv(s), Received::Update(TodoUpdate::new(MutationKind::Create, 3)));
}

#[test]
fn create_with_no_listener_still_succeeds() {
    let mut bus = Bus::new(BUS_CAPACITY);
    let (page, told) = todo_created(&mut bus, Todo { id: 8, description: "x".to_string() });
    assert_eq!(told, 0);
    assert_eq!(page.todo.id, 8);
}

#[test]
fn delete_is_published_even_twice() {
    let mut bus = Bus::new(BUS_CAPACITY);
    let s = bus.subscribe().unwrap();
    assert_eq!(todo_stream::todo_deleted(&mut bus, 4), 1);
    assert_eq!(todo_stream::todo_deleted(&mut bus, 4), 1);
    let d = TodoUpdate::new(MutationKind::Delete, 4);
    assert_eq!(bus.recv(s), Received::Update(d));
    assert_eq!(bus.recv(s), Received::Update(d));
}
