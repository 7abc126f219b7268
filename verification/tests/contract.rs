use cosmwasm_std::{attr, Response};
use todo_store::contract::execute::{add, remove, reset, update};
use todo_store::contract::query::get_todos;
use todo_store::contract::{execute, instantiate, query};
use todo_store::error::ContractError;
use todo_store::msg::{ExecuteMsg, GetTodosResponse, InstantiateMsg, QueryMsg, Todo};
use todo_store::state::Store;

fn todo(id: i32, title: &str) -> Todo {
    Todo {
        id,
        title: title.to_string(),
        due_date: "2024-01-01".to_string(),
        is_done: false,
    }
}

fn who(name: &str) -> String {
    name.to_string()
}

fn store_of(owner: &str, todos: Vec<Todo>) -> Store {
    let mut store = Store::new();
    instantiate(&mut store, &who(owner), InstantiateMsg { todos }).unwrap();
    store
}

fn list(store: &Store) -> Vec<Todo> {
    get_todos(store).unwrap().todos
}

fn ack(action: &str) -> Response {
    Response::new().add_attribute("action", action)
}

#[test]
fn owner_adds_stranger_is_refused_owner_removes() {
    let mut store = store_of("A", vec![]);
    assert_eq!(list(&store), vec![]);

    add(&mut store, &who("A"), todo(1, "x")).unwrap();
    assert_eq!(list(&store), vec![todo(1, "x")]);

    let refused = remove(&mut store, &who("B"), todo(1, "x"));
    assert_eq!(refused, Err(ContractError::Unauthorized));
    assert_eq!(list(&store).len(), 1);

    remove(&mut store, &who("A"), todo(1, "x")).unwrap();
    assert_eq!(list(&store), vec![]);
}

#[test]
fn update_moves_the_record_to_the_end() {
    let mut store = store_of("A", vec![todo(1, "a"), todo(2, "b")]);
    update(&mut store, &who("A"), todo(1, "c")).unwrap();
    assert_eq!(list(&store), vec![todo(2, "b"), todo(1, "c")]);
}

#[test]
fn update_without_a_match_appends() {
    let mut store = store_of("A", vec![todo(1, "a")]);
    update(&mut store, &who("A"), todo(7, "new")).unwrap();
    assert_eq!(list(&store), vec![todo(1, "a"), todo(7, "new")]);
}

#[test]
fn update_replaces_every_record_of_the_id() {
    let mut store = store_of("A", vec![todo(1, "a"), todo(2, "b"), todo(1, "c"), todo(3, "d")]);
    update(&mut store, &who("A"), todo(1, "z")).unwrap();
    assert_eq!(list(&store), vec![todo(2, "b"), todo(3, "d"), todo(1, "z")]);
}

#[test]
fn stranger_is_refused_by_every_change() {
    let start = vec![todo(1, "a"), todo(2, "b")];
    let mut store = store_of("A", start.clone());
    let before = store.clone();
    let stranger = who("B");

    assert_eq!(add(&mut store, &stranger, todo(3, "c")), Err(ContractError::Unauthorized));
    assert_eq!(store, before);
    assert_eq!(remove(&mut store, &stranger, todo(1, "a")), Err(ContractError::Unauthorized));
    assert_eq!(store, before);
    assert_eq!(update(&mut store, &stranger, todo(1, "z")), Err(ContractError::Unauthorized));
    assert_eq!(store, before);
    assert_eq!(reset(&mut store, &stranger), Err(ContractError::Unauthorized));
    assert_eq!(store, before);
    assert_eq!(list(&store), start);
}

#[test]
fn stranger_is_refused_through_execute() {
    let mut store = store_of("A", vec![todo(1, "a")]);
    let before = store.clone();
    let stranger = who("B");
    let msgs = vec![
        ExecuteMsg::Add { todo: todo(2, "b") },
        ExecuteMsg::Remove { todo: todo(1, "a") },
        ExecuteMsg::Update { todo: todo(1, "z") },
        ExecuteMsg::Reset {},
    ];
    for msg in msgs {
        assert_eq!(execute(&mut store, &stranger, msg), Err(ContractError::Unauthorized));
        assert_eq!(store, before);
    }
}

#[test]
fn owner_is_compared_as_text() {
    let mut store = store_of("owner", vec![]);
    assert_eq!(add(&mut store, &who("Owner"), todo(1, "a")), Err(ContractError::Unauthorized));
    assert_eq!(add(&mut store, &who("owner "), todo(1, "a")), Err(ContractError::Unauthorized));
    assert_eq!(add(&mut store, &who(""), todo(1, "a")), Err(ContractError::Unauthorized));
    assert!(add(&mut store, &who("owner"), todo(1, "a")).is_ok());
}

#[test]
fn add_appends_one_record_last() {
    let mut store = store_of("A", vec![todo(1, "a"), todo(2, "b")]);
    add(&mut store, &who("A"), todo(3, "c")).unwrap();
    let after = list(&store);
    assert_eq!(after.len(), 3);
    assert_eq!(after[2], todo(3, "c"));
    assert_eq!(after[..2], [todo(1, "a"), todo(2, "b")]);
}

#[test]
fn add_takes_an_id_that_is_already_there() {
    let mut store = store_of("A", vec![todo(1, "a")]);
    add(&mut store, &who("A"), todo(1, "again")).unwrap();
    assert_eq!(list(&store), vec![todo(1, "a"), todo(1, "again")]);
}

#[test]
fn remove_deletes_every_record_of_the_id() {
    let mut store = store_of(
        "A",
        vec![todo(1, "a"), todo(2, "b"), todo(1, "c"), todo(3, "d"), todo(1, "e")],
    );
    remove(&mut store, &who("A"), todo(1, "whatever")).unwrap();
    let after = list(&store);
    assert!(after.iter().all(|t| t.id != 1));
    assert_eq!(after, vec![todo(2, "b"), todo(3, "d")]);
}

#[test]
fn remove_without_a_match_changes_nothing() {
    let mut store = store_of("A", vec![todo(1, "a"), todo(2, "b")]);
    let reply = remove(&mut store, &who("A"), todo(9, "none"));
    assert_eq!(reply, Ok(ack("remove")));
    assert_eq!(list(&store), vec![todo(1, "a"), todo(2, "b")]);
}

#[test]
fn remove_goes_by_id_alone() {
    let mut store = store_of("A", vec![todo(1, "a")]);
    let mut other = todo(1, "different title");
    other.due_date = "1999-12-31".to_string();
    other.is_done = true;
    remove(&mut store, &who("A"), other).unwrap();
    assert_eq!(list(&store), vec![]);
}

#[test]
fn reset_empties_the_list_and_keeps_the_owner() {
    let mut store = store_of("A", vec![todo(1, "a"), todo(2, "b")]);
    reset(&mut store, &who("A")).unwrap();
    assert_eq!(list(&store), vec![]);
    assert_eq!(store.load().unwrap().owner(), "A");

    reset(&mut store, &who("A")).unwrap();
    assert_eq!(list(&store), vec![]);
}

#[test]
fn owner_stays_through_any_calls() {
    let mut store = store_of("A", vec![todo(1, "a")]);
    let calls = vec![
        ("A", ExecuteMsg::Add { todo: todo(2, "b") }),
        ("B", ExecuteMsg::Reset {}),
        ("A", ExecuteMsg::Update { todo: todo(1, "z") }),
        ("C", ExecuteMsg::Add { todo: todo(5, "c") }),
        ("A", ExecuteMsg::Remove { todo: todo(2, "b") }),
        ("A", ExecuteMsg::Reset {}),
        ("B", ExecuteMsg::Update { todo: todo(1, "q") }),
    ];
    for (sender, msg) in calls {
        let _ = execute(&mut store, &who(sender), msg);
        assert_eq!(store.load().unwrap().owner(), "A");
    }
    assert_eq!(list(&store), vec![]);
}

#[test]
fn changes_are_acknowledged_by_name() {
    let mut store = store_of("A", vec![]);
    let a = who("A");
    assert_eq!(add(&mut store, &a, todo(1, "a")), Ok(ack("add")));
    assert_eq!(update(&mut store, &a, todo(1, "b")), Ok(ack("update")));
    assert_eq!(remove(&mut store, &a, todo(1, "b")), Ok(ack("remove")));
    assert_eq!(reset(&mut store, &a), Ok(ack("reset")));
}

#[test]
fn acknowledgment_holds_one_attribute_and_nothing_else() {
    let mut store = store_of("A", vec![]);
    let reply = add(&mut store, &who("A"), todo(1, "a")).unwrap();
    assert_eq!(reply.attributes, vec![attr("action", "add")]);
    assert!(reply.messages.is_empty());
    assert!(reply.events.is_empty());
    assert_eq!(reply.data, None);
}

#[test]
fn execute_carries_out_each_kind_of_change() {
    let mut store = store_of("A", vec![todo(1, "a")]);
    let a = who("A");

    let reply = execute(&mut store, &a, ExecuteMsg::Add { todo: todo(2, "b") });
    assert_eq!(reply, Ok(ack("add")));
    assert_eq!(list(&store), vec![todo(1, "a"), todo(2, "b")]);

    let reply = execute(&mut store, &a, ExecuteMsg::Update { todo: todo(1, "c") });
    assert_eq!(reply, Ok(ack("update")));
    assert_eq!(list(&store), vec![todo(2, "b"), todo(1, "c")]);

    let reply = execute(&mut store, &a, ExecuteMsg::Remove { todo: todo(2, "b") });
    assert_eq!(reply, Ok(ack("remove")));
    assert_eq!(list(&store), vec![todo(1, "c")]);

    let reply = execute(&mut store, &a, ExecuteMsg::Reset {});
    assert_eq!(reply, Ok(ack("reset")));
    assert_eq!(list(&store), vec![]);
}

#[test]
fn calls_on_a_store_never_created_find_nothing() {
    let mut store = Store::new();
    let a = who("A");
    assert_eq!(add(&mut store, &a, todo(1, "a")), Err(ContractError::NotFound));
    assert_eq!(remove(&mut store, &a, todo(1, "a")), Err(ContractError::NotFound));
    assert_eq!(update(&mut store, &a, todo(1, "a")), Err(ContractError::NotFound));
    assert_eq!(reset(&mut store, &a), Err(ContractError::NotFound));
    assert_eq!(execute(&mut store, &a, ExecuteMsg::Reset {}), Err(ContractError::NotFound));
    assert_eq!(get_todos(&store), Err(ContractError::NotFound));
    assert_eq!(query(&store, QueryMsg::GetTodos {}), Err(ContractError::NotFound));
    assert_eq!(store, Store::new());
}

#[test]
fn instantiate_makes_the_sender_owner_and_takes_the_todos_as_given() {
    let mut store = Store::new();
    let given = vec![todo(1, "a"), todo(1, "a"), todo(-4, "")];
    let reply = instantiate(&mut store, &who("A"), InstantiateMsg { todos: given.clone() });
    assert!(reply.is_ok());
    let state = store.load().unwrap();
    assert_eq!(state.owner(), "A");
    assert_eq!(state.todos(), &given);
}

#[test]
fn instantiate_replies_with_method_owner_and_todos() {
    let mut store = Store::new();
    let reply = instantiate(&mut store, &who("A"), InstantiateMsg { todos: vec![todo(1, "x")] })
        .unwrap();
    assert_eq!(
        reply.attributes,
        vec![
            attr("method", "instantiate"),
            attr("owner", "A"),
            attr(
                "todos",
                "[Todo { id: 1, title: \"x\", due_date: \"2024-01-01\", is_done: false }]"
            ),
        ]
    );
    assert!(reply.messages.is_empty());
    assert!(reply.events.is_empty());
    assert_eq!(reply.data, None);
}

#[test]
fn instantiate_with_no_todos_replies_with_an_empty_list() {
    let mut store = Store::new();
    let reply = instantiate(&mut store, &who("A"), InstantiateMsg { todos: vec![] }).unwrap();
    assert_eq!(reply.attributes[2], attr("todos", "[]"));
}

#[test]
fn instantiate_again_replaces_the_record() {
    let mut store = store_of("A", vec![todo(1, "a")]);
    instantiate(&mut store, &who("B"), InstantiateMsg { todos: vec![todo(2, "b")] }).unwrap();
    let state = store.load().unwrap();
    assert_eq!(state.owner(), "B");
    assert_eq!(state.todos(), &vec![todo(2, "b")]);
}

#[test]
fn query_lists_everything_in_stored_order() {
    let todos = vec![todo(3, "c"), todo(1, "a"), todo(2, "b"), todo(1, "a")];
    let store = store_of("A", todos.clone());
    assert_eq!(query(&store, QueryMsg::GetTodos {}), Ok(GetTodosResponse { todos: todos.clone() }));
    assert_eq!(get_todos(&store), Ok(GetTodosResponse { todos }));
}

#[test]
fn reading_changes_nothing() {
    let store = store_of("A", vec![todo(1, "a")]);
    let before = store.clone();
    let _ = get_todos(&store);
    let _ = query(&store, QueryMsg::GetTodos {});
    assert_eq!(store, before);
}
