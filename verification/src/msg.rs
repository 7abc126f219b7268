//! The messages that callers send and receive, and their mathematical views.

use vstd::prelude::*;

verus! {

/// One todo item. Its identity is `id`; nothing forces ids to be unique.
#[derive(Debug, PartialEq, Eq)]
pub struct Todo {
    pub id: i32,
    pub title: String,
    pub due_date: String,
    pub is_done: bool,
}

/// What a `Todo` holds, as plain mathematical values.
pub ghost struct TodoView {
    pub id: int,
    pub title: Seq<char>,
    pub due_date: Seq<char>,
    pub is_done: bool,
}

impl View for Todo {
    type V = TodoView;

    open spec fn view(&self) -> TodoView {
        TodoView {
            id: self.id as int,
            title: self.title@,
            due_date: self.due_date@,
            is_done: self.is_done,
        }
    }
}

impl Clone for Todo {
    fn clone(&self) -> (copy: Todo)
        ensures
            copy == *self,
    {
        Todo {
            id: self.id,
            title: self.title.clone(),
            due_date: self.due_date.clone(),
            is_done: self.is_done,
        }
    }
}

/// The views of a sequence of todos, in the same order.
pub open spec fn todo_views(todos: Seq<Todo>) -> Seq<TodoView> {
    todos.map_values(|todo: Todo| todo@)
}

/// Copies a list of todos, item by item.
pub fn clone_todos(todos: &Vec<Todo>) -> (copy: Vec<Todo>)
    ensures
        copy@ == todos@,
{
    let mut copy: Vec<Todo> = Vec::new();
    let mut i: usize = 0;
    while i < todos.len()
        invariant
            i <= todos.len(),
            copy@ == todos@.take(i as int),
        decreases todos.len() - i,
    {
        copy.push(todos[i].clone());
        i += 1;
    }
    copy
}

/// The message that creates the store: the todos it starts with.
#[derive(Debug, PartialEq, Eq)]
pub struct InstantiateMsg {
    pub todos: Vec<Todo>,
}

/// What an `InstantiateMsg` holds.
pub ghost struct InstantiateMsgView {
    pub todos: Seq<TodoView>,
}

impl View for InstantiateMsg {
    type V = InstantiateMsgView;

    open spec fn view(&self) -> InstantiateMsgView {
        InstantiateMsgView { todos: todo_views(self.todos@) }
    }
}

/// A request to change the list. Only the owner's requests are carried out.
#[derive(Debug, PartialEq, Eq)]
pub enum ExecuteMsg {
    Add { todo: Todo },
    Remove { todo: Todo },
    Update { todo: Todo },
    Reset {},
}

/// What an `ExecuteMsg` holds.
pub ghost enum ExecuteMsgView {
    Add { todo: TodoView },
    Remove { todo: TodoView },
    Update { todo: TodoView },
    Reset,
}

impl View for ExecuteMsg {
    type V = ExecuteMsgView;

    open spec fn view(&self) -> ExecuteMsgView {
        match *self {
            ExecuteMsg::Add { todo } => ExecuteMsgView::Add { todo: todo@ },
            ExecuteMsg::Remove { todo } => ExecuteMsgView::Remove { todo: todo@ },
            ExecuteMsg::Update { todo } => ExecuteMsgView::Update { todo: todo@ },
            ExecuteMsg::Reset {} => ExecuteMsgView::Reset,
        }
    }
}

/// A request to read the store.
#[derive(Debug, PartialEq, Eq)]
pub enum QueryMsg {
    GetTodos {},
}

/// The answer to `QueryMsg::GetTodos`: every todo, in stored order.
#[derive(Debug, PartialEq, Eq)]
pub struct GetTodosResponse {
    pub todos: Vec<Todo>,
}

/// What a `GetTodosResponse` holds.
pub ghost struct GetTodosResponseView {
    pub todos: Seq<TodoView>,
}

impl View for GetTodosResponse {
    type V = GetTodosResponseView;

    open spec fn view(&self) -> GetTodosResponseView {
        GetTodosResponseView { todos: todo_views(self.todos@) }
    }
}

} // verus!
