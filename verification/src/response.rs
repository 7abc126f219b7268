//! The acknowledgment handed back to the host: a `cosmwasm_std::Response`,
//! known to the verifier only by what the declarations below say of it.

use crate::msg::{todo_views, Todo, TodoView};
use cosmwasm_std::{Empty, Response};
use vstd::prelude::*;

verus! {

/// `cosmwasm_std::Empty`, the custom-message type of a plain response. Opaque.
#[verifier::external_type_specification]
#[verifier::external_body]
pub struct ExEmpty(cosmwasm_std::Empty);

/// `cosmwasm_std::Response`. Opaque: its contents are named by
/// `response_attributes` and `response_extras`.
#[verifier::external_type_specification]
#[verifier::external_body]
#[verifier::reject_recursive_types(T)]
pub struct ExResponse<T>(cosmwasm_std::Response<T>);

/// The field `attributes` of a response: its (key, value) pairs, in order.
pub uninterp spec fn response_attributes(response: Response<Empty>) -> Seq<(Seq<char>, Seq<char>)>;

/// How many entries the fields `messages` and `events` of a response hold,
/// plus one if its field `data` is set.
pub uninterp spec fn response_extras(response: Response<Empty>) -> nat;

/// Whether `Response::add_attribute` takes `key`: in a debug build
/// `Attribute::new` panics on a key that starts with an underscore.
pub open spec fn key_is_free(key: Seq<char>) -> bool {
    key.len() > 0 ==> key[0] != '_'
}

/// Calls `Response::new`, which returns the default response: all three
/// lists empty and no data.
#[verifier::external_body]
fn new_response() -> (response: Response<Empty>)
    ensures
        response_attributes(response) == Seq::<(Seq<char>, Seq<char>)>::empty(),
        response_extras(response) == 0,
{
    Response::new()
}

/// Calls `Response::add_attribute`, which pushes the attribute
/// (`key`, `value`) onto the field `attributes` and touches no other field.
#[verifier::external_body]
fn add_attribute(response: Response<Empty>, key: &str, value: &str) -> (out: Response<Empty>)
    requires
        key_is_free(key@),
    ensures
        response_attributes(out) == response_attributes(response).push((key@, value@)),
        response_extras(out) == response_extras(response),
{
    response.add_attribute(key, value)
}

/// The attributes of the acknowledgment of the action called `action`.
pub open spec fn action_attributes(action: Seq<char>) -> Seq<(Seq<char>, Seq<char>)> {
    seq![("action"@, action)]
}

/// Whether `response` acknowledges the action called `action` and carries nothing else.
pub open spec fn acknowledges(response: Response<Empty>, action: Seq<char>) -> bool {
    &&& response_attributes(response) == action_attributes(action)
    &&& response_extras(response) == 0
}

/// The acknowledgment of a change that was carried out: one attribute,
/// `action`, whose value names the change.
pub fn action_response(action: &str) -> (response: Response<Empty>)
    ensures
        acknowledges(response, action@),
{
    proof {
        reveal_strlit("action");
    }
    add_attribute(new_response(), "action", action)
}

/// The text that `{:?}` gives for a list of todos: a function of what the
/// todos hold.
pub uninterp spec fn todos_text(todos: Seq<TodoView>) -> Seq<char>;

/// Formats `todos` with `format!("{:?}", ..)`, through the `Debug` that
/// std derives for `Vec` and for `Todo`.
#[verifier::external_body]
pub(crate) fn todos_text_of(todos: &Vec<Todo>) -> (text: String)
    ensures
        text@ == todos_text(todo_views(todos@)),
{
    format!("{:?}", todos)
}

/// The attributes of the reply to the creation of a store owned by `owner`
/// whose first todos format to `todos`.
pub open spec fn instantiate_attributes(owner: Seq<char>, todos: Seq<char>) -> Seq<
    (Seq<char>, Seq<char>),
> {
    seq![("method"@, "instantiate"@), ("owner"@, owner), ("todos"@, todos)]
}

/// The reply to the creation of a store: the method, the owner, and the
/// first todos as text.
pub fn instantiate_response(owner: &String, todos: &String) -> (response: Response<Empty>)
    ensures
        response_attributes(response) == instantiate_attributes(owner@, todos@),
        response_extras(response) == 0,
{
    proof {
        reveal_strlit("method");
        reveal_strlit("owner");
        reveal_strlit("todos");
    }
    let response = add_attribute(new_response(), "method", "instantiate");
    let response = add_attribute(response, "owner", owner.as_str());
    add_attribute(response, "todos", todos.as_str())
}

} // verus!
