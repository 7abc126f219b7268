//! The calls that the host makes on the store: create it, change it, read it.

use crate::error::ContractError;
use crate::msg::{ExecuteMsg, ExecuteMsgView, GetTodosResponse, InstantiateMsg, QueryMsg, TodoView};
use crate::response::{
    acknowledges, instantiate_attributes, instantiate_response, response_attributes,
    response_extras, todos_text, todos_text_of,
};
use crate::state::{State, StateView, Store};
use cosmwasm_std::{Empty, Response};
use vstd::prelude::*;

pub mod execute;
pub mod query;

verus! {

/// What `sender`'s request `msg` comes to on a slot that holds `store`:
/// `NotFound` if it holds nothing, else what the record makes of it.
pub open spec fn store_step(store: Option<StateView>, sender: Seq<char>, msg: ExecuteMsgView) -> Result<
    StateView,
    ContractError,
> {
    match store {
        Some(state) => state.step(sender, msg),
        None => Err(ContractError::NotFound),
    }
}

/// What a slot that holds `store` holds after `sender`'s request `msg`,
/// carried out or refused.
pub open spec fn store_after(store: Option<StateView>, sender: Seq<char>, msg: ExecuteMsgView) -> Option<
    StateView,
> {
    match store_step(store, sender, msg) {
        Ok(next) => Some(next),
        Err(_) => store,
    }
}

/// The name under which the change that `msg` asks for is acknowledged.
pub open spec fn action_name(msg: ExecuteMsgView) -> Seq<char> {
    match msg {
        ExecuteMsgView::Add { .. } => "add"@,
        ExecuteMsgView::Remove { .. } => "remove"@,
        ExecuteMsgView::Update { .. } => "update"@,
        ExecuteMsgView::Reset => "reset"@,
    }
}

/// Whether a call that found the slot as `before`, left it as `after` and
/// answered `reply` did what `sender`'s request `msg` asks for: on success
/// the slot holds the changed record and the reply acknowledges the change
/// by name; on failure the reply is the error and the slot is as it was.
pub open spec fn carried_out(
    before: Store,
    after: Store,
    sender: Seq<char>,
    msg: ExecuteMsgView,
    reply: Result<Response<Empty>, ContractError>,
) -> bool {
    match store_step(before@, sender, msg) {
        Ok(next) => {
            &&& after@ == Some(next)
            &&& reply matches Ok(response)
            &&& acknowledges(response, action_name(msg))
        },
        Err(error) => {
            &&& after == before
            &&& reply matches Err(e)
            &&& e == error
        },
    }
}

/// What reading a slot that holds `store` gives: its whole list, in stored
/// order, or `NotFound` if it holds nothing.
pub open spec fn listed(store: Option<StateView>) -> Result<Seq<TodoView>, ContractError> {
    match store {
        Some(state) => Ok(state.todos),
        None => Err(ContractError::NotFound),
    }
}

/// Whether `reply` is what reading a slot that holds `store` gives.
pub open spec fn answers(store: Option<StateView>, reply: Result<GetTodosResponse, ContractError>) -> bool {
    match listed(store) {
        Ok(todos) => reply matches Ok(response) && response@.todos == todos,
        Err(error) => reply matches Err(e) && e == error,
    }
}

/// Creates the store: `sender` becomes its owner and the todos of `msg` its
/// list, taken as they are. Always succeeds, and replaces whatever the slot
/// held.
pub fn instantiate(store: &mut Store, sender: &String, msg: InstantiateMsg) -> (reply: Result<
    Response<Empty>,
    ContractError,
>)
    ensures
        final(store)@ == Some(StateView { owner: sender@, todos: msg@.todos }),
        reply matches Ok(response) && {
            &&& response_attributes(response) == instantiate_attributes(
                sender@,
                todos_text(msg@.todos),
            )
            &&& response_extras(response) == 0
        },
{
    let text = todos_text_of(&msg.todos);
    let response = instantiate_response(sender, &text);
    store.save(State::initialize(sender.clone(), msg.todos));
    Ok(response)
}

/// Carries out the change that `msg` asks for, if `sender` owns the store.
pub fn execute(store: &mut Store, sender: &String, msg: ExecuteMsg) -> (reply: Result<
    Response<Empty>,
    ContractError,
>)
    ensures
        carried_out(*old(store), *final(store), sender@, msg@, reply),
{
    match msg {
        ExecuteMsg::Add { todo } => crate::contract::execute::add(store, sender, todo),
        ExecuteMsg::Remove { todo } => crate::contract::execute::remove(store, sender, todo),
        ExecuteMsg::Update { todo } => crate::contract::execute::update(store, sender, todo),
        ExecuteMsg::Reset {  } => crate::contract::execute::reset(store, sender),
    }
}

/// Answers a request to read the store. Anyone may read.
pub fn query(store: &Store, msg: QueryMsg) -> (reply: Result<GetTodosResponse, ContractError>)
    ensures
        answers(store@, reply),
{
    match msg {
        QueryMsg::GetTodos {  } => crate::contract::query::get_todos(store),
    }
}

} // verus!
