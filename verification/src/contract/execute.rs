//! The four changes, each on the slot that persists the record.

use crate::contract::carried_out;
use crate::error::ContractError;
use crate::msg::{ExecuteMsgView, Todo};
use crate::response::action_response;
use crate::state::{outcome_view, State, Store};
use cosmwasm_std::{Empty, Response};
use vstd::prelude::*;

verus! {

/// Appends `todo` to the stored list, if `sender` owns the store.
pub fn add(store: &mut Store, sender: &String, todo: Todo) -> (reply: Result<
    Response<Empty>,
    ContractError,
>)
    ensures
        carried_out(*old(store), *final(store), sender@, ExecuteMsgView::Add { todo: todo@ }, reply),
{
    let action = |state: State| -> (next: Result<State, ContractError>)
        ensures
            outcome_view(next) == state@.step(sender@, ExecuteMsgView::Add { todo: todo@ }),
        { state.add(sender, todo) };
    match store.update(action) {
        Ok(()) => Ok(action_response("add")),
        Err(error) => Err(error),
    }
}

/// Removes every stored todo whose id is that of `todo`, if `sender` owns
/// the store. Succeeds also where no todo has that id.
pub fn remove(store: &mut Store, sender: &String, todo: Todo) -> (reply: Result<
    Response<Empty>,
    ContractError,
>)
    ensures
        carried_out(
            *old(store),
            *final(store),
            sender@,
            ExecuteMsgView::Remove { todo: todo@ },
            reply,
        ),
{
    let action = |state: State| -> (next: Result<State, ContractError>)
        ensures
            outcome_view(next) == state@.step(sender@, ExecuteMsgView::Remove { todo: todo@ }),
        { state.remove(sender, todo) };
    match store.update(action) {
        Ok(()) => Ok(action_response("remove")),
        Err(error) => Err(error),
    }
}

/// Removes every stored todo whose id is that of `todo` and appends `todo`,
/// if `sender` owns the store. Where no todo has that id this only appends.
pub fn update(store: &mut Store, sender: &String, todo: Todo) -> (reply: Result<
    Response<Empty>,
    ContractError,
>)
    ensures
        carried_out(
            *old(store),
            *final(store),
            sender@,
            ExecuteMsgView::Update { todo: todo@ },
            reply,
        ),
{
    let action = |state: State| -> (next: Result<State, ContractError>)
        ensures
            outcome_view(next) == state@.step(sender@, ExecuteMsgView::Update { todo: todo@ }),
        { state.update(sender, todo) };
    match store.update(action) {
        Ok(()) => Ok(action_response("update")),
        Err(error) => Err(error),
    }
}

/// Empties the stored list, if `sender` owns the store.
pub fn reset(store: &mut Store, sender: &String) -> (reply: Result<Response<Empty>, ContractError>)
    ensures
        carried_out(*old(store), *final(store), sender@, ExecuteMsgView::Reset, reply),
{
    let action = |state: State| -> (next: Result<State, ContractError>)
        ensures
            outcome_view(next) == state@.step(sender@, ExecuteMsgView::Reset),
        { state.reset(sender) };
    match store.update(action) {
        Ok(()) => Ok(action_response("reset")),
        Err(error) => Err(error),
    }
}

} // verus!
