//! Reading the store.

use crate::contract::answers;
use crate::error::ContractError;
use crate::msg::GetTodosResponse;
use crate::state::Store;
use vstd::prelude::*;

verus! {

/// The whole stored list, in stored order, for any caller.
pub fn get_todos(store: &Store) -> (reply: Result<GetTodosResponse, ContractError>)
    ensures
        answers(store@, reply),
{
    match store.load() {
        Ok(state) => Ok(GetTodosResponse { todos: state.into_todos() }),
        Err(error) => Err(error),
    }
}

} // verus!
