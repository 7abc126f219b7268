//! What holds of every store, whatever calls are made on it.

use crate::contract::{carried_out, listed, store_after, store_step};
use crate::error::ContractError;
use crate::msg::{ExecuteMsgView, TodoView};
use crate::state::{id_differs, without_id, StateView, Store};
use cosmwasm_std::{Empty, Response};
use vstd::prelude::*;

verus! {

/// One request: who sends it and what it asks for.
pub ghost struct Call {
    pub sender: Seq<char>,
    pub msg: ExecuteMsgView,
}

/// What a slot that holds `store` holds after the requests `calls`, made in
/// order, each carried out or refused.
pub open spec fn store_after_all(store: Option<StateView>, calls: Seq<Call>) -> Option<StateView>
    decreases calls.len(),
{
    if calls.len() == 0 {
        store
    } else {
        store_after(store_after_all(store, calls.drop_last()), calls.last().sender, calls.last().msg)
    }
}

/// A call that did what a request asks for left the slot holding what
/// `store_after` says.
pub proof fn lemma_call_leaves_store_after(
    before: Store,
    after: Store,
    sender: Seq<char>,
    msg: ExecuteMsgView,
    reply: Result<Response<Empty>, ContractError>,
)
    requires
        carried_out(before, after, sender, msg, reply),
    ensures
        after@ == store_after(before@, sender, msg),
{
}

/// Only the owner changes the store: a request of any kind from anyone
/// else is refused as `Unauthorized`, and the store stays exactly as it was.
pub proof fn lemma_stranger_is_refused(
    before: Store,
    after: Store,
    state: StateView,
    sender: Seq<char>,
    msg: ExecuteMsgView,
    reply: Result<Response<Empty>, ContractError>,
)
    requires
        before@ == Some(state),
        sender != state.owner,
        carried_out(before, after, sender, msg, reply),
    ensures
        reply matches Err(error) && error == ContractError::Unauthorized,
        after == before,
        listed(after@) == listed(before@),
{
}

/// Adding appends exactly one todo: read after the owner's `Add`, the list
/// is one longer, the added todo is last, and all before it is as it was.
pub proof fn lemma_add_appends_one(state: StateView, todo: TodoView)
    ensures
        store_step(Some(state), state.owner, ExecuteMsgView::Add { todo }) matches Ok(next) && listed(
            Some(next),
        ) matches Ok(todos) && {
            &&& todos.len() == state.todos.len() + 1
            &&& todos.last() == todo
            &&& todos.drop_last() == state.todos
        },
{
    assert(state.todos.push(todo).drop_last() =~= state.todos);
}

/// Removing is complete: read after the owner's `Remove`, the list holds
/// no todo of the removed id, however many it held before.
pub proof fn lemma_remove_leaves_no_match(state: StateView, todo: TodoView)
    ensures
        store_step(Some(state), state.owner, ExecuteMsgView::Remove { todo }) matches Ok(next)
            && listed(Some(next)) matches Ok(todos) && forall|i: int|
            0 <= i < todos.len() ==> (#[trigger] todos[i]).id != todo.id,
{
    let kept = without_id(state.todos, todo.id);
    assert forall|i: int| 0 <= i < kept.len() implies (#[trigger] kept[i]).id != todo.id by {
        state.todos.lemma_filter_pred(id_differs(todo.id), i);
    }
}

/// Updating is removing, then adding: the owner's `Update` leaves what the
/// owner's `Remove` followed by `Add` of the same todo leaves, so the
/// updated todo comes last and no other todo of its id is left.
pub proof fn lemma_update_is_remove_then_add(state: StateView, todo: TodoView)
    ensures
        store_step(Some(state), state.owner, ExecuteMsgView::Update { todo }) == store_step(
            store_after(Some(state), state.owner, ExecuteMsgView::Remove { todo }),
            state.owner,
            ExecuteMsgView::Add { todo },
        ),
        store_step(Some(state), state.owner, ExecuteMsgView::Update { todo }) matches Ok(next)
            && listed(Some(next)) matches Ok(todos) && {
            &&& todos.last() == todo
            &&& forall|i: int|
                0 <= i < todos.len() - 1 ==> (#[trigger] todos[i]).id != todo.id
        },
{
    let kept = without_id(state.todos, todo.id);
    assert forall|i: int| 0 <= i < kept.len() implies (#[trigger] kept.push(todo)[i]).id
        != todo.id by {
        state.todos.lemma_filter_pred(id_differs(todo.id), i);
    }
}

/// Resetting is total: read after the owner's `Reset`, the list is empty
/// whatever it held, and the owner is who it was.
pub proof fn lemma_reset_empties(state: StateView)
    ensures
        store_step(Some(state), state.owner, ExecuteMsgView::Reset) matches Ok(next) && {
            &&& listed(Some(next)) == Ok::<Seq<TodoView>, ContractError>(Seq::empty())
            &&& next.owner == state.owner
        },
{
}

/// The owner never changes: after any requests, from any senders, in any
/// order, the store still holds a record, and its owner is the one it was
/// created with.
pub proof fn lemma_owner_is_fixed(state: StateView, calls: Seq<Call>)
    ensures
        store_after_all(Some(state), calls) matches Some(last) && last.owner == state.owner,
    decreases calls.len(),
{
    if calls.len() > 0 {
        lemma_owner_is_fixed(state, calls.drop_last());
    }
}

} // verus!
