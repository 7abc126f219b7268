//! The stored record, the changes its owner may make to it, and the slot
//! that persists it.

use crate::error::ContractError;
use crate::msg::{clone_todos, todo_views, ExecuteMsgView, Todo, TodoView};
use vstd::prelude::*;

verus! {

/// The record: who owns the list, and the list itself in stored order.
/// The owner is fixed when the record is made; no method changes it.
#[derive(Debug, PartialEq, Eq)]
pub struct State {
    owner: String,
    todos: Vec<Todo>,
}

/// What a `State` holds, as plain mathematical values.
pub ghost struct StateView {
    pub owner: Seq<char>,
    pub todos: Seq<TodoView>,
}

impl View for State {
    type V = StateView;

    closed spec fn view(&self) -> StateView {
        StateView { owner: self.owner@, todos: todo_views(self.todos@) }
    }
}

/// The test that a todo passes when its id is not `id`.
pub open spec fn id_differs(id: int) -> spec_fn(TodoView) -> bool {
    |todo: TodoView| todo.id != id
}

/// `todos` without every todo whose id is `id`; the others keep their order.
pub open spec fn without_id(todos: Seq<TodoView>, id: int) -> Seq<TodoView> {
    todos.filter(id_differs(id))
}

impl StateView {
    /// Whether `sender` may change this record: only its owner may.
    pub open spec fn authorizes(self, sender: Seq<char>) -> bool {
        sender == self.owner
    }

    /// The record with `todo` appended.
    pub open spec fn with_added(self, todo: TodoView) -> StateView {
        StateView { owner: self.owner, todos: self.todos.push(todo) }
    }

    /// The record without the todos whose id is `id`.
    pub open spec fn with_removed(self, id: int) -> StateView {
        StateView { owner: self.owner, todos: without_id(self.todos, id) }
    }

    /// The record with every todo of `todo`'s id removed and `todo` appended.
    pub open spec fn with_updated(self, todo: TodoView) -> StateView {
        self.with_removed(todo.id).with_added(todo)
    }

    /// The record with an empty list.
    pub open spec fn cleared(self) -> StateView {
        StateView { owner: self.owner, todos: Seq::empty() }
    }

    /// The record after the change that `msg` asks for.
    pub open spec fn apply(self, msg: ExecuteMsgView) -> StateView {
        match msg {
            ExecuteMsgView::Add { todo } => self.with_added(todo),
            ExecuteMsgView::Remove { todo } => self.with_removed(todo.id),
            ExecuteMsgView::Update { todo } => self.with_updated(todo),
            ExecuteMsgView::Reset => self.cleared(),
        }
    }

    /// What `sender`'s request `msg` comes to: the changed record for the
    /// owner, `Unauthorized` for anyone else.
    pub open spec fn step(self, sender: Seq<char>, msg: ExecuteMsgView) -> Result<
        StateView,
        ContractError,
    > {
        if self.authorizes(sender) {
            Ok(self.apply(msg))
        } else {
            Err(ContractError::Unauthorized)
        }
    }
}

/// The view of the outcome of a change.
pub open spec fn outcome_view(outcome: Result<State, ContractError>) -> Result<
    StateView,
    ContractError,
> {
    match outcome {
        Ok(state) => Ok(state@),
        Err(error) => Err(error),
    }
}

/// Keeps the todos whose id is not `id`, in their order.
pub fn retain_other_ids(todos: Vec<Todo>, id: i32) -> (kept: Vec<Todo>)
    ensures
        todo_views(kept@) == without_id(todo_views(todos@), id as int),
{
    let ghost all = todos@;
    let mut kept: Vec<Todo> = Vec::new();
    proof {
        reveal(Seq::filter);
        assert(todo_views(all.take(0)) =~= Seq::<TodoView>::empty());
    }
    for todo in it: todos
        invariant
            it.seq() == all,
            todo_views(kept@) == without_id(todo_views(all.take(it.index())), id as int),
    {
        proof {
            let i = it.index();
            let seen = todo_views(all.take(i));
            assert(todo_views(all.take(i + 1)) =~= seen.push(todo@));
            seen.lemma_filter_push(todo@, id_differs(id as int));
            if todo.id != id {
                assert(todo_views(kept@.push(todo)) =~= todo_views(kept@).push(todo@));
            }
        }
        if todo.id != id {
            kept.push(todo);
        }
    }
    proof {
        assert(all.take(all.len() as int) =~= all);
    }
    kept
}

impl State {
    /// Makes the record of a new store: `owner` owns it, and it starts with
    /// `todos` exactly as given.
    pub fn initialize(owner: String, todos: Vec<Todo>) -> (state: State)
        ensures
            state@ == (StateView { owner: owner@, todos: todo_views(todos@) }),
    {
        State { owner, todos }
    }

    /// The owner.
    pub fn owner(&self) -> (owner: &String)
        ensures
            owner@ == self@.owner,
    {
        &self.owner
    }

    /// The list, in stored order.
    pub fn todos(&self) -> (todos: &Vec<Todo>)
        ensures
            todo_views(todos@) == self@.todos,
    {
        &self.todos
    }

    /// Gives up the record for its list.
    pub fn into_todos(self) -> (todos: Vec<Todo>)
        ensures
            todo_views(todos@) == self@.todos,
    {
        self.todos
    }

    /// Whether `sender` is the owner.
    pub fn is_owner(&self, sender: &String) -> (yes: bool)
        ensures
            yes == self@.authorizes(sender@),
    {
        *sender == self.owner
    }

    /// Appends `todo` for the owner, whatever ids the list already holds.
    pub fn add(self, sender: &String, todo: Todo) -> (next: Result<State, ContractError>)
        ensures
            outcome_view(next) == self@.step(sender@, ExecuteMsgView::Add { todo: todo@ }),
    {
        if !self.is_owner(sender) {
            return Err(ContractError::Unauthorized);
        }
        let State { owner, mut todos } = self;
        proof {
            assert(todo_views(todos@.push(todo)) =~= todo_views(todos@).push(todo@));
        }
        todos.push(todo);
        Ok(State { owner, todos })
    }

    /// Removes, for the owner, every todo whose id is that of `todo`.
    pub fn remove(self, sender: &String, todo: Todo) -> (next: Result<State, ContractError>)
        ensures
            outcome_view(next) == self@.step(sender@, ExecuteMsgView::Remove { todo: todo@ }),
    {
        if !self.is_owner(sender) {
            return Err(ContractError::Unauthorized);
        }
        let State { owner, todos } = self;
        let todos = retain_other_ids(todos, todo.id);
        Ok(State { owner, todos })
    }

    /// Replaces, for the owner, every todo of `todo`'s id by `todo`, which
    /// goes to the end of the list.
    pub fn update(self, sender: &String, todo: Todo) -> (next: Result<State, ContractError>)
        ensures
            outcome_view(next) == self@.step(sender@, ExecuteMsgView::Update { todo: todo@ }),
    {
        if !self.is_owner(sender) {
            return Err(ContractError::Unauthorized);
        }
        let State { owner, todos } = self;
        let mut todos = retain_other_ids(todos, todo.id);
        proof {
            assert(todo_views(todos@.push(todo)) =~= todo_views(todos@).push(todo@));
        }
        todos.push(todo);
        Ok(State { owner, todos })
    }

    /// Empties the list for the owner.
    pub fn reset(self, sender: &String) -> (next: Result<State, ContractError>)
        ensures
            outcome_view(next) == self@.step(sender@, ExecuteMsgView::Reset),
    {
        if !self.is_owner(sender) {
            return Err(ContractError::Unauthorized);
        }
        let State { owner, mut todos } = self;
        todos.clear();
        proof {
            assert(todo_views(todos@) =~= Seq::<TodoView>::empty());
        }
        Ok(State { owner, todos })
    }
}

impl Clone for State {
    fn clone(&self) -> (copy: State)
        ensures
            copy@ == self@,
    {
        State { owner: self.owner.clone(), todos: clone_todos(&self.todos) }
    }
}

/// The slot that persists the record: empty until a record is saved, and
/// from then on holding exactly one.
#[derive(Debug, PartialEq, Eq)]
pub struct Store {
    state: Option<State>,
}

impl View for Store {
    type V = Option<StateView>;

    closed spec fn view(&self) -> Option<StateView> {
        match self.state {
            Some(state) => Some(state@),
            None => None,
        }
    }
}

impl Clone for Store {
    fn clone(&self) -> (copy: Store)
        ensures
            copy@ == self@,
    {
        match &self.state {
            Some(state) => Store { state: Some(state.clone()) },
            None => Store { state: None },
        }
    }
}

impl Store {
    /// An empty slot: no record was saved yet.
    pub fn new() -> (store: Store)
        ensures
            store@ is None,
    {
        Store { state: None }
    }

    /// A copy of the saved record, or `NotFound` if none was ever saved.
    pub fn load(&self) -> (loaded: Result<State, ContractError>)
        ensures
            outcome_view(loaded) == match self@ {
                Some(state) => Ok::<StateView, ContractError>(state),
                None => Err(ContractError::NotFound),
            },
    {
        match &self.state {
            Some(state) => Ok(state.clone()),
            None => Err(ContractError::NotFound),
        }
    }

    /// Saves `state` in place of whatever the slot held.
    pub fn save(&mut self, state: State)
        ensures
            final(self)@ == Some(state@),
    {
        self.state = Some(state);
    }

    /// Loads the record, hands it to `action`, and saves what `action` makes
    /// of it. Where no record was saved, or `action` fails, the error is
    /// returned and the slot is left exactly as it was.
    pub fn update<F: FnOnce(State) -> Result<State, ContractError>>(&mut self, action: F) -> (done:
        Result<(), ContractError>)
        requires
            forall|input: State| old(self)@ == Some(input@) ==> call_requires(action, (input,)),
        ensures
            old(self)@ is None ==> done == Err::<(), ContractError>(ContractError::NotFound)
                && *final(self) == *old(self),
            old(self)@ is Some ==> exists|input: State, output: Result<State, ContractError>|
                {
                    &&& old(self)@ == Some(input@)
                    &&& call_ensures(action, (input,), output)
                    &&& match output {
                        Ok(next) => done is Ok && final(self)@ == Some(next@),
                        Err(error) => done == Err::<(), ContractError>(error) && *final(self)
                            == *old(self),
                    }
                },
    {
        let input = match self.load() {
            Ok(state) => state,
            Err(error) => {
                return Err(error);
            },
        };
        match action(input) {
            Ok(next) => {
                self.save(next);
                Ok(())
            },
            Err(error) => Err(error),
        }
    }
}

} // verus!
