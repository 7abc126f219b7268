//! A verified owner-controlled todo list: one persisted record of an owner and
//! an ordered list of todos, changed only by the owner through `add`, `remove`,
//! `update` and `reset`, and read by anyone.

pub mod contract;
pub mod error;
pub mod msg;
pub mod response;
pub mod state;
pub mod theorems;
