//! User administration form: the account record, the fetch that yields it,
//! the edit-session flags and the choice of what the form renders.

pub mod user;
pub mod session;
pub mod view;
