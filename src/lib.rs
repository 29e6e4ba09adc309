//! The core of a helper daemon that runs argument vectors as jobs: a table of
//! jobs keyed by identifier, and the service that accepts `Run` and answers
//! `Get` over it. Launching processes and the message bus are left to the
//! caller, which hands each launch's outcome back to the service.
use vstd::prelude::*;

pub mod job;
pub mod table;
pub mod text;
pub mod service;
pub mod laws;

verus! {

} // verus!
