//! Verified core of pgui: connection settings and their storage mapping,
//! SQL classification and result assembly, schema normalization, the agent
//! conversation state machine, SQL editor assistance and form validation.
use vstd::prelude::*;

pub mod text;
pub mod ssh;
pub mod storage;
pub mod agent;
pub mod sql;
pub mod database;
pub mod state;
pub mod workspace;

verus! {
} // verus!
