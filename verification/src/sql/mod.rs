//! SQL editor assistance: AI code actions, inline completions and keyword
//! completions.
pub mod code_action;
pub mod completion;
