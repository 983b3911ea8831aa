//! A reactive form-state engine.
//!
//! The engine binds typed domain values to per-field editable state cells,
//! tracks validation errors and dirtiness per field, composes the fields of a
//! structured value into one validatable aggregate, and tracks the lifecycle
//! of an asynchronous submission.  Rendering and the host UI's reactivity
//! runtime are external collaborators: each field's state is a plain owned
//! record mutated through explicit methods, and a ghost notification counter
//! models the change notifications a subscription layer would observe.

pub mod aggregate;
pub mod compose;
pub mod error;
pub mod numeric;
pub mod signal;
pub mod submission;
