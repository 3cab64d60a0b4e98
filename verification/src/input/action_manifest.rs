//! The action manifest: the binding files that tie the application's
//! actions to controller inputs.
pub mod bindings;
