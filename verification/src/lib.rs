//! Verified core of an OpenVR-on-OpenXR translation layer: input path
//! grammar, interaction profile tables, action manifest binding rules,
//! custom binding state machines, tracked device bookkeeping, render model
//! resolution and the legacy controller state.
pub mod text;
pub mod openxr_data;
pub mod input;
pub mod system;
pub mod rendermodels;
pub mod fakexr;
