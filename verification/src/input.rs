//! Input handling: paths, interaction profiles, manifest bindings, custom
//! binding state machines, tracked devices and the legacy controller API.
pub mod paths;
pub mod legacy;
pub mod profiles;
pub mod custom_bindings;
pub mod devices;
pub mod action_manifest;
pub mod skeletal;
