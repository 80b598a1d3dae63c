//! A client-side handle to a GPU bind-group layout: a backend identity, an
//! immutable map of binding slots, a one-way validity flag and a debug label.
pub mod entry;
pub mod ids;
pub mod layout;
pub mod lemmas;

pub use entry::GPUBindGroupLayoutEntry;
pub use ids::{WebGPU, WebGPUBindGroupLayout};
pub use layout::GPUBindGroupLayout;
