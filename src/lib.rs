//! Capability-mediated access control for stored artifacts: a boundary guard and a
//! mutation lock, mode-scoped access handles that compose them, and an
//! operation-allowlist gateway for untrusted agents that names artifacts by logical id.
//! Alongside: a name-keyed file table with its protections, file classification, a
//! release registry, and project descriptors.

pub mod artifact;
pub mod error;
pub mod guards;
pub mod fs_handle;
pub mod agent_adapter;
pub mod resolver;
pub mod laws;
pub mod fs_types;
pub mod fs_class;
pub mod root_table;
pub mod protections;
pub mod syscalls;
pub mod layout;
pub mod pipeline;
pub mod neurofs_spec;
pub mod ui_asset_registry;
pub mod neuro_data;
pub mod xfs_listing;
