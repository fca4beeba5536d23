//! A registry of namespace claims for multi-project deployments.
//!
//! Each namespace is owned by the project that first claimed it; any client
//! presenting the same `project_id` may deploy to it again, and every other
//! project is refused. Registrations record when a namespace was first and
//! last deployed and which tables it holds.

pub mod clock;
pub mod components;
pub mod entry_map;
pub mod laws;
pub mod project_registry;
pub mod types;

pub use components::{AppDefinitionConfig, ComponentDefinitionConfig, SchemaSource};
pub use project_registry::{ProjectRegistry, PROJECT_REGISTRY_TABLE};
pub use types::{ProjectRegistration, RegistrationModel, RegistryError};
