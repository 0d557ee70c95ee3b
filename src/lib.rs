//! Self-describing scripts: descriptors, a registry of them, and the schema
//! that is exported from it.

pub mod annotation;
pub mod descriptor;
pub mod registry;
pub mod schema;

pub use schema::{ParamMeta, ParamMetaView, ParamType, Schema, ScriptMeta, ScriptMetaView};
pub use descriptor::{ParamMetaStatic, ScriptInventory, ScriptMetaStatic};
pub use registry::Registry;
pub use annotation::{display_name, qualified_symbol};
