pub mod grammar;
pub mod laws;
pub mod maps;
pub mod project;
pub mod ser;

pub use maps::build_settings;
pub use project::{PBXDstSubfolderSpec, PBXObject, PBXObjectID, PBXProject, PBXSetting};
pub use ser::{to_string, Error, Serialize, Serializer};
