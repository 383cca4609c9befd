//! Client-side encoding and decoding of infrastructure state versions and
//! of the response envelopes of a remote state-management service.
pub mod envelope;
pub mod json;
pub mod request;
pub mod resources;
pub mod state;
pub mod state_versions;

pub use envelope::{
    resolve, EnvelopeError, ResourceList, TerraformData, TerraformResult, WrappedResource,
};
pub use json::{DecodeError, JsonValue};
pub use request::{
    CreateStateVersionInput, CreateStateVersionInputAttributes, CreateStateVersionInputBuilder,
    CreateStateVersionInputData, CreateStateVersionInputRelationshipData,
    CreateStateVersionInputRelationships, CreateStateVersionInputRunRelationship, RequestError,
};
pub use resources::{
    Organization, OrganizationAttributes, Varset, VarsetAttributes, VarsetRelationships,
    VarsetVariable, VarsetVariableAttributes, Workspace, WorkspaceAttributes, WorkspaceVariable,
    WorkspaceVariableAttributes,
};
pub use state::{TerraformResource, TerraformState, TerraformStateOutput};
pub use state_versions::{state_version_from_reply, ReplyError, StateVersion, StateVersionAttributes};
