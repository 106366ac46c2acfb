//! Requests and responses of the component service, as plain data.
//!
//! Functions are qualified against components. The service that lists a
//! component's generated code and its editable values lives outside this
//! crate; what it is asked and what it answers is declared here.
use vstd::prelude::*;

verus! {

/// The key of a component.
#[derive(Clone, Copy, Debug, PartialEq, Eq, Structural)]
pub struct ComponentId(pub i64);

/// The key of a system.
#[derive(Clone, Copy, Debug, PartialEq, Eq, Structural)]
pub struct SystemId(pub i64);

/// The key of a workspace.
#[derive(Clone, Copy, Debug, PartialEq, Eq, Structural)]
pub struct WorkspaceId(pub i64);

/// The key of a change set.
#[derive(Clone, Copy, Debug, PartialEq, Eq, Structural)]
pub struct ChangeSetPk(pub i64);

/// Which rows a reader sees: those of one change set, up to a moment of
/// deletion.
#[derive(Clone, Copy, Debug, PartialEq, Eq, Structural)]
pub struct Visibility {
    pub visibility_change_set_pk: ChangeSetPk,
    /// Seconds since the epoch, where the reader looks at deleted rows.
    pub visibility_deleted_at: Option<i64>,
}

/// The notation of a piece of generated code.
#[derive(Clone, Copy, Debug, PartialEq, Eq, Structural)]
pub enum CodeLanguage {
    Diff,
    Json,
    Unknown,
    Yaml,
}

/// A piece of code that was generated for a component.
#[derive(Debug, PartialEq, Eq)]
pub struct CodeView {
    pub language: CodeLanguage,
    pub code: Option<String>,
}

/// Asks for the code that was generated for a component.
#[derive(Clone, Copy, Debug, PartialEq, Eq, Structural)]
pub struct GetCodeRequest {
    pub component_id: ComponentId,
    pub system_id: Option<SystemId>,
    pub workspace_id: WorkspaceId,
    pub visibility: Visibility,
}

/// The code that was generated for a component.
#[derive(Debug, PartialEq, Eq)]
pub struct GetCodeResponse {
    pub code_views: Vec<CodeView>,
}

/// Asks for the values of a component that an editor shows.
#[derive(Clone, Copy, Debug, PartialEq, Eq, Structural)]
pub struct GetPropertyEditorValuesRequest {
    pub component_id: ComponentId,
    pub system_id: SystemId,
    pub visibility: Visibility,
}

} // verus!
