//! Presentation-free semantic tool records: the shared output of provider
//! classification and projection.
use vstd::prelude::*;
use crate::json::JsonValue;
use crate::signals::SignalName;
use crate::tool_kind::ToolKind;

verus! {

/// A line range inside a file.
#[derive(Debug, Clone, Copy, PartialEq, Eq, Structural)]
pub struct LineRange {
    pub start_line: Option<u32>,
    pub end_line: Option<u32>,
}

/// The source context a read shows.
#[derive(Debug, Clone, PartialEq)]
pub struct ToolSourceContext {
    pub path: Option<String>,
    pub view_range: Option<LineRange>,
    pub excerpt: Option<String>,
}

/// One edit of an edit tool.
#[derive(Debug, Clone, PartialEq)]
pub struct EditEntry {
    pub file_path: Option<String>,
    pub old_text: Option<String>,
    pub new_text: Option<String>,
}

/// The typed arguments of a tool call.
#[allow(inconsistent_fields)]
#[derive(Debug, Clone, PartialEq)]
pub enum ToolArguments {
    Read { file_path: Option<String>, source_context: Option<ToolSourceContext> },
    Edit { edits: Vec<EditEntry> },
    Execute { command: Option<String> },
    Search { query: Option<String>, file_path: Option<String> },
    Glob { pattern: Option<String>, path: Option<String> },
    Fetch { url: Option<String> },
    WebSearch { query: Option<String> },
    Think {
        description: Option<String>,
        prompt: Option<String>,
        subagent_type: Option<String>,
        skill: Option<String>,
        skill_args: Option<String>,
        raw: Option<JsonValue>,
    },
    Sql { query: Option<String>, description: Option<String> },
    Move { from: Option<String>, to: Option<String> },
    Other { raw: JsonValue },
    Unclassified { signals_tried: Vec<String>, arguments_preview: Option<String> },
}

/// The kind that a set of typed arguments belongs to.
pub open spec fn arguments_kind(a: ToolArguments) -> ToolKind {
    match a {
        ToolArguments::Read { .. } => ToolKind::Read,
        ToolArguments::Edit { .. } => ToolKind::Edit,
        ToolArguments::Execute { .. } => ToolKind::Execute,
        ToolArguments::Search { .. } => ToolKind::Search,
        ToolArguments::Glob { .. } => ToolKind::Glob,
        ToolArguments::Fetch { .. } => ToolKind::Fetch,
        ToolArguments::WebSearch { .. } => ToolKind::WebSearch,
        ToolArguments::Think { .. } => ToolKind::Think,
        ToolArguments::Sql { .. } => ToolKind::Sql,
        ToolArguments::Move { .. } => ToolKind::Move,
        ToolArguments::Other { .. } => ToolKind::Other,
        ToolArguments::Unclassified { .. } => ToolKind::Unclassified,
    }
}

impl ToolArguments {
    /// The kind these arguments belong to.
    pub fn tool_kind(&self) -> (k: ToolKind)
        ensures
            k == arguments_kind(*self),
    {
        match self {
            ToolArguments::Read { .. } => ToolKind::Read,
            ToolArguments::Edit { .. } => ToolKind::Edit,
            ToolArguments::Execute { .. } => ToolKind::Execute,
            ToolArguments::Search { .. } => ToolKind::Search,
            ToolArguments::Glob { .. } => ToolKind::Glob,
            ToolArguments::Fetch { .. } => ToolKind::Fetch,
            ToolArguments::WebSearch { .. } => ToolKind::WebSearch,
            ToolArguments::Think { .. } => ToolKind::Think,
            ToolArguments::Sql { .. } => ToolKind::Sql,
            ToolArguments::Move { .. } => ToolKind::Move,
            ToolArguments::Other { .. } => ToolKind::Other,
            ToolArguments::Unclassified { .. } => ToolKind::Unclassified,
        }
    }
}

/// Status of a todo item.
#[derive(Debug, Clone, Copy, PartialEq, Eq, Structural)]
pub enum TodoStatus {
    Pending,
    InProgress,
    Completed,
    Cancelled,
}

/// One todo item.
#[derive(Debug, Clone, PartialEq)]
pub struct TodoItem {
    pub content: String,
    pub status: TodoStatus,
    pub active_form: Option<String>,
}

/// What a todo update does.
#[derive(Debug, Clone, Copy, PartialEq, Eq, Structural)]
pub enum TodoUpdateOperation {
    Upsert,
    SetStatusByFilter,
    Delete,
}

/// A semantic update of todo state.
#[derive(Debug, Clone, PartialEq)]
pub struct TodoUpdate {
    pub operation: TodoUpdateOperation,
    pub to_status: Option<TodoStatus>,
}

/// One option of a question.
#[derive(Debug, Clone, PartialEq)]
pub struct QuestionOption {
    pub label: String,
    pub description: Option<String>,
}

/// A question put to the user.
#[derive(Debug, Clone, PartialEq)]
pub struct QuestionItem {
    pub question: String,
    pub header: String,
    pub options: Vec<QuestionOption>,
    pub multi_select: bool,
}

/// Canonical semantic snapshot for one tool call after classification and
/// argument parsing.
#[derive(Debug, Clone, PartialEq)]
pub struct SemanticToolRecord {
    pub kind: ToolKind,
    pub arguments: ToolArguments,
    pub normalized_questions: Option<Vec<QuestionItem>>,
    pub normalized_todos: Option<Vec<TodoItem>>,
    pub normalized_todo_update: Option<TodoUpdate>,
}

impl SemanticToolRecord {
    /// A record holding exactly the given parts.
    pub fn new(
        kind: ToolKind,
        arguments: ToolArguments,
        normalized_questions: Option<Vec<QuestionItem>>,
        normalized_todos: Option<Vec<TodoItem>>,
        normalized_todo_update: Option<TodoUpdate>,
    ) -> (r: Self)
        ensures
            r.kind == kind,
            r.arguments == arguments,
            r.normalized_questions == normalized_questions,
            r.normalized_todos == normalized_todos,
            r.normalized_todo_update == normalized_todo_update,
    {
        SemanticToolRecord {
            kind,
            arguments,
            normalized_questions,
            normalized_todos,
            normalized_todo_update,
        }
    }
}

/// Result of classifying a raw tool frame and projecting it once for the
/// desktop wire contract.
#[derive(Debug, Clone, PartialEq)]
pub struct SemanticTransition {
    pub record: SemanticToolRecord,
    /// The projection of `record`'s arguments for the wire.
    pub projected_arguments: ToolArguments,
    pub signals_tried: Vec<SignalName>,
}

} // verus!
