//! Tool kinds and the names that go with them.
use vstd::prelude::*;
use vstd::string::StringExecFns;

verus! {

/// The semantic kind of a tool call.
#[derive(Debug, Clone, Copy, PartialEq, Eq, Structural)]
pub enum ToolKind {
    Read,
    Edit,
    Execute,
    Search,
    Glob,
    Fetch,
    WebSearch,
    Think,
    Todo,
    Question,
    Task,
    Sql,
    Browser,
    Move,
    Other,
    Unclassified,
}

/// The wire name of a kind (snake case).
pub open spec fn kind_str(k: ToolKind) -> Seq<char> {
    match k {
        ToolKind::Read => "read"@,
        ToolKind::Edit => "edit"@,
        ToolKind::Execute => "execute"@,
        ToolKind::Search => "search"@,
        ToolKind::Glob => "glob"@,
        ToolKind::Fetch => "fetch"@,
        ToolKind::WebSearch => "web_search"@,
        ToolKind::Think => "think"@,
        ToolKind::Todo => "todo"@,
        ToolKind::Question => "question"@,
        ToolKind::Task => "task"@,
        ToolKind::Sql => "sql"@,
        ToolKind::Browser => "browser"@,
        ToolKind::Move => "move"@,
        ToolKind::Other => "other"@,
        ToolKind::Unclassified => "unclassified"@,
    }
}

/// The display name a tool of this kind gets when the provider gave none.
pub open spec fn canonical_name(k: ToolKind) -> Seq<char> {
    match k {
        ToolKind::Read => "Read"@,
        ToolKind::Edit => "Edit"@,
        ToolKind::Execute => "Run"@,
        ToolKind::Search => "Search"@,
        ToolKind::Glob => "Find"@,
        ToolKind::Fetch => "Fetch"@,
        ToolKind::WebSearch => "Web Search"@,
        ToolKind::Think => "Think"@,
        ToolKind::Todo => "TodoWrite"@,
        ToolKind::Question => "AskUserQuestion"@,
        ToolKind::Task => "Task"@,
        ToolKind::Sql => "SQL"@,
        ToolKind::Browser => "Browser"@,
        ToolKind::Move => "Move"@,
        ToolKind::Other => "unknown"@,
        ToolKind::Unclassified => "unknown"@,
    }
}

/// The tool-call name of a kind: the canonical name, except that web
/// searches are named `WebSearch`.
pub open spec fn tool_call_name(k: ToolKind) -> Seq<char> {
    match k {
        ToolKind::WebSearch => "WebSearch"@,
        _ => canonical_name(k),
    }
}

/// Whether a kind carries no classification (`Other` or `Unclassified`).
pub open spec fn is_generic(k: ToolKind) -> bool {
    k == ToolKind::Other || k == ToolKind::Unclassified
}

impl ToolKind {
    /// The wire name of this kind.
    pub fn as_str(self) -> (r: &'static str)
        ensures
            r@ == kind_str(self),
    {
        match self {
            ToolKind::Read => "read",
            ToolKind::Edit => "edit",
            ToolKind::Execute => "execute",
            ToolKind::Search => "search",
            ToolKind::Glob => "glob",
            ToolKind::Fetch => "fetch",
            ToolKind::WebSearch => "web_search",
            ToolKind::Think => "think",
            ToolKind::Todo => "todo",
            ToolKind::Question => "question",
            ToolKind::Task => "task",
            ToolKind::Sql => "sql",
            ToolKind::Browser => "browser",
            ToolKind::Move => "move",
            ToolKind::Other => "other",
            ToolKind::Unclassified => "unclassified",
        }
    }

    /// Whether this kind is `Other` or `Unclassified`.
    pub fn is_generic(self) -> (b: bool)
        ensures
            b == is_generic(self),
    {
        self == ToolKind::Other || self == ToolKind::Unclassified
    }
}

/// The display name a tool of this kind gets when the provider gave none.
pub fn canonical_name_for_kind(kind: ToolKind) -> (r: &'static str)
    ensures
        r@ == canonical_name(kind),
{
    match kind {
        ToolKind::Read => "Read",
        ToolKind::Edit => "Edit",
        ToolKind::Execute => "Run",
        ToolKind::Search => "Search",
        ToolKind::Glob => "Find",
        ToolKind::Fetch => "Fetch",
        ToolKind::WebSearch => "Web Search",
        ToolKind::Think => "Think",
        ToolKind::Todo => "TodoWrite",
        ToolKind::Question => "AskUserQuestion",
        ToolKind::Task => "Task",
        ToolKind::Sql => "SQL",
        ToolKind::Browser => "Browser",
        ToolKind::Move => "Move",
        ToolKind::Other => "unknown",
        ToolKind::Unclassified => "unknown",
    }
}

/// The tool-call name of a kind (`WebSearch` for web searches, the
/// canonical name otherwise).
pub fn canonical_tool_call_name_for_kind(kind: ToolKind) -> (r: &'static str)
    ensures
        r@ == tool_call_name(kind),
{
    match kind {
        ToolKind::WebSearch => "WebSearch",
        _ => canonical_name_for_kind(kind),
    }
}

/// Owned copy of a string slice.
pub fn owned(s: &str) -> (r: String)
    ensures
        r@ == s@,
{
    String::from_str(s)
}

} // verus!
