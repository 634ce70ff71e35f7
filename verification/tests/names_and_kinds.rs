use acepe_reconciler::names::{is_unknown_tool_name, normalization_name, usable_tool_name};
use acepe_reconciler::signals::{signal_names, SignalName};
use acepe_reconciler::tool_kind::{
    canonical_name_for_kind, canonical_tool_call_name_for_kind, ToolKind,
};

#[test]
fn signal_names_are_snake_case() {
    assert_eq!(SignalName::ProviderName.as_str(), "provider_name");
    assert_eq!(SignalName::ArgumentShape.as_str(), "argument_shape");
    assert_eq!(SignalName::AcpKindHint.as_str(), "acp_kind_hint");
    assert_eq!(SignalName::TitleHeuristic.as_str(), "title_heuristic");
}

#[test]
fn kind_wire_names() {
    assert_eq!(ToolKind::WebSearch.as_str(), "web_search");
    assert_eq!(ToolKind::Read.as_str(), "read");
    assert_eq!(ToolKind::Unclassified.as_str(), "unclassified");
    assert!(ToolKind::Other.is_generic());
    assert!(ToolKind::Unclassified.is_generic());
    assert!(!ToolKind::Read.is_generic());
}

#[test]
fn canonical_names_of_kinds() {
    assert_eq!(canonical_name_for_kind(ToolKind::Glob), "Find");
    assert_eq!(canonical_name_for_kind(ToolKind::Execute), "Run");
    assert_eq!(canonical_name_for_kind(ToolKind::WebSearch), "Web Search");
    assert_eq!(canonical_tool_call_name_for_kind(ToolKind::WebSearch), "WebSearch");
    assert_eq!(canonical_tool_call_name_for_kind(ToolKind::Search), "Search");
    assert_eq!(canonical_tool_call_name_for_kind(ToolKind::Unclassified), "unknown");
}

#[test]
fn unknown_tool_names() {
    assert!(is_unknown_tool_name(""));
    assert!(is_unknown_tool_name("   "));
    assert!(is_unknown_tool_name(" Unknown\t"));
    assert!(is_unknown_tool_name("UNKNOWN"));
    assert!(!is_unknown_tool_name("unknowns"));
    assert!(!is_unknown_tool_name("Read"));
}

#[test]
fn usable_tool_names_are_trimmed() {
    assert_eq!(usable_tool_name(Some("  Bash \n")), Some("Bash".to_string()));
    assert_eq!(usable_tool_name(Some("unknown")), None);
    assert_eq!(usable_tool_name(Some("\u{3000}")), None);
    assert_eq!(usable_tool_name(None), None);
}

#[test]
fn normalization_prefers_name_then_title_then_kind() {
    assert_eq!(normalization_name(Some(" Bash "), Some("Run"), ToolKind::Execute), "Bash");
    assert_eq!(normalization_name(Some("unknown"), Some(" Run tests "), ToolKind::Execute), "Run tests");
    assert_eq!(normalization_name(Some(""), Some("UNKNOWN"), ToolKind::Todo), "TodoWrite");
    assert_eq!(normalization_name(None, None, ToolKind::Question), "AskUserQuestion");
    assert_eq!(normalization_name(None, None, ToolKind::WebSearch), "WebSearch");
    assert_eq!(normalization_name(None, None, ToolKind::Other), "unknown");
    assert_eq!(normalization_name(None, None, ToolKind::Unclassified), "unknown");
    assert_eq!(normalization_name(None, None, ToolKind::Read), "read");
}

#[test]
fn signal_name_lists() {
    let names = signal_names(&vec![SignalName::ProviderName, SignalName::TitleHeuristic]);
    assert_eq!(names, vec!["provider_name".to_string(), "title_heuristic".to_string()]);
    assert!(signal_names(&Vec::new()).is_empty());
}
