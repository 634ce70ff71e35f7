use acepe_reconciler::classify::SignalResults;
use acepe_reconciler::json::JsonValue;
use acepe_reconciler::session_tool::{
    finish_classification, parse_arguments_plan, promote_kind, resolve_identity_impl,
    resolve_raw_tool_identity, ParseFallback, ParsePlan, ProviderAnswers, ToolCallLocation,
    ToolClassificationHints, ToolIdentity,
};
use acepe_reconciler::tool_kind::ToolKind;

fn quiet() -> SignalResults {
    SignalResults {
        argument_shape: None,
        kind_hint: None,
        title_heuristic: None,
        web_search_id: false,
        web_search_title: false,
        web_search_arguments: false,
        browser_name: false,
        browser_title: false,
        browser_id: false,
    }
}

fn no_answers() -> ProviderAnswers {
    ProviderAnswers { provider_name_kind: None, detected_name_kind: None, browser_usable_name: false }
}

fn hints(name: Option<&str>, title: Option<&str>, kind: Option<ToolKind>, hint: Option<&str>) -> ToolClassificationHints {
    ToolClassificationHints {
        name: name.map(str::to_string),
        title: title.map(str::to_string),
        kind,
        kind_hint: hint.map(str::to_string),
        locations: None,
    }
}

/// Resolves the identity, plans the parse, and finishes with the kind of
/// the arguments the agent's parser produced for that plan.
fn classify_call(
    id: &str,
    raw: Option<&JsonValue>,
    h: &ToolClassificationHints,
    answers: &ProviderAnswers,
    s: &SignalResults,
    serialized: bool,
    parsed_kind: ToolKind,
) -> (ToolIdentity, ParsePlan) {
    let identity = resolve_identity_impl(id, raw, h, answers, s, serialized);
    let plan = parse_arguments_plan(&identity, h.title.as_deref(), h.kind_hint.as_deref());
    (finish_classification(identity, parsed_kind), plan)
}

fn object(entries: &[(&str, &str)]) -> JsonValue {
    JsonValue::Object(
        entries
            .iter()
            .map(|(k, v)| (k.to_string(), JsonValue::Str(v.to_string())))
            .collect(),
    )
}

fn args() -> JsonValue {
    JsonValue::Object(vec![("path".to_string(), JsonValue::Str("/tmp".to_string()))])
}

#[test]
fn raw_classification_promotes_unknown_rg_title_to_search() {
    let h = hints(Some("unknown"), Some("rg"), Some(ToolKind::Other), Some("other"));
    let mut s = quiet();
    s.title_heuristic = Some(ToolKind::Search);
    let a = object(&[("query", "tool_call"), ("path", "/tmp")]);
    let id = resolve_raw_tool_identity("tool-rg", Some(&a), &h, &no_answers(), &s);
    assert_eq!(id.kind, ToolKind::Search);
    let (classified, _) = classify_call("tool-rg", Some(&a), &h, &no_answers(), &s, false, ToolKind::Search);
    assert_eq!(classified.kind, ToolKind::Search);
    assert_eq!(classified.name, "Search");
}

#[test]
fn serialized_classification_uses_locations_as_read_fallback() {
    let mut h = hints(Some("unknown"), Some("Viewing /tmp/file.rs"), None, None);
    h.locations = Some(vec![ToolCallLocation { path: "/tmp/file.rs".to_string() }]);
    let a = JsonValue::Object(vec![("raw".to_string(), JsonValue::Object(vec![]))]);
    let (classified, _) = classify_call("tool-read", Some(&a), &h, &no_answers(), &quiet(), true, ToolKind::Read);
    assert_eq!(classified.kind, ToolKind::Read);
    assert_eq!(classified.name, "Read");
    // Live calls ignore locations and titles.
    let live = resolve_identity_impl("tool-read", Some(&a), &h, &no_answers(), &quiet(), false);
    assert_eq!(live.kind, ToolKind::Unclassified);
    assert_eq!(live.name, "unknown");
}

#[test]
fn replayed_call_with_read_title_is_a_read() {
    let h = hints(None, Some("  READ src/main.rs"), None, None);
    let id = resolve_identity_impl("t", None, &h, &no_answers(), &quiet(), true);
    assert_eq!(id.kind, ToolKind::Read);
    let h2 = hints(None, Some("reader"), None, None);
    let id2 = resolve_identity_impl("t", None, &h2, &no_answers(), &quiet(), true);
    assert_eq!(id2.kind, ToolKind::Unclassified);
}

#[test]
fn raw_browser_tool_name_overrides_generic_read_hint() {
    let h = hints(
        Some("mcp__tauri__read_logs"),
        Some("mcp__tauri__read_logs"),
        Some(ToolKind::Read),
        Some("read"),
    );
    let answers = ProviderAnswers { provider_name_kind: None, detected_name_kind: None, browser_usable_name: true };
    let mut s = quiet();
    s.browser_name = true;
    s.browser_title = true;
    s.kind_hint = Some(ToolKind::Read);
    let a = object(&[("source", "console")]);
    let (classified, _) = classify_call("tool-browser", Some(&a), &h, &answers, &s, false, ToolKind::Other);
    assert_eq!(classified.kind, ToolKind::Browser);
    assert_eq!(classified.name, "mcp__tauri__read_logs");
}

#[test]
fn raw_old_str_and_new_str_markers_infer_edit_kind() {
    let h = hints(Some("unknown"), Some("Editing /tmp/file.ts"), Some(ToolKind::Other), Some("other"));
    let mut s = quiet();
    s.argument_shape = Some(ToolKind::Edit);
    let a = object(&[
        ("path", "/tmp/file.ts"),
        ("old_str", "const value = 1;"),
        ("new_str", "const value = 2;"),
    ]);
    let (classified, _) = classify_call("tool-edit", Some(&a), &h, &no_answers(), &s, false, ToolKind::Edit);
    assert_eq!(classified.kind, ToolKind::Edit);
    assert_eq!(classified.name, "Edit");
}

#[test]
fn raw_generic_read_name_with_path_and_pattern_promotes_to_glob() {
    let h = hints(Some("Read"), Some("Read"), Some(ToolKind::Read), Some("read"));
    let answers = ProviderAnswers {
        provider_name_kind: Some(ToolKind::Read),
        detected_name_kind: Some(ToolKind::Read),
        browser_usable_name: false,
    };
    let mut s = quiet();
    s.argument_shape = Some(ToolKind::Glob);
    let a = object(&[("path", "/Users/alex/Documents/acepe"), ("pattern", "packages/**/*agent-panel*")]);
    let (classified, plan) = classify_call("tool-read-glob", Some(&a), &h, &answers, &s, false, ToolKind::Glob);
    assert_eq!(classified.kind, ToolKind::Glob);
    assert_eq!(classified.name, "Find");
    match plan {
        ParsePlan::Typed { name, kind_hint, .. } => {
            assert_eq!(name.as_deref(), Some("Find"));
            assert_eq!(kind_hint.as_deref(), Some("glob"));
        }
        _ => panic!("expected a typed plan"),
    }
}

#[test]
fn raw_generic_read_name_with_ripgrep_shape_promotes_to_search() {
    let h = hints(Some("Read"), Some("Read"), Some(ToolKind::Read), Some("read"));
    let answers = ProviderAnswers {
        provider_name_kind: Some(ToolKind::Read),
        detected_name_kind: Some(ToolKind::Read),
        browser_usable_name: false,
    };
    let mut s = quiet();
    s.argument_shape = Some(ToolKind::Search);
    let a = object(&[
        ("pattern", "ProjectHeader"),
        ("glob", "packages/desktop/src/lib/acp/components/session-list/session-list-ui.svelte"),
        ("output_mode", "content"),
    ]);
    let (classified, _) = classify_call("tool-read-grep", Some(&a), &h, &answers, &s, false, ToolKind::Search);
    assert_eq!(classified.kind, ToolKind::Search);
    assert_eq!(classified.name, "Search");
}

#[test]
fn raw_unknown_name_with_generic_read_hint_and_ripgrep_shape_promotes_to_search() {
    let h = hints(Some("unknown"), Some("Searching for 'sentry'"), Some(ToolKind::Read), Some("read"));
    let mut s = quiet();
    s.argument_shape = Some(ToolKind::Search);
    s.kind_hint = Some(ToolKind::Read);
    let a = object(&[("pattern", "sentry"), ("glob", "**/Cargo.toml"), ("output_mode", "content")]);
    let (classified, _) = classify_call("tool-read-grep-hint", Some(&a), &h, &no_answers(), &s, false, ToolKind::Search);
    assert_eq!(classified.kind, ToolKind::Search);
    assert_eq!(classified.name, "Search");
}

#[test]
fn serialized_todo_sql_does_not_promote_to_task() {
    let h = hints(Some("unknown"), Some("Create planning todos"), Some(ToolKind::Other), Some("other"));
    let mut s = quiet();
    s.argument_shape = Some(ToolKind::Sql);
    let a = object(&[
        ("description", "Create planning todos"),
        ("query", "INSERT INTO todos VALUES ('todo-1')"),
    ]);
    let (classified, plan) = classify_call("tool-sql", Some(&a), &h, &no_answers(), &s, true, ToolKind::Think);
    assert_ne!(classified.kind, ToolKind::Task);
    assert_eq!(classified.kind, ToolKind::Todo);
    assert!(matches!(plan, ParsePlan::Typed { .. }));
}

#[test]
fn serialized_unclassified_tools_keep_unclassified_arguments() {
    let h = hints(Some("unknown"), Some("Mystery tool"), Some(ToolKind::Unclassified), Some("unclassified"));
    let a = JsonValue::Object(vec![
        ("opaque".to_string(), JsonValue::Object(vec![("nested".to_string(), JsonValue::Bool(true))])),
        ("label".to_string(), JsonValue::Str("mystery".to_string())),
    ]);
    let (classified, plan) = classify_call("tool-opaque", Some(&a), &h, &no_answers(), &quiet(), true, ToolKind::Unclassified);
    assert_eq!(classified.kind, ToolKind::Unclassified);
    assert!(matches!(plan, ParsePlan::Unclassified));
}

#[test]
fn explicit_name_kept_when_kind_unchanged() {
    let h = hints(Some(" Bash "), None, None, None);
    let answers = ProviderAnswers {
        provider_name_kind: Some(ToolKind::Execute),
        detected_name_kind: Some(ToolKind::Execute),
        browser_usable_name: false,
    };
    let id = resolve_raw_tool_identity("t", None, &h, &answers, &quiet());
    assert_eq!(id.kind, ToolKind::Execute);
    assert_eq!(id.name, "Bash");
}

#[test]
fn fetch_with_web_search_arguments_only_with_arguments() {
    let h = hints(Some("WebFetch"), None, None, None);
    let answers = ProviderAnswers {
        provider_name_kind: Some(ToolKind::Fetch),
        detected_name_kind: Some(ToolKind::Fetch),
        browser_usable_name: false,
    };
    let mut s = quiet();
    s.web_search_arguments = true;
    let a = args();
    let with_args = resolve_raw_tool_identity("t", Some(&a), &h, &answers, &s);
    assert_eq!(with_args.kind, ToolKind::WebSearch);
    assert_eq!(with_args.name, "WebFetch");
}

#[test]
fn promote_kind_table() {
    assert_eq!(promote_kind(ToolKind::Read, ToolKind::Other), ToolKind::Read);
    assert_eq!(promote_kind(ToolKind::Other, ToolKind::Glob), ToolKind::Glob);
    assert_eq!(promote_kind(ToolKind::Edit, ToolKind::Move), ToolKind::Move);
    assert_eq!(promote_kind(ToolKind::Edit, ToolKind::Edit), ToolKind::Edit);
    assert_eq!(promote_kind(ToolKind::Search, ToolKind::Glob), ToolKind::Glob);
    assert_eq!(promote_kind(ToolKind::Fetch, ToolKind::WebSearch), ToolKind::WebSearch);
    assert_eq!(promote_kind(ToolKind::Fetch, ToolKind::Read), ToolKind::Fetch);
    assert_eq!(promote_kind(ToolKind::Todo, ToolKind::Think), ToolKind::Todo);
}

#[test]
fn finishing_renames_unknown_tools() {
    let id = ToolIdentity { name: "unknown".to_string(), kind: ToolKind::Other };
    let done = finish_classification(id, ToolKind::Search);
    assert_eq!(done.kind, ToolKind::Search);
    assert_eq!(done.name, "Search");

    let kept = finish_classification(ToolIdentity { name: "grep".to_string(), kind: ToolKind::Search }, ToolKind::Glob);
    assert_eq!(kept.kind, ToolKind::Glob);
    assert_eq!(kept.name, "grep");

    let still = finish_classification(ToolIdentity { name: " ".to_string(), kind: ToolKind::Unclassified }, ToolKind::Other);
    assert_eq!(still.kind, ToolKind::Unclassified);
    assert_eq!(still.name, " ");
}

#[test]
fn parse_plans() {
    let sql = ToolIdentity { name: "sql".to_string(), kind: ToolKind::Sql };
    assert!(matches!(parse_arguments_plan(&sql, None, None), ParsePlan::FromRaw(ToolKind::Sql)));

    let unc = ToolIdentity { name: "unknown".to_string(), kind: ToolKind::Unclassified };
    assert!(matches!(parse_arguments_plan(&unc, Some("t"), None), ParsePlan::Unclassified));

    let read = ToolIdentity { name: "unknown".to_string(), kind: ToolKind::Read };
    match parse_arguments_plan(&read, Some("Viewing x"), Some("other")) {
        ParsePlan::Typed { name, kind_hint, fallback } => {
            assert_eq!(name.as_deref(), Some("Viewing x"));
            assert_eq!(kind_hint.as_deref(), Some("read"));
            assert_eq!(fallback, ParseFallback::FromRaw(ToolKind::Read));
        }
        _ => panic!("expected a typed plan"),
    }

    let other = ToolIdentity { name: "Mystery".to_string(), kind: ToolKind::Other };
    match parse_arguments_plan(&other, Some("t"), Some("fetch")) {
        ParsePlan::Typed { name, kind_hint, fallback } => {
            assert_eq!(name.as_deref(), Some("Mystery"));
            assert_eq!(kind_hint.as_deref(), Some("fetch"));
            assert_eq!(fallback, ParseFallback::Other);
        }
        _ => panic!("expected a typed plan"),
    }
}

#[test]
fn raw_argument_shape_beats_generic_read_hint_when_provider_name_is_unknown() {
    let h = hints(Some("unknown"), Some("Run"), Some(ToolKind::Read), Some("read"));
    let mut s = quiet();
    s.argument_shape = Some(ToolKind::Execute);
    s.kind_hint = Some(ToolKind::Read);
    let a = object(&[("command", "git status")]);
    let (classified, plan) = classify_call("tool-exec", Some(&a), &h, &no_answers(), &s, false, ToolKind::Execute);
    assert_eq!(classified.kind, ToolKind::Execute);
    assert_eq!(classified.name, "Run");
    assert!(matches!(plan, ParsePlan::Typed { fallback: ParseFallback::FromRaw(ToolKind::Execute), .. }));
}
