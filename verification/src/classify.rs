//! Fallback classification of a raw tool frame: the provider name kind
//! wins; otherwise the shared signals are tried in a fixed order, and the
//! result goes through the todo-SQL, web-search and browser promotions.
use vstd::prelude::*;
use crate::json::{get_member, str_value, JsonValue};
use crate::signals::SignalName;
use crate::text::{ascii_lower_seq, chars_contain, chars_of, contains_sub, lower_chars};
use crate::tool_kind::ToolKind;

verus! {

/// A raw tool frame as a provider sent it.
pub struct RawClassificationInput<'a> {
    pub id: &'a str,
    pub name: Option<&'a str>,
    pub title: Option<&'a str>,
    pub kind_hint: Option<&'a str>,
    pub arguments: &'a JsonValue,
}

/// What the shared heuristics report on one raw frame. Each field is the
/// answer of one heuristic of the provider layer on the frame's fields.
#[derive(Debug, Clone, Copy)]
pub struct SignalResults {
    /// The kind implied by the shape of the arguments.
    pub argument_shape: Option<ToolKind>,
    /// The kind named by the ACP kind hint.
    pub kind_hint: Option<ToolKind>,
    /// The kind suggested by the title.
    pub title_heuristic: Option<ToolKind>,
    /// The tool call id is one the agent uses for web searches.
    pub web_search_id: bool,
    /// The title reads as a web search.
    pub web_search_title: bool,
    /// The arguments look like a web search.
    pub web_search_arguments: bool,
    /// The name is a browser tool name.
    pub browser_name: bool,
    /// The title is a browser tool name.
    pub browser_title: bool,
    /// The id is a browser tool name.
    pub browser_id: bool,
}

/// How the typed arguments of a classified frame are to be built.
#[derive(Debug, Clone, Copy, PartialEq, Eq, Structural)]
pub enum ArgumentsPlan {
    /// An `Unclassified` payload that records the signals tried.
    Unclassified,
    /// The arguments parsed for this kind.
    Typed(ToolKind),
}

/// The outcome of classifying one raw frame.
pub struct ClassificationOutput {
    pub kind: ToolKind,
    pub arguments: ArgumentsPlan,
    pub signals_tried: Vec<SignalName>,
}

/// The kind before promotions: the provider name kind, else the first
/// signal that answered.
pub open spec fn base_kind(provider: Option<ToolKind>, s: SignalResults) -> Option<ToolKind> {
    match provider {
        Some(k) => Some(k),
        None => match s.argument_shape {
            Some(k) => Some(k),
            None => match s.kind_hint {
                Some(k) => Some(k),
                None => s.title_heuristic,
            },
        },
    }
}

/// The signals consulted, in order, up to the first that answered.
pub open spec fn signals_tried_spec(provider: Option<ToolKind>, s: SignalResults) -> Seq<
    SignalName,
> {
    if provider is Some {
        seq![]
    } else if s.argument_shape is Some {
        seq![SignalName::ProviderName]
    } else if s.kind_hint is Some {
        seq![SignalName::ProviderName, SignalName::ArgumentShape]
    } else if s.title_heuristic is Some {
        seq![SignalName::ProviderName, SignalName::ArgumentShape, SignalName::AcpKindHint]
    } else {
        all_signals()
    }
}

/// Every signal, in the order classification tries them.
pub open spec fn all_signals() -> Seq<SignalName> {
    seq![
        SignalName::ProviderName,
        SignalName::ArgumentShape,
        SignalName::AcpKindHint,
        SignalName::TitleHeuristic,
    ]
}

/// The SQL text of the arguments: the first of `query`, `sql`, `statement`
/// that is present, when it is a string.
pub open spec fn sql_text(args: JsonValue) -> Option<Seq<char>> {
    let field = match get_member(args, "query"@) {
        Some(v) => Some(v),
        None => match get_member(args, "sql"@) {
            Some(v) => Some(v),
            None => get_member(args, "statement"@),
        },
    };
    str_value(field)
}

/// Whether SQL text touches the todo tables.
pub open spec fn touches_todos(q: Seq<char>) -> bool {
    let l = ascii_lower_seq(q);
    contains_sub(l, "todos"@) || contains_sub(l, "todo_deps"@)
}

/// SQL on the todo tables is a todo operation.
pub open spec fn todo_sql_promoted(base: ToolKind, args: JsonValue) -> ToolKind {
    if base != ToolKind::Sql {
        base
    } else {
        match sql_text(args) {
            Some(q) => if touches_todos(q) {
                ToolKind::Todo
            } else {
                base
            },
            None => base,
        }
    }
}

/// Fetches, searches and unknown tools that show a web-search sign are web
/// searches.
pub open spec fn web_search_promoted(base: ToolKind, s: SignalResults) -> ToolKind {
    let argument_implied = (base == ToolKind::Fetch || base == ToolKind::Other)
        && s.web_search_arguments;
    if (base == ToolKind::Fetch || base == ToolKind::Search || base == ToolKind::Other) && (
    s.web_search_id || s.web_search_title || argument_implied) {
        ToolKind::WebSearch
    } else {
        base
    }
}

/// The kinds that a browser tool name overrides.
pub open spec fn browser_overridable(k: ToolKind) -> bool {
    k == ToolKind::Other || k == ToolKind::Read || k == ToolKind::Execute || k == ToolKind::Search
        || k == ToolKind::Fetch
}

/// A browser tool name turns a generic read, run, search or fetch into a
/// browser tool.
pub open spec fn browser_promoted(base: ToolKind, s: SignalResults) -> ToolKind {
    if (s.browser_name || s.browser_title || s.browser_id) && browser_overridable(base) {
        ToolKind::Browser
    } else {
        base
    }
}

/// The three promotions, in order.
pub open spec fn promoted(base: ToolKind, s: SignalResults, args: JsonValue) -> ToolKind {
    browser_promoted(web_search_promoted(todo_sql_promoted(base, args), s), s)
}

/// The kind after promotions, before `Other` is reported as `Unclassified`.
pub open spec fn final_kind(provider: Option<ToolKind>, s: SignalResults, args: JsonValue) -> ToolKind {
    let base = match base_kind(provider, s) {
        Some(k) => k,
        None => ToolKind::Other,
    };
    promoted(base, s, args)
}

/// The kind a classification reports.
pub open spec fn reported_kind(k: ToolKind) -> ToolKind {
    if k == ToolKind::Other {
        ToolKind::Unclassified
    } else {
        k
    }
}

/// The argument plan for a final kind.
pub open spec fn plan_for(k: ToolKind) -> ArgumentsPlan {
    if k == ToolKind::Other || k == ToolKind::Unclassified {
        ArgumentsPlan::Unclassified
    } else {
        ArgumentsPlan::Typed(k)
    }
}

/// No web-search or browser sign is present.
pub open spec fn no_promotion_signs(s: SignalResults) -> bool {
    !s.web_search_id && !s.web_search_title && !s.web_search_arguments && !s.browser_name
        && !s.browser_title && !s.browser_id
}

/// Whether `k` is a kind no promotion or reporting rule rewrites by itself.
pub open spec fn plain_kind(k: ToolKind) -> bool {
    k != ToolKind::Sql && k != ToolKind::Other
}

/// The reported kind is the first answer in the fixed order: the provider
/// name kind, then the argument shape, then the ACP kind hint, then the
/// title heuristic; with no answer at all it is `Unclassified`.
pub open spec fn first_answer_wins(provider: Option<ToolKind>, s: SignalResults, kind: ToolKind) -> bool {
    &&& (provider is Some && plain_kind(provider->0) ==> kind == provider->0)
    &&& (provider is None && s.argument_shape is Some && plain_kind(s.argument_shape->0) ==> kind
        == s.argument_shape->0)
    &&& (provider is None && s.argument_shape is None && s.kind_hint is Some && plain_kind(
        s.kind_hint->0,
    ) ==> kind == s.kind_hint->0)
    &&& (provider is None && s.argument_shape is None && s.kind_hint is None
        && s.title_heuristic is Some && plain_kind(s.title_heuristic->0) ==> kind
        == s.title_heuristic->0)
    &&& (provider is None && s.argument_shape is None && s.kind_hint is None
        && s.title_heuristic is None ==> kind == ToolKind::Unclassified)
}

/// Without web-search or browser signs, classification reports the first
/// answer in the fixed order: a kind hint wins over the title heuristic,
/// the argument shape over both, the provider name kind over everything.
pub proof fn law_first_answer_wins(provider: Option<ToolKind>, s: SignalResults, args: JsonValue)
    requires
        no_promotion_signs(s),
    ensures
        first_answer_wins(provider, s, reported_kind(final_kind(provider, s, args))),
{
}

/// The SQL text of a frame's arguments.
fn sql_of(args: &JsonValue) -> (r: Option<&String>)
    ensures
        match r {
            Some(q) => sql_text(*args) == Some(q@),
            None => sql_text(*args) is None,
        },
{
    let field = match args.get("query") {
        Some(v) => Some(v),
        None => match args.get("sql") {
            Some(v) => Some(v),
            None => args.get("statement"),
        },
    };
    match field {
        Some(v) => v.as_str(),
        None => None,
    }
}

/// SQL that reads or writes the todo tables becomes a todo operation.
pub fn apply_todo_sql_promotion(base_kind: ToolKind, raw: &RawClassificationInput<'_>) -> (r: ToolKind)
    ensures
        r == todo_sql_promoted(base_kind, *raw.arguments),
        base_kind != ToolKind::Sql ==> r == base_kind,
        r == base_kind || r == ToolKind::Todo,
        base_kind == ToolKind::Sql && sql_text(*raw.arguments) is Some && touches_todos(
            sql_text(*raw.arguments)->0,
        ) ==> r == ToolKind::Todo,
        base_kind == ToolKind::Sql && !(sql_text(*raw.arguments) is Some && touches_todos(
            sql_text(*raw.arguments)->0,
        )) ==> r == ToolKind::Sql,
{
    if base_kind != ToolKind::Sql {
        return base_kind;
    }
    match sql_of(raw.arguments) {
        Some(q) => {
            let lower = lower_chars(&chars_of(q.as_str()));
            let todos = chars_of("todos");
            let deps = chars_of("todo_deps");
            if chars_contain(&lower, &todos) || chars_contain(&lower, &deps) {
                ToolKind::Todo
            } else {
                base_kind
            }
        },
        None => base_kind,
    }
}

/// Fetches, searches and unknown tools with a web-search sign become web
/// searches.
pub fn apply_web_search_promotion(base_kind: ToolKind, signals: &SignalResults) -> (r: ToolKind)
    ensures
        r == web_search_promoted(base_kind, *signals),
        r == base_kind || r == ToolKind::WebSearch,
        !(base_kind == ToolKind::Fetch || base_kind == ToolKind::Search || base_kind
            == ToolKind::Other) ==> r == base_kind,
        (base_kind == ToolKind::Fetch || base_kind == ToolKind::Search || base_kind
            == ToolKind::Other) && (signals.web_search_id || signals.web_search_title) ==> r
            == ToolKind::WebSearch,
        (base_kind == ToolKind::Fetch || base_kind == ToolKind::Other)
            && signals.web_search_arguments ==> r == ToolKind::WebSearch,
        !signals.web_search_id && !signals.web_search_title && !signals.web_search_arguments
            ==> r == base_kind,
{
    let argument_implied_web_search = (base_kind == ToolKind::Fetch || base_kind
        == ToolKind::Other) && signals.web_search_arguments;
    if (base_kind == ToolKind::Fetch || base_kind == ToolKind::Search || base_kind
        == ToolKind::Other) && (signals.web_search_id || signals.web_search_title
        || argument_implied_web_search) {
        ToolKind::WebSearch
    } else {
        base_kind
    }
}

/// A browser tool name overrides a generic kind.
pub fn apply_browser_promotion(base_kind: ToolKind, signals: &SignalResults) -> (r: ToolKind)
    ensures
        r == browser_promoted(base_kind, *signals),
        r == base_kind || r == ToolKind::Browser,
        !(signals.browser_name || signals.browser_title || signals.browser_id) ==> r == base_kind,
        (signals.browser_name || signals.browser_title || signals.browser_id) && (base_kind
            == ToolKind::Other || base_kind == ToolKind::Read || base_kind == ToolKind::Execute
            || base_kind == ToolKind::Search || base_kind == ToolKind::Fetch) ==> r
            == ToolKind::Browser,
{
    let named_browser = signals.browser_name || signals.browser_title || signals.browser_id;
    if named_browser && (base_kind == ToolKind::Other || base_kind == ToolKind::Read || base_kind
        == ToolKind::Execute || base_kind == ToolKind::Search || base_kind == ToolKind::Fetch) {
        ToolKind::Browser
    } else {
        base_kind
    }
}

/// The todo-SQL, web-search and browser promotions, in that order.
pub fn apply_post_classification_promotions(
    base_kind: ToolKind,
    raw: &RawClassificationInput<'_>,
    signals: &SignalResults,
) -> (r: ToolKind)
    ensures
        r == promoted(base_kind, *signals, *raw.arguments),
{
    let todo_promoted = apply_todo_sql_promotion(base_kind, raw);
    let web_search_promoted = apply_web_search_promotion(todo_promoted, signals);
    apply_browser_promotion(web_search_promoted, signals)
}

/// How the arguments of a frame of this kind are built.
pub fn build_arguments(kind: ToolKind) -> (r: ArgumentsPlan)
    ensures
        r == plan_for(kind),
{
    if kind == ToolKind::Other || kind == ToolKind::Unclassified {
        ArgumentsPlan::Unclassified
    } else {
        ArgumentsPlan::Typed(kind)
    }
}

/// Classifies a raw frame: the provider name kind if there is one, else
/// the first signal that answers (argument shape, ACP kind hint, title),
/// then the promotions. A frame that nothing classifies is reported as
/// `Unclassified`, never as `Other`.
pub fn classify_with_provider_name_kind(
    provider_name_kind: Option<ToolKind>,
    raw: &RawClassificationInput<'_>,
    signals: &SignalResults,
) -> (r: ClassificationOutput)
    ensures
        r.signals_tried@ == signals_tried_spec(provider_name_kind, *signals),
        r.kind == reported_kind(final_kind(provider_name_kind, *signals, *raw.arguments)),
        r.arguments == plan_for(final_kind(provider_name_kind, *signals, *raw.arguments)),
        no_promotion_signs(*signals) ==> first_answer_wins(provider_name_kind, *signals, r.kind),
        r.kind != ToolKind::Other,
        r.signals_tried@.len() <= 4,
        r.signals_tried@ == all_signals().subrange(0, r.signals_tried@.len() as int),
{
    let mut signals_tried: Vec<SignalName> = Vec::new();
    let base_kind = if let Some(kind) = provider_name_kind {
        Some(kind)
    } else {
        signals_tried.push(SignalName::ProviderName);
        if let Some(kind) = signals.argument_shape {
            Some(kind)
        } else {
            signals_tried.push(SignalName::ArgumentShape);
            if let Some(kind) = signals.kind_hint {
                Some(kind)
            } else {
                signals_tried.push(SignalName::AcpKindHint);
                if let Some(kind) = signals.title_heuristic {
                    Some(kind)
                } else {
                    signals_tried.push(SignalName::TitleHeuristic);
                    None
                }
            }
        }
    };
    let start = match base_kind {
        Some(k) => k,
        None => ToolKind::Other,
    };
    let final_kind = apply_post_classification_promotions(start, raw, signals);
    let arguments = build_arguments(final_kind);
    proof {
        assert(signals_tried@ =~= signals_tried_spec(provider_name_kind, *signals));
        if no_promotion_signs(*signals) {
            law_first_answer_wins(provider_name_kind, *signals, *raw.arguments);
        }
        law_signals_tried_prefix(provider_name_kind, *signals);
    }
    ClassificationOutput {
        kind: if final_kind == ToolKind::Other {
            ToolKind::Unclassified
        } else {
            final_kind
        },
        arguments,
        signals_tried,
    }
}

/// Classification never reports `Other`: a frame that no provider name,
/// signal or promotion classifies is reported as `Unclassified`.
pub proof fn law_never_reports_other(provider: Option<ToolKind>, s: SignalResults, args: JsonValue)
    ensures
        reported_kind(final_kind(provider, s, args)) != ToolKind::Other,
        plan_for(final_kind(provider, s, args)) is Unclassified <==> reported_kind(
            final_kind(provider, s, args),
        ) == ToolKind::Unclassified,
{
}

/// A provider name kind short-circuits every fallback signal: none is
/// recorded as tried, and the kind before promotions is the provider's.
pub proof fn law_provider_kind_short_circuits(k: ToolKind, s: SignalResults)
    ensures
        signals_tried_spec(Some(k), s).len() == 0,
        base_kind(Some(k), s) == Some(k),
{
}

/// The signals tried are always a prefix of the fixed order, and all four
/// are recorded exactly when nothing answered.
pub proof fn law_signals_tried_prefix(provider: Option<ToolKind>, s: SignalResults)
    ensures
        signals_tried_spec(provider, s).len() <= 4,
        signals_tried_spec(provider, s) == all_signals().subrange(
            0,
            signals_tried_spec(provider, s).len() as int,
        ),
        (signals_tried_spec(provider, s).len() == 4) <==> base_kind(provider, s) is None,
{
    assert(seq![SignalName::ProviderName] =~= all_signals().subrange(0, 1));
    assert(seq![SignalName::ProviderName, SignalName::ArgumentShape] =~= all_signals().subrange(
        0,
        2,
    ));
    assert(seq![SignalName::ProviderName, SignalName::ArgumentShape, SignalName::AcpKindHint]
        =~= all_signals().subrange(0, 3));
    assert(all_signals() =~= all_signals().subrange(0, 4));
    assert(seq![] =~= all_signals().subrange(0, 0));
}

/// The promotions are idempotent: promoting an already promoted kind
/// changes nothing.
pub proof fn law_promotions_idempotent(k: ToolKind, s: SignalResults, args: JsonValue)
    ensures
        promoted(promoted(k, s, args), s, args) == promoted(k, s, args),
{
}

} // verus!
