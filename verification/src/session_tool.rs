//! Live tool identity resolution: which kind and which display name a tool
//! call gets from its hints, its provider's answers and its arguments.
use vstd::prelude::*;
use crate::classify::{
    no_promotion_signs,
    classify_with_provider_name_kind, final_kind, reported_kind, RawClassificationInput,
    SignalResults,
};
use crate::json::JsonValue;
use crate::names::{is_unknown_name, is_unknown_tool_name, opt_view, usable_name, usable_tool_name};
use crate::text::{
    ascii_lower_seq, chars_eq_ignore_ascii_case, chars_of, chars_start_with, eq_ignore_ascii_case,
    lower_chars, starts_with, string_from_chars, trim, trim_chars,
};
use crate::tool_kind::{
    canonical_tool_call_name_for_kind, is_generic, kind_str, owned, tool_call_name, ToolKind,
};

verus! {

/// A location a tool call touches.
#[derive(Debug)]
pub struct ToolCallLocation {
    pub path: String,
}

/// What the session surface knows of a tool call besides its arguments.
pub struct ToolClassificationHints {
    pub name: Option<String>,
    pub title: Option<String>,
    pub kind: Option<ToolKind>,
    pub kind_hint: Option<String>,
    pub locations: Option<Vec<ToolCallLocation>>,
}

/// The provider's answers about one tool call.
#[derive(Debug, Clone, Copy)]
pub struct ProviderAnswers {
    /// The kind the provider's name table gives the raw name.
    pub provider_name_kind: Option<ToolKind>,
    /// The kind the provider detects from the usable name.
    pub detected_name_kind: Option<ToolKind>,
    /// The usable name is a browser tool name.
    pub browser_usable_name: bool,
}

/// The resolved identity of a tool call.
pub struct ToolIdentity {
    pub name: String,
    pub kind: ToolKind,
}

/// The view of an optional string.
pub open spec fn opt_string(s: Option<String>) -> Option<Seq<char>> {
    match s {
        Some(v) => Some(v@),
        None => None,
    }
}

/// `k` unless it is generic.
pub open spec fn specific(k: Option<ToolKind>) -> Option<ToolKind> {
    match k {
        Some(x) => if is_generic(x) {
            None
        } else {
            Some(x)
        },
        None => None,
    }
}

/// The first of two options that is present.
pub open spec fn or_else(a: Option<ToolKind>, b: Option<ToolKind>) -> Option<ToolKind> {
    match a {
        Some(x) => Some(x),
        None => b,
    }
}

/// Whether a title announces a file read (`viewing `, `view `, `read `).
pub open spec fn title_reads(title: Seq<char>) -> bool {
    let lower = ascii_lower_seq(trim(title));
    starts_with(lower, "viewing "@) || starts_with(lower, "view "@) || starts_with(lower, "read "@)
}

/// The kind the provider's shared classification reports for the frame.
pub open spec fn base_output_kind(
    answers: ProviderAnswers,
    signals: SignalResults,
    raw_arguments: Option<JsonValue>,
) -> ToolKind {
    let args = match raw_arguments {
        Some(a) => a,
        None => JsonValue::Null,
    };
    reported_kind(final_kind(answers.provider_name_kind, signals, args))
}

/// The kind the identity resolver settles on.
pub open spec fn resolved_kind(
    hints: ToolClassificationHints,
    answers: ProviderAnswers,
    signals: SignalResults,
    raw_arguments: Option<JsonValue>,
    serialized: bool,
) -> ToolKind {
    let explicit = usable_name(opt_string(hints.name));
    let base = base_output_kind(answers, signals, raw_arguments);
    let detected = if explicit is Some {
        specific(answers.detected_name_kind)
    } else {
        None
    };
    let classified = specific(Some(base));
    let hinted = specific(hints.kind);
    let argument_kind = if raw_arguments is Some {
        match signals.argument_shape {
            Some(k) => if k != ToolKind::Other {
                Some(k)
            } else {
                None
            },
            None => None,
        }
    } else {
        None
    };
    let generic_read = or_else(or_else(detected, classified), hinted) == Some(ToolKind::Read);
    let promoted_argument_kind = if generic_read && (argument_kind == Some(ToolKind::Glob)
        || argument_kind == Some(ToolKind::Search) || argument_kind == Some(ToolKind::Edit)) {
        argument_kind
    } else {
        None
    };
    let location_kind = if serialized && (hints.locations matches Some(l) && l@.len() > 0) {
        Some(ToolKind::Read)
    } else {
        None
    };
    let title_read_kind = if serialized && (hints.title matches Some(t) && title_reads(t@)) {
        Some(ToolKind::Read)
    } else {
        None
    };
    let chosen = match or_else(
        or_else(or_else(or_else(promoted_argument_kind, classified), hinted), location_kind),
        title_read_kind,
    ) {
        Some(k) => k,
        None => base,
    };
    let web = identity_web_search_promoted(chosen, signals, raw_arguments is Some);
    let browser_named = (explicit is Some && answers.browser_usable_name) || signals.browser_title
        || signals.browser_id;
    let browsed = if browser_named && (web == ToolKind::Other || web == ToolKind::Read || web
        == ToolKind::Execute || web == ToolKind::Search || web == ToolKind::Fetch) {
        ToolKind::Browser
    } else {
        web
    };
    reported_kind(browsed)
}

/// The web-search promotion of the identity resolver: argument evidence
/// counts only when there are raw arguments.
pub open spec fn identity_web_search_promoted(
    kind: ToolKind,
    s: SignalResults,
    has_arguments: bool,
) -> ToolKind {
    let argument_implied = (kind == ToolKind::Fetch || kind == ToolKind::Other) && has_arguments
        && s.web_search_arguments;
    if (kind == ToolKind::Fetch || kind == ToolKind::Search || kind == ToolKind::Other) && (
    s.web_search_id || s.web_search_title || argument_implied) {
        ToolKind::WebSearch
    } else {
        kind
    }
}

/// The name the identity resolver settles on, given the resolved kind.
pub open spec fn resolved_name(
    hints: ToolClassificationHints,
    answers: ProviderAnswers,
    kind: ToolKind,
) -> Seq<char> {
    let explicit = usable_name(opt_string(hints.name));
    match explicit {
        Some(n) => match specific(answers.detected_name_kind) {
            Some(detected) => if kind != detected && eq_ignore_ascii_case(
                n,
                tool_call_name(detected),
            ) {
                tool_call_name(kind)
            } else {
                n
            },
            None => n,
        },
        None => if kind != ToolKind::Other {
            tool_call_name(kind)
        } else {
            match hints.name {
                Some(raw) => if trim(raw@).len() > 0 {
                    trim(raw@)
                } else {
                    "unknown"@
                },
                None => "unknown"@,
            }
        },
    }
}

/// The tool is known as a generic read: the provider detects `Read` from
/// its usable name, or (detecting nothing) names it `Read` in its name table.
pub open spec fn known_generic_read(hints: ToolClassificationHints, answers: ProviderAnswers) -> bool {
    (usable_name(opt_string(hints.name)) is Some && answers.detected_name_kind == Some(
        ToolKind::Read,
    )) || (answers.detected_name_kind is None && answers.provider_name_kind == Some(
        ToolKind::Read,
    ))
}

/// Whether a kind is one that arguments may reveal behind a generic read.
pub open spec fn read_refinement(k: ToolKind) -> bool {
    k == ToolKind::Glob || k == ToolKind::Search || k == ToolKind::Edit
}

/// A generic read whose arguments have the shape of a glob, a search or an
/// edit takes that kind (absent web-search and browser signs); a tool the
/// provider named by the read's canonical name is renamed to match.
pub open spec fn generic_read_takes_argument_kind(
    hints: ToolClassificationHints,
    answers: ProviderAnswers,
    s: SignalResults,
    raw_arguments: Option<JsonValue>,
    kind: ToolKind,
    name: Seq<char>,
) -> bool {
    (raw_arguments is Some && known_generic_read(hints, answers) && no_promotion_signs(s)
        && !answers.browser_usable_name && s.argument_shape is Some && read_refinement(
        s.argument_shape->0,
    )) ==> {
        &&& kind == s.argument_shape->0
        &&& (usable_name(opt_string(hints.name)) is Some && answers.detected_name_kind == Some(
            ToolKind::Read,
        ) && eq_ignore_ascii_case(usable_name(opt_string(hints.name))->0, "Read"@) ==> name
            == tool_call_name(s.argument_shape->0))
    }
}

/// Edit-, glob- and search-shaped arguments behind a generic read decide
/// the kind, whether the call is live or replayed.
pub proof fn law_generic_read_takes_argument_kind(
    hints: ToolClassificationHints,
    answers: ProviderAnswers,
    s: SignalResults,
    raw_arguments: Option<JsonValue>,
    serialized: bool,
)
    ensures
        generic_read_takes_argument_kind(
            hints,
            answers,
            s,
            raw_arguments,
            resolved_kind(hints, answers, s, raw_arguments, serialized),
            resolved_name(hints, answers, resolved_kind(hints, answers, s, raw_arguments, serialized)),
        ),
{
}

/// Whether a title announces a file read.
fn title_announces_read(title: &String) -> (b: bool)
    ensures
        b == title_reads(title@),
{
    let lower = lower_chars(&trim_chars(&chars_of(title.as_str())));
    chars_start_with(&lower, &chars_of("viewing ")) || chars_start_with(
        &lower,
        &chars_of("view "),
    ) || chars_start_with(&lower, &chars_of("read "))
}

/// `k` unless it is generic.
fn specific_kind(k: Option<ToolKind>) -> (r: Option<ToolKind>)
    ensures
        r == specific(k),
{
    match k {
        Some(x) => if x.is_generic() {
            None
        } else {
            Some(x)
        },
        None => None,
    }
}

/// The first of two options that is present.
fn first_of(a: Option<ToolKind>, b: Option<ToolKind>) -> (r: Option<ToolKind>)
    ensures
        r == or_else(a, b),
{
    match a {
        Some(x) => Some(x),
        None => b,
    }
}

/// Resolves the kind and display name of a tool call. `serialized` marks a
/// call replayed from a stored session, whose locations and title may
/// stand in for a missing kind.
pub fn resolve_identity_impl(
    id: &str,
    raw_arguments: Option<&JsonValue>,
    hints: &ToolClassificationHints,
    answers: &ProviderAnswers,
    signals: &SignalResults,
    serialized: bool,
) -> (r: ToolIdentity)
    ensures
        r.kind == resolved_kind(
            *hints,
            *answers,
            *signals,
            match raw_arguments {
                Some(a) => Some(*a),
                None => None,
            },
            serialized,
        ),
        r.name@ == resolved_name(*hints, *answers, r.kind),
        r.kind != ToolKind::Other,
        generic_read_takes_argument_kind(
            *hints,
            *answers,
            *signals,
            match raw_arguments {
                Some(a) => Some(*a),
                None => None,
            },
            r.kind,
            r.name@,
        ),
{
    let name_ref: Option<&str> = match &hints.name {
        Some(n) => Some(n.as_str()),
        None => None,
    };
    let title_ref: Option<&str> = match &hints.title {
        Some(t) => Some(t.as_str()),
        None => None,
    };
    let hint_ref: Option<&str> = match &hints.kind_hint {
        Some(h) => Some(h.as_str()),
        None => None,
    };
    let explicit_name = usable_tool_name(name_ref);
    assert(opt_view(name_ref) == opt_string(hints.name));
    let null = JsonValue::Null;
    let classification_arguments = match raw_arguments {
        Some(a) => a,
        None => &null,
    };
    let base_output = classify_with_provider_name_kind(
        answers.provider_name_kind,
        &RawClassificationInput {
            id,
            name: name_ref,
            title: title_ref,
            kind_hint: hint_ref,
            arguments: classification_arguments,
        },
        signals,
    );
    let base_kind = base_output.kind;
    let detected_kind = if explicit_name.is_some() {
        specific_kind(answers.detected_name_kind)
    } else {
        None
    };
    let classified_kind = specific_kind(Some(base_kind));
    let hinted_kind = specific_kind(hints.kind);
    let argument_kind = if raw_arguments.is_some() {
        match signals.argument_shape {
            Some(k) => if k != ToolKind::Other {
                Some(k)
            } else {
                None
            },
            None => None,
        }
    } else {
        None
    };
    let generic_read = first_of(first_of(detected_kind, classified_kind), hinted_kind) == Some(
        ToolKind::Read,
    );
    let promoted_argument_kind = if generic_read && (argument_kind == Some(ToolKind::Glob)
        || argument_kind == Some(ToolKind::Search) || argument_kind == Some(ToolKind::Edit)) {
        argument_kind
    } else {
        None
    };
    let location_kind = if serialized && match &hints.locations {
        Some(entries) => entries.len() > 0,
        None => false,
    } {
        Some(ToolKind::Read)
    } else {
        None
    };
    let title_read_kind = if serialized && match &hints.title {
        Some(t) => title_announces_read(t),
        None => false,
    } {
        Some(ToolKind::Read)
    } else {
        None
    };
    let chosen = match first_of(
        first_of(first_of(first_of(promoted_argument_kind, classified_kind), hinted_kind), location_kind),
        title_read_kind,
    ) {
        Some(k) => k,
        None => base_kind,
    };
    let has_arguments = raw_arguments.is_some();
    let argument_implied_web_search = (chosen == ToolKind::Fetch || chosen == ToolKind::Other)
        && has_arguments && signals.web_search_arguments;
    let kind = if (chosen == ToolKind::Fetch || chosen == ToolKind::Search || chosen
        == ToolKind::Other) && (signals.web_search_id || signals.web_search_title
        || argument_implied_web_search) {
        ToolKind::WebSearch
    } else {
        chosen
    };
    let name_is_browser = explicit_name.is_some() && answers.browser_usable_name;
    let kind = if (name_is_browser || signals.browser_title || signals.browser_id) && (kind
        == ToolKind::Other || kind == ToolKind::Read || kind == ToolKind::Execute || kind
        == ToolKind::Search || kind == ToolKind::Fetch) {
        ToolKind::Browser
    } else {
        kind
    };
    let kind = if kind == ToolKind::Other {
        ToolKind::Unclassified
    } else {
        kind
    };
    let name = match explicit_name {
        Some(name) => match detected_kind {
            Some(detected_tool_kind) => {
                let detected_canonical = canonical_tool_call_name_for_kind(detected_tool_kind);
                if kind != detected_tool_kind && chars_eq_ignore_ascii_case(
                    &chars_of(name.as_str()),
                    &chars_of(detected_canonical),
                ) {
                    owned(canonical_tool_call_name_for_kind(kind))
                } else {
                    name
                }
            },
            None => name,
        },
        None => if kind != ToolKind::Other {
            owned(canonical_tool_call_name_for_kind(kind))
        } else {
            match &hints.name {
                Some(raw_name) => {
                    let t = trim_chars(&chars_of(raw_name.as_str()));
                    if t.len() > 0 {
                        assert(t@.subrange(0, t@.len() as int) =~= t@);
                        string_from_chars(&t, 0, t.len())
                    } else {
                        owned("unknown")
                    }
                },
                None => owned("unknown"),
            }
        },
    };
    proof {
        law_generic_read_takes_argument_kind(
            *hints,
            *answers,
            *signals,
            match raw_arguments {
                Some(a) => Some(*a),
                None => None,
            },
            serialized,
        );
    }
    ToolIdentity { name, kind }
}

/// Resolves the identity of a live (not replayed) tool call.
pub fn resolve_raw_tool_identity(
    id: &str,
    raw_arguments: Option<&JsonValue>,
    hints: &ToolClassificationHints,
    answers: &ProviderAnswers,
    signals: &SignalResults,
) -> (r: ToolIdentity)
    ensures
        r.kind == resolved_kind(
            *hints,
            *answers,
            *signals,
            match raw_arguments {
                Some(a) => Some(*a),
                None => None,
            },
            false,
        ),
        r.name@ == resolved_name(*hints, *answers, r.kind),
        r.kind != ToolKind::Other,
        generic_read_takes_argument_kind(
            *hints,
            *answers,
            *signals,
            match raw_arguments {
                Some(a) => Some(*a),
                None => None,
            },
            r.kind,
            r.name@,
        ),
{
    resolve_identity_impl(id, raw_arguments, hints, answers, signals, false)
}

/// The kind after the parsed arguments have had their say: a concrete
/// argument kind replaces an unknown base, an edit or search base that
/// the arguments contradict, and a fetch that turns out to be a web search.
pub open spec fn promoted_kind(base: ToolKind, argument: ToolKind) -> ToolKind {
    if argument == ToolKind::Other {
        base
    } else {
        match base {
            ToolKind::Other => argument,
            ToolKind::Edit => if argument != ToolKind::Edit {
                argument
            } else {
                base
            },
            ToolKind::Search => if argument != ToolKind::Search {
                argument
            } else {
                base
            },
            ToolKind::Fetch => if argument == ToolKind::WebSearch {
                argument
            } else {
                base
            },
            _ => base,
        }
    }
}

/// How parsed arguments refine a kind: arguments of kind `Other` say
/// nothing; otherwise the argument kind replaces a base of kind `Other`, an
/// edit or search base that it contradicts, and a fetch that it reveals as
/// a web search; every other base stands.
pub open spec fn argument_kind_refines(base: ToolKind, argument: ToolKind, r: ToolKind) -> bool {
    &&& (argument == ToolKind::Other ==> r == base)
    &&& (argument != ToolKind::Other && base == ToolKind::Other ==> r == argument)
    &&& (argument != ToolKind::Other && argument != ToolKind::Edit && base == ToolKind::Edit ==> r
        == argument)
    &&& (argument != ToolKind::Other && argument != ToolKind::Search && base == ToolKind::Search
        ==> r == argument)
    &&& (base == ToolKind::Fetch && argument == ToolKind::WebSearch ==> r == argument)
    &&& (base != ToolKind::Other && base != ToolKind::Edit && base != ToolKind::Search && !(base
        == ToolKind::Fetch && argument == ToolKind::WebSearch) ==> r == base)
    &&& (r == base || r == argument)
}

/// Promotion follows the refinement rules for every pair of kinds.
pub proof fn law_argument_kind_refines(base: ToolKind, argument: ToolKind)
    ensures
        argument_kind_refines(base, argument, promoted_kind(base, argument)),
{
}

/// Lets the kind of the parsed arguments refine the identity's kind.
pub fn promote_kind(base_kind: ToolKind, argument_kind: ToolKind) -> (r: ToolKind)
    ensures
        r == promoted_kind(base_kind, argument_kind),
        argument_kind_refines(base_kind, argument_kind, r),
{
    proof {
        law_argument_kind_refines(base_kind, argument_kind);
    }
    if argument_kind == ToolKind::Other {
        return base_kind;
    }
    match base_kind {
        ToolKind::Other => argument_kind,
        ToolKind::Edit if argument_kind != ToolKind::Edit => argument_kind,
        ToolKind::Search if argument_kind != ToolKind::Search => argument_kind,
        ToolKind::Fetch if argument_kind == ToolKind::WebSearch => argument_kind,
        _ => base_kind,
    }
}

/// How a tool call's arguments are to be parsed once its identity is known.
pub enum ParsePlan {
    /// Keep the raw arguments under this kind.
    FromRaw(ToolKind),
    /// Record an `Unclassified` payload: every signal was tried.
    Unclassified,
    /// Ask the agent's parser, with this name and kind hint; if it cannot
    /// parse, fall back as `fallback` says.
    Typed { name: Option<String>, kind_hint: Option<String>, fallback: ParseFallback },
}

/// What an unparseable typed argument payload becomes.
#[derive(Debug, Clone, Copy, PartialEq, Eq, Structural)]
pub enum ParseFallback {
    /// The raw payload as `Other` arguments.
    Other,
    /// The raw payload under the identity's kind.
    FromRaw(ToolKind),
}

/// The parse plan for an identity.
pub open spec fn parse_plan_spec(
    identity_name: Seq<char>,
    kind: ToolKind,
    title: Option<Seq<char>>,
    kind_hint: Option<Seq<char>>,
    plan: ParsePlan,
) -> bool {
    if kind == ToolKind::Sql {
        plan == ParsePlan::FromRaw(ToolKind::Sql)
    } else if kind == ToolKind::Unclassified {
        plan is Unclassified
    } else {
        &&& plan matches ParsePlan::Typed { name, kind_hint: hint, fallback } && {
            &&& opt_string(name) == (if is_unknown_name(identity_name) {
                title
            } else {
                Some(identity_name)
            })
            &&& opt_string(hint) == (if kind == ToolKind::Other {
                kind_hint
            } else {
                Some(kind_str(kind))
            })
            &&& fallback == (if kind == ToolKind::Other {
                ParseFallback::Other
            } else {
                ParseFallback::FromRaw(kind)
            })
        }
    }
}

/// Decides how the arguments of a resolved tool call are parsed: SQL stays
/// raw, unclassified calls record every failed signal, and everything else
/// goes to the agent's parser under the identity's name (or the title, when
/// the name is unknown) and kind.
pub fn parse_arguments_plan(
    identity: &ToolIdentity,
    title: Option<&str>,
    kind_hint: Option<&str>,
) -> (r: ParsePlan)
    ensures
        parse_plan_spec(identity.name@, identity.kind, opt_view(title), opt_view(kind_hint), r),
{
    if identity.kind == ToolKind::Sql {
        return ParsePlan::FromRaw(identity.kind);
    }
    if identity.kind == ToolKind::Unclassified {
        return ParsePlan::Unclassified;
    }
    let parse_name = if is_unknown_tool_name(identity.name.as_str()) {
        match title {
            Some(t) => Some(owned(t)),
            None => None,
        }
    } else {
        Some(identity.name.clone())
    };
    let parse_kind_hint = if identity.kind == ToolKind::Other {
        match kind_hint {
            Some(h) => Some(owned(h)),
            None => None,
        }
    } else {
        Some(owned(identity.kind.as_str()))
    };
    let fallback = if identity.kind == ToolKind::Other {
        ParseFallback::Other
    } else {
        ParseFallback::FromRaw(identity.kind)
    };
    ParsePlan::Typed { name: parse_name, kind_hint: parse_kind_hint, fallback }
}

/// The kind a classified call ends with, given the kind of its parsed
/// arguments.
pub open spec fn classified_kind_spec(identity_kind: ToolKind, arguments_kind: ToolKind) -> ToolKind {
    promoted_kind(identity_kind, arguments_kind)
}

/// The name a classified call ends with: an unknown name is replaced by
/// the canonical name of a specific final kind.
pub open spec fn classified_name_spec(identity_name: Seq<char>, kind: ToolKind) -> Seq<char> {
    if is_unknown_name(identity_name) && !is_generic(kind) {
        tool_call_name(kind)
    } else {
        identity_name
    }
}

/// Completes the classification of a tool call once its arguments are
/// parsed: the argument kind may refine the kind, and an unknown name
/// takes the canonical name of a specific kind.
pub fn finish_classification(identity: ToolIdentity, arguments_kind: ToolKind) -> (r: ToolIdentity)
    ensures
        r.kind == classified_kind_spec(identity.kind, arguments_kind),
        argument_kind_refines(identity.kind, arguments_kind, r.kind),
        r.name@ == classified_name_spec(identity.name@, r.kind),
{
    let kind = promote_kind(identity.kind, arguments_kind);
    let name = if is_unknown_tool_name(identity.name.as_str()) && !kind.is_generic() {
        owned(canonical_tool_call_name_for_kind(kind))
    } else {
        identity.name
    };
    ToolIdentity { name, kind }
}

/// Identity resolution never settles on `Other`.
pub proof fn law_resolved_kind_never_other(
    hints: ToolClassificationHints,
    answers: ProviderAnswers,
    signals: SignalResults,
    raw_arguments: Option<JsonValue>,
    serialized: bool,
)
    ensures
        resolved_kind(hints, answers, signals, raw_arguments, serialized) != ToolKind::Other,
{
}

/// Arguments of unknown kind never change the kind, and a tool of unknown
/// kind takes the kind of its arguments.
pub proof fn law_promote_kind_units(base: ToolKind, argument: ToolKind)
    ensures
        promoted_kind(base, ToolKind::Other) == base,
        promoted_kind(ToolKind::Other, argument) == argument,
        promoted_kind(argument, argument) == argument,
{
}

/// The resolved name is never empty.
pub proof fn law_resolved_name_nonempty(
    hints: ToolClassificationHints,
    answers: ProviderAnswers,
    kind: ToolKind,
)
    ensures
        resolved_name(hints, answers, kind).len() > 0,
{
    reveal_strlit("unknown");
    reveal_strlit("WebSearch");
    reveal_strlit("Read");
    reveal_strlit("Edit");
    reveal_strlit("Run");
    reveal_strlit("Search");
    reveal_strlit("Find");
    reveal_strlit("Fetch");
    reveal_strlit("Think");
    reveal_strlit("TodoWrite");
    reveal_strlit("AskUserQuestion");
    reveal_strlit("Task");
    reveal_strlit("SQL");
    reveal_strlit("Browser");
    reveal_strlit("Move");
}

} // verus!
