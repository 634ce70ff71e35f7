//! Choosing the display name of a tool call from what the provider sent.
use vstd::prelude::*;
use crate::text::{
    chars_eq_ignore_ascii_case, chars_of, eq_ignore_ascii_case, string_from_chars, trim, trim_chars,
};
use crate::tool_kind::{kind_str, owned, ToolKind};

verus! {

/// A name carries no information: blank, or `unknown` in any ASCII case,
/// once trimmed.
pub open spec fn is_unknown_name(name: Seq<char>) -> bool {
    let t = trim(name);
    t.len() == 0 || eq_ignore_ascii_case(t, "unknown"@)
}

/// The trimmed name, where it is not blank and not unknown.
pub open spec fn usable_name(name: Option<Seq<char>>) -> Option<Seq<char>> {
    match name {
        Some(n) => {
            let t = trim(n);
            if t.len() > 0 && !is_unknown_name(t) {
                Some(t)
            } else {
                None
            }
        },
        None => None,
    }
}

/// The trimmed text, where it is not blank and not `unknown` (ASCII case
/// ignored).
pub open spec fn meaningful(text: Option<Seq<char>>) -> Option<Seq<char>> {
    match text {
        Some(n) => {
            let t = trim(n);
            if t.len() > 0 && !eq_ignore_ascii_case(t, "unknown"@) {
                Some(t)
            } else {
                None
            }
        },
        None => None,
    }
}

/// The name a tool of this kind is normalized to when neither name nor
/// title is meaningful.
pub open spec fn kind_fallback_name(kind: ToolKind) -> Seq<char> {
    match kind {
        ToolKind::Todo => "TodoWrite"@,
        ToolKind::Question => "AskUserQuestion"@,
        ToolKind::WebSearch => "WebSearch"@,
        ToolKind::Other | ToolKind::Unclassified => "unknown"@,
        _ => kind_str(kind),
    }
}

/// The normalization name: the meaningful name, else the meaningful title,
/// else a name derived from the kind.
pub open spec fn normalization_name_spec(
    name: Option<Seq<char>>,
    title: Option<Seq<char>>,
    kind: ToolKind,
) -> Seq<char> {
    match meaningful(name) {
        Some(n) => n,
        None => match meaningful(title) {
            Some(t) => t,
            None => kind_fallback_name(kind),
        },
    }
}

/// The view of an optional string slice.
pub open spec fn opt_view(s: Option<&str>) -> Option<Seq<char>> {
    match s {
        Some(v) => Some(v@),
        None => None,
    }
}

/// Whether `chars` spells `unknown` ignoring ASCII case.
fn is_unknown_word(chars: &Vec<char>) -> (b: bool)
    ensures
        b == eq_ignore_ascii_case(chars@, "unknown"@),
{
    let unknown = chars_of("unknown");
    chars_eq_ignore_ascii_case(chars, &unknown)
}

/// Whether a tool name is blank or `unknown` once trimmed.
pub fn is_unknown_tool_name(name: &str) -> (b: bool)
    ensures
        b == is_unknown_name(name@),
{
    let chars = chars_of(name);
    let t = trim_chars(&chars);
    t.len() == 0 || is_unknown_word(&t)
}

/// The trimmed characters of `s` when they are not blank and not unknown.
fn usable_chars(s: &str) -> (r: Option<Vec<char>>)
    ensures
        r matches Some(v) ==> usable_name(Some(s@)) == Some(v@),
        r is None ==> usable_name(Some(s@)) is None,
{
    let chars = chars_of(s);
    let t = trim_chars(&chars);
    if t.len() == 0 {
        return None;
    }
    let ts = string_from_chars(&t, 0, t.len());
    assert(t@.subrange(0, t@.len() as int) =~= t@);
    if is_unknown_tool_name(ts.as_str()) {
        None
    } else {
        Some(t)
    }
}

/// The provider's tool name, trimmed, when it is neither blank nor unknown.
pub fn usable_tool_name(name: Option<&str>) -> (r: Option<String>)
    ensures
        match r {
            Some(v) => usable_name(opt_view(name)) == Some(v@),
            None => usable_name(opt_view(name)) is None,
        },
{
    match name {
        Some(s) => match usable_chars(s) {
            Some(t) => {
                let r = string_from_chars(&t, 0, t.len());
                assert(t@.subrange(0, t@.len() as int) =~= t@);
                Some(r)
            },
            None => None,
        },
        None => None,
    }
}

/// The trimmed text when it is neither blank nor `unknown`.
fn meaningful_text(text: Option<&str>) -> (r: Option<String>)
    ensures
        match r {
            Some(v) => meaningful(opt_view(text)) == Some(v@),
            None => meaningful(opt_view(text)) is None,
        },
{
    match text {
        Some(s) => {
            let chars = chars_of(s);
            let t = trim_chars(&chars);
            if t.len() == 0 || is_unknown_word(&t) {
                None
            } else {
                assert(t@.subrange(0, t@.len() as int) =~= t@);
                Some(string_from_chars(&t, 0, t.len()))
            }
        },
        None => None,
    }
}

/// The name a classified tool call is normalized under: the provider's
/// name, else its title, else a name derived from the kind.
pub fn normalization_name(name: Option<&str>, title: Option<&str>, kind: ToolKind) -> (r: String)
    ensures
        r@ == normalization_name_spec(opt_view(name), opt_view(title), kind),
{
    if let Some(n) = meaningful_text(name) {
        return n;
    }
    if let Some(t) = meaningful_text(title) {
        return t;
    }
    match kind {
        ToolKind::Todo => owned("TodoWrite"),
        ToolKind::Question => owned("AskUserQuestion"),
        ToolKind::WebSearch => owned("WebSearch"),
        ToolKind::Other | ToolKind::Unclassified => owned("unknown"),
        other => owned(other.as_str()),
    }
}

/// A provider name is usable exactly when it is not unknown: blank names
/// and `unknown` in any ASCII case are the only ones dropped, and a usable
/// name is the trimmed name.
pub proof fn law_usable_iff_not_unknown(name: Seq<char>)
    ensures
        (usable_name(Some(name)) is None) <==> is_unknown_name(name),
        usable_name(Some(name)) matches Some(n) ==> n == trim(name),
{
    crate::text::lemma_trim_idempotent(name);
}

/// The normalization name is never empty.
pub proof fn law_normalization_name_nonempty(
    name: Option<Seq<char>>,
    title: Option<Seq<char>>,
    kind: ToolKind,
)
    ensures
        normalization_name_spec(name, title, kind).len() > 0,
{
    reveal_strlit("TodoWrite");
    reveal_strlit("AskUserQuestion");
    reveal_strlit("WebSearch");
    reveal_strlit("unknown");
    reveal_strlit("read");
    reveal_strlit("edit");
    reveal_strlit("execute");
    reveal_strlit("search");
    reveal_strlit("glob");
    reveal_strlit("fetch");
    reveal_strlit("think");
    reveal_strlit("task");
    reveal_strlit("sql");
    reveal_strlit("browser");
    reveal_strlit("move");
}

} // verus!
