//! Names of the fallback signals that classification tries in order.
use vstd::prelude::*;

verus! {

/// A fallback signal consulted while classifying a tool call whose provider
/// name table gave no kind.
#[derive(Debug, Clone, Copy, PartialEq, Eq, Structural)]
pub enum SignalName {
    /// The provider name table was consulted but produced no match.
    ProviderName,
    ArgumentShape,
    AcpKindHint,
    TitleHeuristic,
}

/// The wire name of a signal.
pub open spec fn signal_name_str(s: SignalName) -> Seq<char> {
    match s {
        SignalName::ProviderName => "provider_name"@,
        SignalName::ArgumentShape => "argument_shape"@,
        SignalName::AcpKindHint => "acp_kind_hint"@,
        SignalName::TitleHeuristic => "title_heuristic"@,
    }
}

impl SignalName {
    /// The snake-case name recorded in diagnostics and `Unclassified` payloads.
    pub fn as_str(self) -> (r: &'static str)
        ensures
            r@ == signal_name_str(self),
    {
        match self {
            SignalName::ProviderName => "provider_name",
            SignalName::ArgumentShape => "argument_shape",
            SignalName::AcpKindHint => "acp_kind_hint",
            SignalName::TitleHeuristic => "title_heuristic",
        }
    }
}

/// The wire names of a list of signals, in order (as an `Unclassified`
/// payload records the signals tried).
pub fn signal_names(signals: &Vec<SignalName>) -> (r: Vec<String>)
    ensures
        r@.len() == signals@.len(),
        forall|i: int| 0 <= i < r@.len() ==> #[trigger] r@[i]@ == signal_name_str(signals@[i]),
{
    let mut r: Vec<String> = Vec::new();
    let mut i: usize = 0;
    while i < signals.len()
        invariant
            i <= signals.len(),
            r@.len() == i,
            forall|k: int| 0 <= k < i ==> #[trigger] r@[k]@ == signal_name_str(signals@[k]),
        decreases signals.len() - i,
    {
        let name = signals[i].as_str();
        r.push(crate::tool_kind::owned(name));
        i = i + 1;
    }
    r
}

} // verus!
