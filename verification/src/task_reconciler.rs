//! Associates sub-agent tool calls with the task that spawned them: a child
//! that names a parent not yet seen is held back, and is attached to the
//! parent when the parent arrives.
use vstd::prelude::*;
use crate::json::JsonValue;
use crate::semantic::{QuestionItem, TodoItem, TodoUpdate, ToolArguments};
use crate::session_tool::ToolCallLocation;
use crate::tool_kind::ToolKind;

verus! {

/// Progress of a tool call.
#[derive(Debug, Clone, Copy, PartialEq, Eq, Structural)]
pub enum ToolCallStatus {
    Pending,
    InProgress,
    Completed,
    Failed,
}

/// A tool call as the session surface carries it.
#[derive(Debug)]
pub struct ToolCallData {
    pub id: String,
    pub name: String,
    pub arguments: ToolArguments,
    pub raw_input: Option<JsonValue>,
    pub status: ToolCallStatus,
    pub result: Option<JsonValue>,
    pub kind: Option<ToolKind>,
    pub title: Option<String>,
    pub locations: Option<Vec<ToolCallLocation>>,
    pub skill_meta: Option<JsonValue>,
    pub normalized_questions: Option<Vec<QuestionItem>>,
    pub normalized_todos: Option<Vec<TodoItem>>,
    pub normalized_todo_update: Option<TodoUpdate>,
    pub parent_tool_use_id: Option<String>,
    pub task_children: Option<Vec<ToolCallData>>,
    pub question_answer: Option<JsonValue>,
    pub awaiting_plan_approval: bool,
    pub plan_approval_request_id: Option<String>,
}

/// How children find their task.
#[derive(Debug, Clone, Copy, PartialEq, Eq, Structural)]
pub enum TaskReconciliationPolicy {
    /// A child names its parent in `parent_tool_use_id`.
    ExplicitParentIds,
}

/// What handling one tool call produced.
#[derive(Debug)]
pub enum ReconcilerOutput {
    /// The call is held until its parent arrives.
    Buffered,
    /// The call is ready to be shown.
    EmitToolCall(ToolCallData),
}

/// The tasks seen so far and the children still waiting for theirs.
pub struct TaskReconciler {
    known_parents: Vec<String>,
    buffered: Vec<ToolCallData>,
}

/// Whether `c` names the task `id` as its parent.
pub open spec fn is_child_of(c: ToolCallData, id: Seq<char>) -> bool {
    c.parent_tool_use_id matches Some(p) && p@ == id
}

/// The children of `id` among `calls`, in arrival order.
pub open spec fn children_of(calls: Seq<ToolCallData>, id: Seq<char>) -> Seq<ToolCallData> {
    calls.filter(|c: ToolCallData| is_child_of(c, id))
}

/// The calls among `calls` that are not children of `id`, in arrival order.
pub open spec fn others_of(calls: Seq<ToolCallData>, id: Seq<char>) -> Seq<ToolCallData> {
    calls.filter(|c: ToolCallData| !is_child_of(c, id))
}

/// The children a call already carries.
pub open spec fn carried_children(c: ToolCallData) -> Seq<ToolCallData> {
    match c.task_children {
        Some(v) => v@,
        None => seq![],
    }
}

/// Whether the call must wait: it names a parent that has not been seen.
pub open spec fn must_wait(known: Seq<Seq<char>>, c: ToolCallData) -> bool {
    c.parent_tool_use_id matches Some(p) && !known.contains(p@)
}

/// `e` is `c` with its waiting children attached.
pub open spec fn with_children(c: ToolCallData, kids: Seq<ToolCallData>, e: ToolCallData) -> bool {
    &&& e == (ToolCallData { task_children: e.task_children, ..c })
    &&& if kids.len() == 0 {
        e.task_children == c.task_children
    } else {
        e.task_children matches Some(v) && v@ == carried_children(c) + kids
    }
}

/// One step of the reconciler: state `(known, buffered)` handles `c`,
/// produces `out`, and moves to `(known2, buffered2)`.
pub open spec fn handled(
    known: Seq<Seq<char>>,
    buffered: Seq<ToolCallData>,
    c: ToolCallData,
    known2: Seq<Seq<char>>,
    buffered2: Seq<ToolCallData>,
    out: Seq<ReconcilerOutput>,
) -> bool {
    if must_wait(known, c) {
        &&& out == seq![ReconcilerOutput::Buffered]
        &&& known2 == known
        &&& buffered2 == buffered.push(c)
    } else {
        &&& out.len() == 1
        &&& out[0] matches ReconcilerOutput::EmitToolCall(e) && with_children(
            c,
            children_of(buffered, c.id@),
            e,
        )
        &&& known2 == known.push(c.id@)
        &&& buffered2 == others_of(buffered, c.id@)
    }
}

proof fn lemma_filter_push(s: Seq<ToolCallData>, pred: spec_fn(ToolCallData) -> bool, e: ToolCallData)
    ensures
        pred(e) ==> s.push(e).filter(pred) == s.filter(pred).push(e),
        !pred(e) ==> s.push(e).filter(pred) == s.filter(pred),
{
    reveal(Seq::filter);
    assert(s.push(e).drop_last() =~= s);
}

impl TaskReconciler {
    /// The ids of the tasks seen so far.
    pub closed spec fn known(&self) -> Seq<Seq<char>> {
        self.known_parents@.map_values(|s: String| s@)
    }

    /// The children waiting for their task, in arrival order.
    pub closed spec fn waiting(&self) -> Seq<ToolCallData> {
        self.buffered@
    }

    /// Every waiting child names a task that has not been seen.
    pub open spec fn wf(&self) -> bool {
        forall|i: int| 0 <= i < self.waiting().len() ==> must_wait(self.known(), #[trigger] self.waiting()[i])
    }

    /// A reconciler that has seen nothing.
    pub fn new() -> (r: Self)
        ensures
            r.known().len() == 0,
            r.waiting().len() == 0,
            r.wf(),
    {
        TaskReconciler { known_parents: Vec::new(), buffered: Vec::new() }
    }

    /// Whether the task `id` has been seen.
    fn knows(&self, id: &String) -> (b: bool)
        ensures
            b == self.known().contains(id@),
    {
        let mut i: usize = 0;
        while i < self.known_parents.len()
            invariant
                i <= self.known_parents.len(),
                forall|k: int| 0 <= k < i ==> #[trigger] self.known_parents@[k]@ != id@,
            decreases self.known_parents.len() - i,
        {
            if self.known_parents[i] == *id {
                proof {
                    assert(self.known()[i as int] == id@);
                }
                return true;
            }
            i = i + 1;
        }
        proof {
            if self.known().contains(id@) {
                let k = choose|k: int| 0 <= k < self.known().len() && #[trigger] self.known()[k] == id@;
                assert(self.known_parents@[k]@ == id@);
            }
        }
        false
    }

    /// Handles one tool call. A call that names a parent not yet seen is
    /// buffered. Any other call is emitted, with the buffered children that
    /// name it appended to its task children, and becomes a known task.
    pub fn handle_tool_call_with_policy(
        &mut self,
        tool_call: ToolCallData,
        policy: TaskReconciliationPolicy,
    ) -> (out: Vec<ReconcilerOutput>)
        requires
            old(self).wf(),
        ensures
            final(self).wf(),
            handled(
                old(self).known(),
                old(self).waiting(),
                tool_call,
                final(self).known(),
                final(self).waiting(),
                out@,
            ),
    {
        let _ = policy;
        let wait = match &tool_call.parent_tool_use_id {
            Some(p) => !self.knows(p),
            None => false,
        };
        if wait {
            self.buffered.push(tool_call);
            let mut out: Vec<ReconcilerOutput> = Vec::new();
            out.push(ReconcilerOutput::Buffered);
            proof {
                assert(out@ =~= seq![ReconcilerOutput::Buffered]);
                assert forall|i: int| 0 <= i < self.waiting().len() implies must_wait(
                    self.known(),
                    #[trigger] self.waiting()[i],
                ) by {
                    if i < old(self).waiting().len() {
                        assert(self.waiting()[i] == old(self).waiting()[i]);
                    }
                }
            }
            return out;
        }
        let ghost id = tool_call.id@;
        let ghost pred = |c: ToolCallData| is_child_of(c, id);
        let ghost npred = |c: ToolCallData| !is_child_of(c, id);
        let mut old_buffered: Vec<ToolCallData> = Vec::new();
        std::mem::swap(&mut old_buffered, &mut self.buffered);
        let ghost ob = old_buffered@;
        let mut kids: Vec<ToolCallData> = Vec::new();
        let mut rest: Vec<ToolCallData> = Vec::new();
        proof {
            reveal(Seq::filter);
            assert(ob.take(0) =~= Seq::<ToolCallData>::empty());
        }
        for c in it: old_buffered.into_iter()
            invariant
                it.seq() == ob,
                kids@ == ob.take(it.index() as int).filter(pred),
                rest@ == ob.take(it.index() as int).filter(npred),
                id == tool_call.id@,
                pred == (|c: ToolCallData| is_child_of(c, id)),
                npred == (|c: ToolCallData| !is_child_of(c, id)),
        {
            let ghost before = ob.take(it.index() as int);
            proof {
                lemma_filter_push(before, pred, c);
                lemma_filter_push(before, npred, c);
                assert(ob.take(it.index() + 1) =~= before.push(c));
            }
            let is_kid = match &c.parent_tool_use_id {
                Some(p) => *p == tool_call.id,
                None => false,
            };
            if is_kid {
                kids.push(c);
            } else {
                rest.push(c);
            }
        }
        proof {
            assert(ob.take(ob.len() as int) =~= ob);
        }
        self.buffered = rest;
        let mut emitted = tool_call;
        if kids.len() > 0 {
            let mut children = match emitted.task_children.take() {
                Some(v) => v,
                None => Vec::new(),
            };
            children.append(&mut kids);
            emitted.task_children = Some(children);
        }
        self.known_parents.push(emitted.id.clone());
        let mut out: Vec<ReconcilerOutput> = Vec::new();
        out.push(ReconcilerOutput::EmitToolCall(emitted));
        proof {
            assert(self.known() =~= old(self).known().push(id));
            assert forall|i: int| 0 <= i < self.waiting().len() implies must_wait(
                self.known(),
                #[trigger] self.waiting()[i],
            ) by {
                let w = self.waiting()[i];
                assert(ob.filter(npred)[i] == w);
                assert(ob.filter(npred).contains(w));
                ob.lemma_filter_contains_rev(npred, w);
                ob.lemma_filter_pred(npred, i);
                let j = choose|j: int| 0 <= j < ob.len() && ob[j] == w;
                assert(must_wait(old(self).known(), old(self).waiting()[j]));
                let p = w.parent_tool_use_id->0;
                assert(p@ != id);
                assert(!self.known().contains(p@)) by {
                    if self.known().contains(p@) {
                        let k = choose|k: int| 0 <= k < self.known().len() && self.known()[k] == p@;
                        if k < old(self).known().len() {
                            assert(old(self).known()[k] == p@);
                        }
                    }
                }
            }
        }
        out
    }
}

/// A child that arrives before its task is held back, and is attached,
/// after the children already waiting for that task, when the task
/// arrives.
pub proof fn law_child_attached_when_parent_arrives(
    k0: Seq<Seq<char>>,
    b0: Seq<ToolCallData>,
    child: ToolCallData,
    k1: Seq<Seq<char>>,
    b1: Seq<ToolCallData>,
    o1: Seq<ReconcilerOutput>,
    parent: ToolCallData,
    k2: Seq<Seq<char>>,
    b2: Seq<ToolCallData>,
    o2: Seq<ReconcilerOutput>,
)
    requires
        handled(k0, b0, child, k1, b1, o1),
        handled(k1, b1, parent, k2, b2, o2),
        is_child_of(child, parent.id@),
        !k0.contains(parent.id@),
        parent.parent_tool_use_id is None,
        parent.task_children is None,
    ensures
        o1 == seq![ReconcilerOutput::Buffered],
        o2.len() == 1,
        o2[0] matches ReconcilerOutput::EmitToolCall(e) && e.id == parent.id && (e.task_children
            matches Some(v) && v@ == children_of(b0, parent.id@).push(child)),
        !b2.contains(child),
{
    let id = parent.id@;
    lemma_filter_push(b0, |c: ToolCallData| is_child_of(c, id), child);
    lemma_filter_push(b0, |c: ToolCallData| !is_child_of(c, id), child);
    assert(children_of(b1, id) == children_of(b0, id).push(child));
    if b2.contains(child) {
        b1.lemma_filter_contains_rev(|c: ToolCallData| !is_child_of(c, id), child);
        let i = choose|i: int| 0 <= i < b2.len() && b2[i] == child;
        b1.lemma_filter_pred(|c: ToolCallData| !is_child_of(c, id), i);
    }
}

/// A call whose task has already been seen is never held back.
pub proof fn law_known_parent_never_buffered(
    k: Seq<Seq<char>>,
    b: Seq<ToolCallData>,
    c: ToolCallData,
    k2: Seq<Seq<char>>,
    b2: Seq<ToolCallData>,
    out: Seq<ReconcilerOutput>,
)
    requires
        handled(k, b, c, k2, b2, out),
        c.parent_tool_use_id matches Some(p) && k.contains(p@),
    ensures
        out.len() == 1,
        out[0] is EmitToolCall,
        b2.len() <= b.len(),
{
    b.lemma_filter_len(|x: ToolCallData| !is_child_of(x, c.id@));
}

/// Nothing waiting is lost when a task arrives: the children attached to
/// it and the calls left waiting are, together, the calls that waited.
pub proof fn law_waiting_calls_conserved(b: Seq<ToolCallData>, id: Seq<char>)
    ensures
        children_of(b, id).to_multiset().add(others_of(b, id).to_multiset()) =~= b.to_multiset(),
    decreases b.len(),
{
    broadcast use vstd::seq_lib::group_to_multiset_ensures;
    broadcast use vstd::multiset::group_multiset_axioms;

    if b.len() > 0 {
        let rest = b.drop_last();
        let e = b.last();
        law_waiting_calls_conserved(rest, id);
        assert(rest.push(e) =~= b);
        lemma_filter_push(rest, |c: ToolCallData| is_child_of(c, id), e);
        lemma_filter_push(rest, |c: ToolCallData| !is_child_of(c, id), e);
    } else {
        reveal(Seq::filter);
    }
}

} // verus!
