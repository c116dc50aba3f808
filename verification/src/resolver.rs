//! The variable resolver. Given the property descriptors of one scope it
//! produces the scope's variable list: an inline scalar becomes a terminal
//! value; a remote object reference that the resolution policy accepts is
//! fetched — one property fetch per nesting level — and becomes a nested
//! variable list; one the policy rejects becomes the "unresolved" sentinel
//! with no fetch, at the scope level as at every nesting level below it. The
//! recursion is demand-driven and has no depth or cycle guard, by design:
//! the machine below makes one transition per call and the surrounding loop
//! runs it for as long as the remote object graph feeds it.

use vstd::prelude::*;

verus! {

use crate::messages::PropertyDescriptor;
use crate::seq_starts_with;
use crate::text::{str_eq, str_starts_with};

/// A resolved value: a terminal scalar rendered as text, or a nested,
/// ordered sequence of further variables — never both.
pub enum VarValue {
    Scalar(String),
    Nested(Vec<Variable>),
}

/// One resolved variable.
pub struct Variable {
    pub name: String,
    pub value: VarValue,
}

/// The resolution policy: a property is resolved further only when its value
/// is not function-typed and its name does not follow the dunder convention.
pub open spec fn policy_accepts(pd: PropertyDescriptor) -> bool {
    pd.value.kind@ != "function"@ && !seq_starts_with(pd.name@, "__"@)
}

pub fn should_resolve(pd: &PropertyDescriptor) -> (r: bool)
    ensures
        r == policy_accepts(*pd),
{
    !str_eq(pd.value.kind.as_str(), "function") && !str_starts_with(pd.name.as_str(), "__")
}

/// The text of the sentinel standing for a property that is present but
/// intentionally unresolved.
pub open spec fn sentinel_text() -> Seq<char> {
    "unresolved"@
}

/// One level of the resolution: the variable name this level will produce
/// (unused at the scope level), the children resolved so far, the
/// descriptors of the level, and the cursor of the next one to consume.
pub struct RFrame {
    pub name: String,
    pub done: Vec<Variable>,
    pub props: Vec<PropertyDescriptor>,
    pub idx: usize,
}

/// What one transition of the resolver asks of its caller.
pub enum ResolveStep {
    /// Internal work was done; make the next transition.
    Progress,
    /// Fetch the properties of this object identifier and feed the reply to
    /// [`Resolver::on_properties`].
    Fetch(String),
    /// The scope is resolved: its variable list, in descriptor order.
    Finished(Vec<Variable>),
}

/// The resolution machine: a stack of levels, the scope level at the bottom,
/// and, while a fetch is out, the name of the variable it will populate.
pub struct Resolver {
    pub stack: Vec<RFrame>,
    pub fetching: Option<String>,
}

/// The transition relation of [`Resolver::step`]: from state `pre`, one
/// transition yields state `post` and output `out`.
pub open spec fn step_rel(pre: Resolver, post: Resolver, out: ResolveStep) -> bool {
    let stack = pre.stack@;
    let top = stack.last();
    if top.idx == top.props@.len() {
        if stack.len() == 1 {
            // the scope level is exhausted: the resolution is finished
            &&& out == ResolveStep::Finished(top.done)
            &&& post.stack@ == stack.drop_last()
            &&& post.fetching == pre.fetching
        } else {
            // a nested level is exhausted: it becomes one nested variable of
            // the level below
            let parent = stack[stack.len() - 2];
            &&& out == ResolveStep::Progress
            &&& post.stack@.len() == stack.len() - 1
            &&& (forall|i: int| 0 <= i < stack.len() - 2 ==> post.stack@[i] == stack[i])
            &&& post.stack@.last().name == parent.name
            &&& post.stack@.last().props == parent.props
            &&& post.stack@.last().idx == parent.idx
            &&& post.stack@.last().done@ == parent.done@.push(
                Variable { name: top.name, value: VarValue::Nested(top.done) },
            )
            &&& post.fetching == pre.fetching
        }
    } else {
        // consume the next descriptor of the top level
        let pd = top.props@[top.idx as int];
        &&& post.stack@.len() == stack.len()
        &&& (forall|i: int| 0 <= i < stack.len() - 1 ==> post.stack@[i] == stack[i])
        &&& post.stack@.last().name == top.name
        &&& post.stack@.last().props == top.props
        &&& post.stack@.last().idx == top.idx + 1
        &&& if pd.value.value is Some {
            // an inline scalar is terminal: no further request
            &&& out == ResolveStep::Progress
            &&& post.stack@.last().done@ == top.done@.push(
                Variable { name: pd.name, value: VarValue::Scalar(pd.value.value.unwrap()) },
            )
            &&& post.fetching == pre.fetching
        } else if !policy_accepts(pd) {
            // present but intentionally unresolved: the sentinel, no request
            &&& out == ResolveStep::Progress
            &&& post.stack@.last().done@.len() == top.done@.len() + 1
            &&& post.stack@.last().done@.subrange(0, top.done@.len() as int) == top.done@
            &&& post.stack@.last().done@.last().name == pd.name
            &&& (post.stack@.last().done@.last().value matches VarValue::Scalar(s) && s@
                == sentinel_text())
            &&& post.fetching == pre.fetching
        } else if pd.value.object_id is Some {
            // an accepted object reference: exactly one fetch, opening one
            // nesting level when the reply arrives
            &&& (out matches ResolveStep::Fetch(oid) && pd.value.object_id == Some(oid))
            &&& post.stack@.last().done == top.done
            &&& post.fetching == Some(pd.name)
        } else {
            // neither inline value nor object identifier: an unexpected
            // shape, dropped
            &&& out == ResolveStep::Progress
            &&& post.stack@.last().done == top.done
            &&& post.fetching == pre.fetching
        }
    }
}

impl Resolver {
    /// Every cursor is within its level's descriptor list.
    pub open spec fn inv(self) -> bool {
        forall|i: int|
            0 <= i < self.stack@.len() ==> (#[trigger] self.stack@[i]).idx
                <= self.stack@[i].props@.len()
    }

    /// The resolution of one scope, from its fetched property descriptors.
    pub fn new(props: Vec<PropertyDescriptor>) -> (r: Resolver)
        ensures
            r.inv(),
            r.fetching is None,
            r.stack@.len() == 1,
            r.stack@[0].props == props,
            r.stack@[0].idx == 0,
            r.stack@[0].done@ == Seq::<Variable>::empty(),
    {
        let root = RFrame { name: String::new(), done: Vec::new(), props, idx: 0 };
        Resolver { stack: vec![root], fetching: None }
    }

    /// Makes one transition.
    pub fn step(&mut self) -> (out: ResolveStep)
        requires
            old(self).inv(),
            old(self).stack@.len() > 0,
            old(self).fetching is None,
        ensures
            final(self).inv(),
            step_rel(*old(self), *final(self), out),
            (out matches ResolveStep::Fetch(_)) == (final(self).fetching is Some),
            (out matches ResolveStep::Finished(_)) == (final(self).stack@.len() == 0),
    {
        let depth = self.stack.len();
        if self.stack[depth - 1].idx == self.stack[depth - 1].props.len() {
            let top = self.stack.pop().unwrap();
            if depth == 1 {
                return ResolveStep::Finished(top.done);
            }
            let mut parent = self.stack.pop().unwrap();
            parent.done.push(Variable { name: top.name, value: VarValue::Nested(top.done) });
            self.stack.push(parent);
            return ResolveStep::Progress;
        }
        let mut top = self.stack.pop().unwrap();
        let i = top.idx;
        let accepted = should_resolve(&top.props[i]);
        let scalar = match &top.props[i].value.value {
            Some(s) => Some(s.clone()),
            None => None,
        };
        if let Some(text) = scalar {
            let name = top.props[i].name.clone();
            top.done.push(Variable { name, value: VarValue::Scalar(text) });
            top.idx = i + 1;
            self.stack.push(top);
            return ResolveStep::Progress;
        }
        if !accepted {
            let ghost done0 = top.done@;
            let name = top.props[i].name.clone();
            top.done.push(Variable { name, value: VarValue::Scalar(String::from_str("unresolved")) });
            proof {
                assert(top.done@.subrange(0, done0.len() as int) =~= done0);
            }
            top.idx = i + 1;
            self.stack.push(top);
            return ResolveStep::Progress;
        }
        let oid = match &top.props[i].value.object_id {
            Some(o) => Some(o.clone()),
            None => None,
        };
        match oid {
            Some(o) => {
                self.fetching = Some(top.props[i].name.clone());
                top.idx = i + 1;
                self.stack.push(top);
                ResolveStep::Fetch(o)
            },
            None => {
                top.idx = i + 1;
                self.stack.push(top);
                ResolveStep::Progress
            },
        }
    }

    /// Feeds the reply to the outstanding fetch: the fetched descriptors
    /// open one nesting level, to be resolved into the variable the fetch
    /// was issued for.
    pub fn on_properties(&mut self, props: Vec<PropertyDescriptor>)
        requires
            old(self).inv(),
            old(self).fetching is Some,
        ensures
            final(self).inv(),
            final(self).fetching is None,
            final(self).stack@.len() == old(self).stack@.len() + 1,
            (forall|i: int|
                0 <= i < old(self).stack@.len() ==> final(self).stack@[i] == old(self).stack@[i]),
            final(self).stack@.last().name == old(self).fetching.unwrap(),
            final(self).stack@.last().props == props,
            final(self).stack@.last().idx == 0,
            final(self).stack@.last().done@ == Seq::<Variable>::empty(),
    {
        let name = match &self.fetching {
            Some(n) => n.clone(),
            None => String::new(),
        };
        self.fetching = None;
        self.stack.push(RFrame { name, done: Vec::new(), props, idx: 0 });
    }
}

/// Law: a property with an inline scalar value resolves, in the one
/// transition that consumes it, to a terminal variable carrying that text —
/// with no property fetch.
pub proof fn lemma_scalar_needs_no_fetch(pre: Resolver, post: Resolver, out: ResolveStep)
    requires
        step_rel(pre, post, out),
        pre.stack@.len() > 0,
        pre.stack@.last().idx < pre.stack@.last().props@.len(),
        pre.stack@.last().props@[pre.stack@.last().idx as int].value.value is Some,
    ensures
        out == ResolveStep::Progress,
        post.stack@.last().done@ == pre.stack@.last().done@.push(
            Variable {
                name: pre.stack@.last().props@[pre.stack@.last().idx as int].name,
                value: VarValue::Scalar(
                    pre.stack@.last().props@[pre.stack@.last().idx as int].value.value.unwrap(),
                ),
            },
        ),
{
}

/// Law: a property the policy rejects and that carries no inline value
/// resolves to the "unresolved" sentinel — with no property fetch — at the
/// scope level as at every nesting level below it.
pub proof fn lemma_rejected_needs_no_fetch(pre: Resolver, post: Resolver, out: ResolveStep)
    requires
        step_rel(pre, post, out),
        pre.stack@.len() > 0,
        pre.stack@.last().idx < pre.stack@.last().props@.len(),
        !policy_accepts(pre.stack@.last().props@[pre.stack@.last().idx as int]),
        pre.stack@.last().props@[pre.stack@.last().idx as int].value.value is None,
    ensures
        out == ResolveStep::Progress,
        post.stack@.last().done@.len() == pre.stack@.last().done@.len() + 1,
        post.stack@.last().done@.last().name == pre.stack@.last().props@[pre.stack@.last().idx as int].name,
        (post.stack@.last().done@.last().value matches VarValue::Scalar(s) && s@
            == sentinel_text()),
{
}

/// The work remaining on a resolution stack: one unit per open level plus
/// one per descriptor not yet consumed.
pub open spec fn stack_measure(frames: Seq<RFrame>) -> int
    decreases frames.len(),
{
    if frames.len() == 0 {
        0
    } else {
        stack_measure(frames.drop_last()) + 1 + frames.last().props@.len() - frames.last().idx
    }
}

/// With every cursor in bounds, the remaining work is at least the number
/// of open levels.
pub proof fn lemma_measure_at_least_depth(frames: Seq<RFrame>)
    requires
        forall|i: int|
            0 <= i < frames.len() ==> (#[trigger] frames[i]).idx <= frames[i].props@.len(),
    ensures
        stack_measure(frames) >= frames.len(),
    decreases frames.len(),
{
    if frames.len() > 0 {
        lemma_measure_at_least_depth(frames.drop_last());
    }
}

/// Law: between fetches the resolution cannot spin — every transition
/// strictly decreases the remaining work, which never goes below zero; a
/// run can therefore only go on by fetching, and only a reply to a fetch
/// ([`Resolver::on_properties`]) adds work.
pub proof fn lemma_step_makes_progress(pre: Resolver, post: Resolver, out: ResolveStep)
    requires
        pre.inv(),
        pre.stack@.len() > 0,
        step_rel(pre, post, out),
    ensures
        stack_measure(post.stack@) < stack_measure(pre.stack@),
        stack_measure(post.stack@) >= 0,
{
    let stack = pre.stack@;
    let top = stack.last();
    if top.idx == top.props@.len() {
        if stack.len() == 1 {
            assert(post.stack@ =~= stack.drop_last());
            assert(stack_measure(stack) == stack_measure(stack.drop_last()) + 1);
        } else {
            let parent = stack[stack.len() - 2];
            assert forall|i: int|
                0 <= i < post.stack@.len() - 1 implies post.stack@.drop_last()[i]
                == stack.drop_last().drop_last()[i] by {
                assert(post.stack@[i] == stack[i]);
            }
            assert(post.stack@.drop_last() =~= stack.drop_last().drop_last());
            assert(stack.drop_last().last() == parent);
            assert(stack_measure(stack) == stack_measure(stack.drop_last()) + 1 + top.props@.len()
                - top.idx);
            assert(stack_measure(stack.drop_last()) == stack_measure(
                stack.drop_last().drop_last(),
            ) + 1 + parent.props@.len() - parent.idx);
            assert(stack_measure(post.stack@) == stack_measure(post.stack@.drop_last()) + 1
                + parent.props@.len() - parent.idx);
        }
    } else {
        assert forall|i: int|
            0 <= i < post.stack@.len() - 1 implies post.stack@.drop_last()[i]
            == stack.drop_last()[i] by {
            assert(post.stack@[i] == stack[i]);
        }
        assert(post.stack@.drop_last() =~= stack.drop_last());
        assert(stack_measure(stack) == stack_measure(stack.drop_last()) + 1 + top.props@.len()
            - top.idx);
        assert(stack_measure(post.stack@) == stack_measure(post.stack@.drop_last()) + 1
            + post.stack@.last().props@.len() - post.stack@.last().idx);
    }
    assert forall|i: int|
        0 <= i < post.stack@.len() implies (#[trigger] post.stack@[i]).idx
        <= post.stack@[i].props@.len() by {
        if i < post.stack@.len() - 1 {
            assert(post.stack@[i] == stack[i]);
            assert(pre.stack@[i].idx <= pre.stack@[i].props@.len());
        } else if top.idx == top.props@.len() && stack.len() > 1 {
            assert(pre.stack@[stack.len() - 2].idx <= pre.stack@[stack.len() - 2].props@.len());
        }
    }
    lemma_measure_at_least_depth(post.stack@);
}

/// Law: a property fetch is triggered only by a property that the policy
/// accepts, that carries no inline value, and that references a remote
/// object — and it is the object so referenced that is fetched. Together
/// with [`Resolver::on_properties`], which opens exactly one nesting level
/// per reply, this makes one fetch per additional nesting level.
pub proof fn lemma_fetch_only_for_accepted_refs(pre: Resolver, post: Resolver, out: ResolveStep, oid: String)
    requires
        pre.inv(),
        step_rel(pre, post, out),
        pre.stack@.len() > 0,
        out == ResolveStep::Fetch(oid),
    ensures
        pre.stack@.last().idx < pre.stack@.last().props@.len(),
        policy_accepts(pre.stack@.last().props@[pre.stack@.last().idx as int]),
        pre.stack@.last().props@[pre.stack@.last().idx as int].value.value is None,
        pre.stack@.last().props@[pre.stack@.last().idx as int].value.object_id == Some(oid),
        post.fetching == Some(pre.stack@.last().props@[pre.stack@.last().idx as int].name),
{
    let stack = pre.stack@;
    let top = stack.last();
    if top.idx == top.props@.len() {
        if stack.len() == 1 {
            assert(out == ResolveStep::Finished(top.done));
        } else {
            assert(out == ResolveStep::Progress);
        }
        assert(false);
    }
}

} // verus!
