//! Recursive composition over nested structures.
//!
//! A [`FormNode`] is either one leaf field or a named group of child nodes —
//! a nested subform.  The recursive operations treat a whole subform as one
//! binding: reconstruction succeeds exactly when every leaf underneath
//! succeeds (reporting the first failure, depth first and in declaration
//! order), a subform is "not provided" exactly when every leaf underneath
//! holds the empty representation, rebasing rebases every leaf, and the
//! traversal hook visits every leaf cell.

use vstd::prelude::*;

use crate::error::FormError;
use crate::signal::spec_is_default;
use crate::signal::spec_reset;
use crate::signal::spec_try_from;
use crate::signal::FieldConfig;
use crate::signal::FieldSignal;
use crate::signal::FieldValue;

verus! {

broadcast use
    vstd::std_specs::vec::axiom_vec_index_decreases,
    vstd::std_specs::vec::axiom_vec_decreases_to_view;

/// One node of a form: a leaf field, or a nested subform of named children.
pub enum FormNode {
    Field { name: String, config: FieldConfig, signal: FieldSignal },
    Group { name: String, children: Vec<FormNode> },
}

/// The value a form node reconstructs to: a leaf domain value, or the
/// children's values in declaration order.
#[derive(Debug, PartialEq, Eq)]
pub enum FormValue {
    Leaf(FieldValue),
    Group(Vec<FormValue>),
}

/// Whether every leaf under the node commits successfully.
pub open spec fn spec_node_ok(n: FormNode) -> bool
    decreases n,
{
    match n {
        FormNode::Field { config, signal, .. } => spec_try_from(signal@.value, config) is Ok,
        FormNode::Group { children, .. } => forall|i: int|
            0 <= i < children@.len() ==> spec_node_ok(#[trigger] children@[i]),
    }
}

/// The first commit failure under the node, depth first and in declaration
/// order, or `None` when every leaf succeeds.
pub open spec fn spec_first_err(n: FormNode) -> Option<FormError>
    decreases n, 0int,
{
    match n {
        FormNode::Field { config, signal, .. } => match spec_try_from(signal@.value, config) {
            Ok(_) => None,
            Err(e) => Some(e),
        },
        FormNode::Group { children, .. } => spec_first_err_from(children@, 0),
    }
}

/// The first commit failure among the nodes of `s` at or after `k`.
pub open spec fn spec_first_err_from(s: Seq<FormNode>, k: int) -> Option<FormError>
    decreases s, s.len() - k,
{
    if k < 0 || k >= s.len() {
        None
    } else {
        match spec_first_err(s[k]) {
            Some(e) => Some(e),
            None => spec_first_err_from(s, k + 1),
        }
    }
}

/// Whether `v` is exactly what the node reconstructs to when every leaf
/// succeeds.
pub open spec fn spec_node_value(n: FormNode, v: FormValue) -> bool
    decreases n,
{
    match n {
        FormNode::Field { config, signal, .. } => match v {
            FormValue::Leaf(lv) => spec_try_from(signal@.value, config) == Ok::<_, FormError>(lv@),
            FormValue::Group(_) => false,
        },
        FormNode::Group { children, .. } => match v {
            FormValue::Leaf(_) => false,
            FormValue::Group(vs) => vs@.len() == children@.len() && forall|i: int|
                0 <= i < children@.len() ==> spec_node_value(
                    #[trigger] children@[i],
                    #[trigger] vs@[i],
                ),
        },
    }
}

/// Whether every leaf under the node holds the empty representation.
pub open spec fn spec_node_default(n: FormNode) -> bool
    decreases n,
{
    match n {
        FormNode::Field { signal, .. } => spec_is_default(signal@),
        FormNode::Group { children, .. } => forall|i: int|
            0 <= i < children@.len() ==> spec_node_default(#[trigger] children@[i]),
    }
}

/// How many leaf fields the node holds.
pub open spec fn spec_leaf_count(n: FormNode) -> nat
    decreases n, 0int,
{
    match n {
        FormNode::Field { .. } => 1,
        FormNode::Group { children, .. } => spec_leaf_count_from(children@, 0),
    }
}

/// How many leaf fields the nodes of `s` at or after `k` hold together.
pub open spec fn spec_leaf_count_from(s: Seq<FormNode>, k: int) -> nat
    decreases s, s.len() - k,
{
    if k < 0 || k >= s.len() {
        0
    } else {
        spec_leaf_count(s[k]) + spec_leaf_count_from(s, k + 1)
    }
}

/// Whether `b` is `a` with every leaf's baseline rebased to its current
/// text, structure, names and configurations unchanged.
pub open spec fn spec_node_reset(a: FormNode, b: FormNode) -> bool
    decreases a,
{
    match a {
        FormNode::Field { name, config, signal } => match b {
            FormNode::Field { name: bname, config: bconfig, signal: bsignal } => bname@ == name@
                && bconfig == config && bsignal@ == spec_reset(signal@),
            FormNode::Group { .. } => false,
        },
        FormNode::Group { name, children } => match b {
            FormNode::Field { .. } => false,
            FormNode::Group { name: bname, children: bchildren } => bname@ == name@
                && bchildren@.len() == children@.len() && forall|i: int|
                0 <= i < children@.len() ==> spec_node_reset(
                    #[trigger] children@[i],
                    #[trigger] bchildren@[i],
                ),
        },
    }
}

/// Every leaf succeeds exactly when no failure is found: the two readings
/// of aggregate validity agree, at every nesting depth.
pub proof fn lemma_node_ok_iff_no_err(n: FormNode)
    ensures
        spec_node_ok(n) <==> spec_first_err(n) is None,
    decreases n, 0int,
{
    match n {
        FormNode::Field { .. } => {},
        FormNode::Group { children, .. } => {
            lemma_seq_ok_iff_no_err(children@, 0);
        },
    }
}

proof fn lemma_seq_ok_iff_no_err(s: Seq<FormNode>, k: int)
    requires
        0 <= k <= s.len(),
    ensures
        (forall|i: int| k <= i < s.len() ==> spec_node_ok(#[trigger] s[i])) <==> spec_first_err_from(
            s,
            k,
        ) is None,
    decreases s, s.len() - k,
{
    if k < s.len() {
        lemma_node_ok_iff_no_err(s[k]);
        lemma_seq_ok_iff_no_err(s, k + 1);
    }
}

/// A failure at `i`, with every node before it clean, is the first failure.
proof fn lemma_first_err_found(s: Seq<FormNode>, k: int, i: int, e: FormError)
    requires
        0 <= k <= i < s.len(),
        forall|j: int| k <= j < i ==> spec_first_err(#[trigger] s[j]) is None,
        spec_first_err(s[i]) == Some(e),
    ensures
        spec_first_err_from(s, k) == Some(e),
    decreases i - k,
{
    if k < i {
        lemma_first_err_found(s, k + 1, i, e);
    }
}

impl FormNode {
    /// Reconstructs the node's value from all leaf signals underneath.
    ///
    /// Succeeds if and only if every leaf's commit conversion succeeds; no
    /// failing leaf is silently replaced by a default.  On failure the
    /// result is the first failing leaf's error, depth first and in
    /// declaration order (fail-fast).
    pub fn try_from_signal(&self) -> (r: Result<FormValue, FormError>)
        ensures
            r is Ok <==> spec_node_ok(*self),
            r matches Ok(v) ==> spec_node_value(*self, v),
            r matches Err(e) ==> spec_first_err(*self) == Some(e),
        decreases *self,
    {
        match self {
            FormNode::Field { config, signal, .. } => match signal.try_from_signal(config) {
                Ok(v) => Ok(FormValue::Leaf(v)),
                Err(e) => Err(e),
            },
            FormNode::Group { children, .. } => {
                let m = children.len();
                let mut out: Vec<FormValue> = Vec::new();
                let mut i: usize = 0;
                while i < m
                    invariant
                        *self == (FormNode::Group {
                            name: self->Group_name,
                            children: *children,
                        }),
                        m == children@.len(),
                        0 <= i <= m,
                        out@.len() == i,
                        forall|j: int| 0 <= j < i ==> spec_node_ok(#[trigger] children@[j]),
                        forall|j: int| 0 <= j < i ==> spec_first_err(#[trigger] children@[j]) is None,
                        forall|j: int|
                            0 <= j < i ==> spec_node_value(
                                #[trigger] children@[j],
                                #[trigger] out@[j],
                            ),
                    decreases m - i,
                {
                    proof {
                        assert(decreases_to!(*self => self->Group_children));
                        assert(decreases_to!(*children => children@[i as int]));
                    }
                    match FormNode::try_from_signal(&children[i]) {
                        Ok(v) => {
                            proof {
                                lemma_node_ok_iff_no_err(children@[i as int]);
                            }
                            out.push(v);
                        },
                        Err(e) => {
                            proof {
                                lemma_first_err_found(children@, 0, i as int, e);
                            }
                            return Err(e);
                        },
                    }
                    i += 1;
                }
                proof {
                    lemma_seq_ok_iff_no_err(children@, 0);
                }
                Ok(FormValue::Group(out))
            },
        }
    }

    /// Whether every leaf underneath reports the default/empty
    /// representation; an optional nested subform is "not provided" exactly
    /// then.
    pub fn is_default_value(&self) -> (r: bool)
        ensures
            r == spec_node_default(*self),
        decreases *self,
    {
        match self {
            FormNode::Field { signal, .. } => signal.is_default_value(),
            FormNode::Group { children, .. } => {
                let m = children.len();
                let mut i: usize = 0;
                while i < m
                    invariant
                        *self == (FormNode::Group {
                            name: self->Group_name,
                            children: *children,
                        }),
                        m == children@.len(),
                        0 <= i <= m,
                        forall|j: int| 0 <= j < i ==> spec_node_default(#[trigger] children@[j]),
                    decreases m - i,
                {
                    proof {
                        assert(decreases_to!(*self => self->Group_children));
                        assert(decreases_to!(*children => children@[i as int]));
                    }
                    if !FormNode::is_default_value(&children[i]) {
                        proof {
                            assert(!spec_node_default(children@[i as int]));
                        }
                        return false;
                    }
                    i += 1;
                }
                true
            },
        }
    }

    /// The uniform traversal hook: visits every leaf cell underneath.
    /// Returns the number of leaf fields visited.
    pub fn recurse(&self) -> (r: usize)
        requires
            spec_leaf_count(*self) <= usize::MAX,
        ensures
            r == spec_leaf_count(*self),
        decreases *self,
    {
        match self {
            FormNode::Field { signal, .. } => signal.recurse(),
            FormNode::Group { children, .. } => {
                let m = children.len();
                let mut acc: usize = 0;
                let mut i: usize = 0;
                while i < m
                    invariant
                        *self == (FormNode::Group {
                            name: self->Group_name,
                            children: *children,
                        }),
                        spec_leaf_count(*self) <= usize::MAX,
                        m == children@.len(),
                        0 <= i <= m,
                        acc + spec_leaf_count_from(children@, i as int) == spec_leaf_count(*self),
                    decreases m - i,
                {
                    proof {
                        assert(decreases_to!(*self => self->Group_children));
                        assert(decreases_to!(*children => children@[i as int]));
                    }
                    let c = FormNode::recurse(&children[i]);
                    acc = acc + c;
                    i += 1;
                }
                acc
            },
        }
    }

    /// Rebases every leaf's baseline underneath to its current text,
    /// leaving structure, names, configurations, values and errors as they
    /// were.
    pub fn reset_initial_value(self) -> (r: FormNode)
        ensures
            spec_node_reset(self, r),
        decreases self,
    {
        let ghost orig = self;
        match self {
            FormNode::Field { name, config, mut signal } => {
                signal.reset_initial_value();
                FormNode::Field { name, config, signal }
            },
            FormNode::Group { name, mut children } => {
                let ghost origchildren = children@;
                let m = children.len();
                let mut out: Vec<FormNode> = Vec::new();
                let mut i: usize = 0;
                while i < m
                    invariant
                        orig == (FormNode::Group {
                            name: orig->Group_name,
                            children: orig->Group_children,
                        }),
                        orig == self,
                        orig->Group_children@ == origchildren,
                        m == origchildren.len(),
                        0 <= i <= m,
                        children@ == origchildren.subrange(i as int, m as int),
                        out@.len() == i,
                        forall|j: int|
                            0 <= j < i ==> spec_node_reset(
                                #[trigger] origchildren[j],
                                #[trigger] out@[j],
                            ),
                    decreases m - i,
                {
                    let child = children.remove(0);
                    proof {
                        assert(child == origchildren[i as int]);
                        assert(decreases_to!(orig => orig->Group_children));
                        assert(decreases_to!(orig->Group_children => orig->Group_children@));
                        assert(decreases_to!(orig->Group_children@ => origchildren[i as int]));
                        assert(decreases_to!(self => child));
                        assert(children@ =~= origchildren.subrange(i + 1 as int, m as int));
                    }
                    out.push(FormNode::reset_initial_value(child));
                    i += 1;
                }
                FormNode::Group { name, children: out }
            },
        }
    }
}

} // verus!
