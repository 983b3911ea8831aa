//! Recursive composition of per-field bindings into one binding over a
//! structured value.
//!
//! An [`AggregateSignal`] owns one child [`FieldSignal`] per declared field,
//! in declaration order, each keyed by its field name.  Reconstructing the
//! whole value succeeds exactly when every child's commit conversion
//! succeeds; on failure the aggregate reports the first failing child's
//! error (fail-fast, in declaration order).  Nested subforms compose through
//! [`crate::compose::FormNode`], which treats a whole subform as one child.

use vstd::prelude::*;

use crate::error::FormError;
use crate::signal::clone_value;
use crate::signal::default_signal;
use crate::signal::spec_commit;
use crate::signal::spec_is_default;
use crate::signal::spec_new_signal;
use crate::signal::spec_render;
use crate::signal::spec_reset;
use crate::signal::spec_try_from;
use crate::signal::FieldConfig;
use crate::signal::FieldSignal;
use crate::signal::FieldValue;
use crate::signal::SignalModel;
use crate::signal::ValueModel;

verus! {

/// What the code generated for a struct supplies per declared field: the
/// field's name and its configuration.
pub struct FieldDecl {
    pub name: String,
    pub config: FieldConfig,
}

/// One child of an aggregate: a named, configured field signal.
pub struct AggregateField {
    pub name: String,
    pub config: FieldConfig,
    pub signal: FieldSignal,
}

/// The mathematical model of one child.
pub struct FieldModel {
    pub name: Seq<char>,
    pub config: FieldConfig,
    pub signal: SignalModel,
}

impl View for AggregateField {
    type V = FieldModel;

    open spec fn view(&self) -> FieldModel {
        FieldModel { name: self.name@, config: self.config, signal: self.signal@ }
    }
}

/// The composite binding over a struct value: one child signal per declared
/// field, in declaration order.
pub struct AggregateSignal {
    pub fields: Vec<AggregateField>,
}

impl View for AggregateSignal {
    type V = Seq<FieldModel>;

    open spec fn view(&self) -> Seq<FieldModel> {
        Seq::new(self.fields@.len(), |i: int| self.fields@[i]@)
    }
}

/// What committing one child returns.
pub open spec fn spec_field_try(f: FieldModel) -> Result<ValueModel, FormError> {
    spec_try_from(f.signal.value, f.config)
}

impl AggregateSignal {
    /// Builds the aggregate from the declared fields, wrapping the matching
    /// member of the optional initial struct value into each child signal,
    /// or starting each child empty when no initial value is supplied.
    pub fn new(decls: Vec<FieldDecl>, initial: Option<Vec<FieldValue>>) -> (r: Self)
        requires
            initial matches Some(vs) ==> vs@.len() == decls@.len(),
        ensures
            r@.len() == decls@.len(),
            forall|i: int| 0 <= i < decls@.len() ==> #[trigger] r@[i].name == decls@[i].name@,
            forall|i: int| 0 <= i < decls@.len() ==> #[trigger] r@[i].config == decls@[i].config,
            initial matches Some(vs) ==> forall|i: int|
                0 <= i < decls@.len() ==> #[trigger] r@[i].signal == spec_new_signal(
                    spec_render(vs@[i]@),
                    Some(spec_render(vs@[i]@)),
                ),
            initial is None ==> forall|i: int|
                0 <= i < decls@.len() ==> #[trigger] r@[i].signal == spec_new_signal(
                    Seq::<char>::empty(),
                    None,
                ),
    {
        let n = decls.len();
        let mut fields: Vec<AggregateField> = Vec::new();
        let mut i: usize = 0;
        while i < n
            invariant
                n == decls@.len(),
                initial matches Some(vs) ==> vs@.len() == n,
                0 <= i <= n,
                fields@.len() == i,
                forall|j: int| 0 <= j < i ==> #[trigger] fields@[j]@.name == decls@[j].name@,
                forall|j: int| 0 <= j < i ==> #[trigger] fields@[j]@.config == decls@[j].config,
                initial matches Some(vs) ==> forall|j: int|
                    0 <= j < i ==> #[trigger] fields@[j]@.signal == spec_new_signal(
                        spec_render(vs@[j]@),
                        Some(spec_render(vs@[j]@)),
                    ),
                initial is None ==> forall|j: int|
                    0 <= j < i ==> #[trigger] fields@[j]@.signal == spec_new_signal(
                        Seq::<char>::empty(),
                        None,
                    ),
            decreases n - i,
        {
            let config = decls[i].config;
            let name = decls[i].name.clone();
            let signal = match &initial {
                Some(vs) => {
                    let v = clone_value(&vs[i]);
                    let base = clone_value(&vs[i]);
                    v.into_signal(&config, Some(base))
                },
                None => default_signal(&config, None),
            };
            fields.push(AggregateField { name, config, signal });
            i += 1;
        }
        AggregateSignal { fields }
    }

    /// How many fields the aggregate declares.
    pub fn len(&self) -> (r: usize)
        ensures
            r == self@.len(),
    {
        self.fields.len()
    }

    /// Reconstructs the whole struct value from all child signals.
    ///
    /// Succeeds if and only if every child's commit conversion succeeds; no
    /// failing child is silently replaced by a default.  On failure the
    /// result is the first failing child's error, in declaration order
    /// (fail-fast).
    pub fn try_from_signal(&self) -> (r: Result<Vec<FieldValue>, FormError>)
        ensures
            r is Ok <==> (forall|i: int|
                0 <= i < self@.len() ==> (#[trigger] spec_field_try(self@[i])) is Ok),
            r matches Ok(vs) ==> vs@.len() == self@.len() && forall|i: int|
                0 <= i < self@.len() ==> Ok::<ValueModel, FormError>(#[trigger] vs@[i]@)
                    == spec_field_try(self@[i]),
            r matches Err(e) ==> exists|j: int|
                0 <= j < self@.len() && #[trigger] spec_field_try(self@[j]) == Err::<
                    ValueModel,
                    FormError,
                >(e) && (forall|i: int| 0 <= i < j ==> (#[trigger] spec_field_try(self@[i])) is Ok),
    {
        let n = self.fields.len();
        let mut out: Vec<FieldValue> = Vec::new();
        let mut i: usize = 0;
        while i < n
            invariant
                n == self@.len(),
                0 <= i <= n,
                out@.len() == i,
                forall|j: int| 0 <= j < i ==> (#[trigger] spec_field_try(self@[j])) is Ok,
                forall|j: int|
                    0 <= j < i ==> Ok::<ValueModel, FormError>(#[trigger] out@[j]@)
                        == spec_field_try(self@[j]),
            decreases n - i,
        {
            let f = &self.fields[i];
            match f.signal.try_from_signal(&f.config) {
                Ok(v) => {
                    proof {
                        assert(Ok::<ValueModel, FormError>(v@) == spec_field_try(self@[i as int]));
                    }
                    out.push(v);
                },
                Err(e) => {
                    proof {
                        assert(spec_field_try(self@[i as int]) == Err::<ValueModel, FormError>(e));
                    }
                    return Err(e);
                },
            }
            i += 1;
        }
        Ok(out)
    }

    /// Whether every child reports the default/empty representation; an
    /// optional nested subform is "not provided" exactly then.
    pub fn is_default_value(&self) -> (r: bool)
        ensures
            r == (forall|i: int| 0 <= i < self@.len() ==> spec_is_default(#[trigger] self@[i].signal)),
    {
        let n = self.fields.len();
        let mut i: usize = 0;
        while i < n
            invariant
                n == self@.len(),
                0 <= i <= n,
                forall|j: int| 0 <= j < i ==> spec_is_default(#[trigger] self@[j].signal),
            decreases n - i,
        {
            if !self.fields[i].signal.is_default_value() {
                proof {
                    assert(!spec_is_default(self@[i as int].signal));
                }
                return false;
            }
            i += 1;
        }
        true
    }

    /// Rebases every child's baseline to its current text.
    pub fn reset_initial_value(&mut self)
        ensures
            final(self)@.len() == old(self)@.len(),
            forall|i: int| 0 <= i < old(self)@.len() ==> #[trigger] final(self)@[i].name
                == old(self)@[i].name,
            forall|i: int| 0 <= i < old(self)@.len() ==> #[trigger] final(self)@[i].config
                == old(self)@[i].config,
            forall|i: int| 0 <= i < old(self)@.len() ==> #[trigger] final(self)@[i].signal
                == spec_reset(old(self)@[i].signal),
    {
        let n = self.fields.len();
        let mut i: usize = 0;
        while i < n
            invariant
                n == self.fields@.len(),
                self@.len() == old(self)@.len(),
                n == old(self)@.len(),
                0 <= i <= n,
                forall|j: int| 0 <= j < i ==> #[trigger] self@[j].name == old(self)@[j].name,
                forall|j: int| 0 <= j < i ==> #[trigger] self@[j].config == old(self)@[j].config,
                forall|j: int| 0 <= j < i ==> #[trigger] self@[j].signal
                    == spec_reset(old(self)@[j].signal),
                forall|j: int| i <= j < n ==> #[trigger] self@[j] == old(self)@[j],
            decreases n - i,
        {
            let ghost prevfields = self.fields@;
            let ghost prevview = self@;
            let mut f = self.fields.remove(i);
            f.signal.reset_initial_value();
            let ghost fv = f;
            self.fields.insert(i, f);
            proof {
                assert(self.fields@ =~= prevfields.update(i as int, fv));
                assert(fv.name == prevfields[i as int].name);
                assert(fv.config == prevfields[i as int].config);
                assert forall|j: int| 0 <= j < n implies #[trigger] self@[j] == (if j == i as int {
                    fv@
                } else {
                    prevview[j]
                }) by {
                    assert(self@[j] == self.fields@[j]@);
                    if j != i as int {
                        assert(self.fields@[j] == prevfields[j]);
                        assert(prevview[j] == prevfields[j]@);
                    }
                };
                assert(prevview[i as int] == prevfields[i as int]@);
            }
            i += 1;
        }
    }

    /// The uniform traversal hook: visits every child's cells.  Returns the
    /// number of children visited.
    pub fn recurse(&self) -> (r: usize)
        ensures
            r == self@.len(),
    {
        let n = self.fields.len();
        let mut i: usize = 0;
        while i < n
            invariant
                n == self.fields@.len(),
                0 <= i <= n,
            decreases n - i,
        {
            let _cells = self.fields[i].signal.recurse();
            i += 1;
        }
        n
    }

    /// The typing path for one child: writes the raw edited text into field
    /// `i`, leaving its error and every other field untouched.
    pub fn set_field_value(&mut self, i: usize, raw: String)
        requires
            i < old(self)@.len(),
        ensures
            final(self)@.len() == old(self)@.len(),
            final(self)@[i as int].name == old(self)@[i as int].name,
            final(self)@[i as int].config == old(self)@[i as int].config,
            final(self)@[i as int].signal == crate::signal::spec_edit(
                old(self)@[i as int].signal,
                raw@,
            ),
            forall|j: int| 0 <= j < old(self)@.len() && j != i ==> #[trigger] final(self)@[j]
                == old(self)@[j],
    {
        let ghost prev = self.fields@;
        let mut f = self.fields.remove(i);
        f.signal.set_value(raw);
        let ghost fv = f;
        self.fields.insert(i, f);
        proof {
            assert(self.fields@ =~= prev.update(i as int, fv));
        }
    }

    /// The commit event for one child: applies the three-branch validation
    /// policy to field `i` under its own configuration.
    pub fn commit_field(&mut self, i: usize)
        requires
            i < old(self)@.len(),
        ensures
            final(self)@.len() == old(self)@.len(),
            final(self)@[i as int].name == old(self)@[i as int].name,
            final(self)@[i as int].config == old(self)@[i as int].config,
            final(self)@[i as int].signal == spec_commit(
                old(self)@[i as int].signal,
                old(self)@[i as int].config,
            ),
            forall|j: int| 0 <= j < old(self)@.len() && j != i ==> #[trigger] final(self)@[j]
                == old(self)@[j],
    {
        let ghost prev = self.fields@;
        let mut f = self.fields.remove(i);
        f.signal.commit(&f.config);
        let ghost fv = f;
        self.fields.insert(i, f);
        proof {
            assert(self.fields@ =~= prev.update(i as int, fv));
        }
    }
}

} // verus!
