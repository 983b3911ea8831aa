//! Per-field reactive state and the leaf field binding.
//!
//! A [`FieldSignal`] is the state triple of one leaf field: the raw edited
//! text, the initial baseline, and the last validation error.  A ghost
//! counter stands in for the change notifications that a subscription layer
//! would observe: every write to one of the three cells bumps it, and
//! untracked reads leave it alone.
//!
//! The binding operations convert between a typed domain value
//! ([`FieldValue`]) and the signal: rendering a value into raw text,
//! committing raw text back into a value or an error, detecting the empty
//! representation, and rebasing the dirtiness baseline.

use vstd::prelude::*;

use crate::error::FormError;
use crate::numeric::dec_digits;
use crate::numeric::lemma_dec_digits_roundtrip;
use crate::numeric::lemma_signed_digits_roundtrip;
use crate::numeric::parse_signed;
use crate::numeric::parse_unsigned;
use crate::numeric::signed_digits;
use crate::numeric::spec_parse_signed;
use crate::numeric::spec_parse_unsigned;
use crate::numeric::to_dec_string;
use crate::numeric::to_signed_dec_string;

verus! {

/// The kind of leaf value a field holds, with its validation bounds.
///
/// The engine supports its leaf types as an explicit tagged union rather
/// than one trait impl per domain type; an aggregate then composes a
/// homogeneous list of children.
#[derive(Clone, Copy, Debug, PartialEq, Eq, Structural)]
#[allow(inconsistent_fields)]
pub enum FieldKind {
    /// An unsigned integer committed only when it lies in `min ..= max`.
    Unsigned { min: u64, max: u64 },
    /// A signed integer committed only when it lies in `min ..= max`.
    Signed { min: i64, max: i64 },
    /// Free text; committing never fails.
    Text,
}

/// The per-field configuration the binding operations receive.
#[derive(Clone, Copy, Debug, PartialEq, Eq, Structural)]
pub struct FieldConfig {
    pub kind: FieldKind,
    /// An optional field whose text is the empty representation commits
    /// without validation and always clears its error.
    pub optional: bool,
}

/// A typed domain value for one leaf field.
#[derive(Debug, PartialEq, Eq)]
pub enum FieldValue {
    Unsigned(u64),
    Signed(i64),
    Text(String),
}

/// The mathematical model of a [`FieldValue`].
pub enum ValueModel {
    Unsigned(u64),
    Signed(i64),
    Text(Seq<char>),
}

impl View for FieldValue {
    type V = ValueModel;

    open spec fn view(&self) -> ValueModel {
        match self {
            FieldValue::Unsigned(n) => ValueModel::Unsigned(*n),
            FieldValue::Signed(n) => ValueModel::Signed(*n),
            FieldValue::Text(s) => ValueModel::Text(s@),
        }
    }
}

/// Whether a domain value is of the field's kind and inside its bounds.
pub open spec fn valid_value(v: ValueModel, kind: FieldKind) -> bool {
    match v {
        ValueModel::Unsigned(n) => match kind {
            FieldKind::Unsigned { min, max } => min <= n <= max,
            _ => false,
        },
        ValueModel::Signed(n) => match kind {
            FieldKind::Signed { min, max } => min <= n <= max,
            _ => false,
        },
        ValueModel::Text(_) => kind is Text,
    }
}

/// The raw text a domain value is rendered as when it enters a signal.
pub open spec fn spec_render(v: ValueModel) -> Seq<char> {
    match v {
        ValueModel::Unsigned(n) => dec_digits(n as nat),
        ValueModel::Signed(n) => signed_digits(n as int),
        ValueModel::Text(t) => t,
    }
}

/// What committing raw text under a configuration returns.
pub open spec fn spec_try_from(raw: Seq<char>, cfg: FieldConfig) -> Result<ValueModel, FormError> {
    match cfg.kind {
        FieldKind::Unsigned { min, max } => match spec_parse_unsigned(raw, min, max) {
            Ok(n) => Ok(ValueModel::Unsigned(n)),
            Err(e) => Err(e),
        },
        FieldKind::Signed { min, max } => match spec_parse_signed(raw, min, max) {
            Ok(n) => Ok(ValueModel::Signed(n)),
            Err(e) => Err(e),
        },
        FieldKind::Text => Ok(ValueModel::Text(raw)),
    }
}

/// The model of a commit result carried by an executable `Result`.
pub open spec fn result_view(r: Result<FieldValue, FormError>) -> Result<ValueModel, FormError> {
    match r {
        Ok(v) => Ok(v@),
        Err(e) => Err(e),
    }
}

/// Per-field reactive state: the raw edited text, the initial baseline, and
/// the last validation error.
///
/// `notifications` is a ghost count of cell writes — the change events a
/// subscription layer would deliver.  Reads never bump it; every write to
/// `value`, `initial` or `error` bumps it by one.
pub struct FieldSignal {
    pub value: String,
    pub initial: Option<String>,
    pub error: Option<FormError>,
    pub notifications: Ghost<nat>,
}

/// The mathematical model of a [`FieldSignal`].
pub struct SignalModel {
    pub value: Seq<char>,
    pub initial: Option<Seq<char>>,
    pub error: Option<FormError>,
    pub notifications: nat,
}

pub open spec fn opt_string_view(o: Option<String>) -> Option<Seq<char>> {
    match o {
        Some(s) => Some(s@),
        None => None,
    }
}

impl View for FieldSignal {
    type V = SignalModel;

    open spec fn view(&self) -> SignalModel {
        SignalModel {
            value: self.value@,
            initial: opt_string_view(self.initial),
            error: self.error,
            notifications: self.notifications@,
        }
    }
}

/// The model of a fresh signal holding `value` with baseline `initial`.
pub open spec fn spec_new_signal(value: Seq<char>, initial: Option<Seq<char>>) -> SignalModel {
    SignalModel { value, initial, error: None, notifications: 0 }
}

/// The model of a raw edit: the typing path writes the text and notifies,
/// and never touches the error.
pub open spec fn spec_edit(m: SignalModel, raw: Seq<char>) -> SignalModel {
    SignalModel { value: raw, notifications: m.notifications + 1, ..m }
}

/// The model of rebasing: the current text becomes the new baseline.
pub open spec fn spec_reset(m: SignalModel) -> SignalModel {
    SignalModel { initial: Some(m.value), notifications: m.notifications + 1, ..m }
}

/// Whether the signal holds the type's default/empty representation: the
/// empty string, uniformly for every kind.
pub open spec fn spec_is_default(m: SignalModel) -> bool {
    m.value.len() == 0
}

/// Whether the signal's text differs from its baseline.
pub open spec fn spec_dirty(m: SignalModel) -> bool {
    m.initial != Some(m.value)
}

/// The model of a commit, the only validation-triggering event:
/// an optional field holding the empty representation clears its error
/// unconditionally; otherwise a failed conversion records its error and a
/// successful one clears the error, writing the cell only when it held one.
pub open spec fn spec_commit(m: SignalModel, cfg: FieldConfig) -> SignalModel {
    if cfg.optional && spec_is_default(m) {
        SignalModel { error: None, notifications: m.notifications + 1, ..m }
    } else {
        match spec_try_from(m.value, cfg) {
            Err(e) => SignalModel { error: Some(e), notifications: m.notifications + 1, ..m },
            Ok(_) => if m.error is Some {
                SignalModel { error: None, notifications: m.notifications + 1, ..m }
            } else {
                m
            },
        }
    }
}

impl FieldSignal {
    /// Constructs a signal from an explicit current value and baseline.
    pub fn new(value: String, initial: Option<String>) -> (r: Self)
        ensures
            r@ == spec_new_signal(value@, opt_string_view(initial)),
    {
        FieldSignal { value, initial, error: None, notifications: Ghost(0) }
    }

    /// Constructs a signal whose current value is the empty representation,
    /// keeping `initial` as the baseline.
    pub fn new_with_default_value(initial: Option<String>) -> (r: Self)
        ensures
            r@ == spec_new_signal(Seq::<char>::empty(), opt_string_view(initial)),
    {
        FieldSignal { value: String::new(), initial, error: None, notifications: Ghost(0) }
    }

    /// The typing path: writes the raw edited text and notifies.  Editing
    /// never sets or clears the error; only a commit does.
    pub fn set_value(&mut self, raw: String)
        ensures
            final(self)@ == spec_edit(old(self)@, raw@),
    {
        self.value = raw;
        self.notifications = Ghost(self.notifications@ + 1);
    }

    /// Whether the current text is the default/empty representation.  Pure
    /// over the current value, independent of the baseline.
    pub fn is_default_value(&self) -> (r: bool)
        ensures
            r == spec_is_default(self@),
    {
        self.value.as_str().is_empty()
    }

    /// Whether the current text differs from the baseline.
    pub fn is_dirty(&self) -> (r: bool)
        ensures
            r == spec_dirty(self@),
    {
        match &self.initial {
            None => true,
            Some(b) => !(self.value == *b),
        }
    }

    /// The commit conversion: parses the current raw text into a domain
    /// value under `cfg`, or reports why it cannot.  Reads untracked; the
    /// signal is not changed and nothing is notified.
    pub fn try_from_signal(&self, cfg: &FieldConfig) -> (r: Result<FieldValue, FormError>)
        ensures
            result_view(r) == spec_try_from(self@.value, *cfg),
    {
        match cfg.kind {
            FieldKind::Unsigned { min, max } => match parse_unsigned(self.value.as_str(), min, max) {
                Ok(n) => Ok(FieldValue::Unsigned(n)),
                Err(e) => Err(e),
            },
            FieldKind::Signed { min, max } => match parse_signed(self.value.as_str(), min, max) {
                Ok(n) => Ok(FieldValue::Signed(n)),
                Err(e) => Err(e),
            },
            FieldKind::Text => Ok(FieldValue::Text(self.value.clone())),
        }
    }

    /// The commit event: applies the three-branch validation policy of
    /// [`spec_commit`] to this signal.
    pub fn commit(&mut self, cfg: &FieldConfig)
        ensures
            final(self)@ == spec_commit(old(self)@, *cfg),
    {
        if !cfg.optional || !self.is_default_value() {
            match self.try_from_signal(cfg) {
                Err(e) => {
                    self.error = Some(e);
                    self.notifications = Ghost(self.notifications@ + 1);
                },
                Ok(_) => {
                    if self.error.is_some() {
                        self.error = None;
                        self.notifications = Ghost(self.notifications@ + 1);
                    }
                },
            }
        } else {
            self.error = None;
            self.notifications = Ghost(self.notifications@ + 1);
        }
    }

    /// Rebases the baseline to the current text, read untracked; used after
    /// a successful save so the field no longer reports itself dirty.
    pub fn reset_initial_value(&mut self)
        ensures
            final(self)@ == spec_reset(old(self)@),
    {
        self.initial = Some(self.value.clone());
        self.notifications = Ghost(self.notifications@ + 1);
    }

    /// Reads the error without establishing a reactive dependency and hands
    /// it to `f`; the signal is not changed and nothing is notified.
    pub fn with_error<O, F: FnOnce(Option<FormError>) -> O>(&self, f: F) -> (r: O)
        requires
            call_requires(f, (self.error,)),
        ensures
            call_ensures(f, (self.error,), r),
    {
        f(self.error)
    }

    /// The uniform traversal hook: a leaf visits its one state cell.
    /// Returns the number of cells visited.
    pub fn recurse(&self) -> (r: usize)
        ensures
            r == 1,
    {
        1
    }
}

/// Wraps an already-known domain value as the current value of a fresh
/// signal, with the given baseline.
impl FieldValue {
    pub fn into_signal(self, cfg: &FieldConfig, initial: Option<FieldValue>) -> (r: FieldSignal)
        ensures
            r@ == spec_new_signal(spec_render(self@), spec_opt_render(opt_value_view(initial))),
    {
        let base = match initial {
            Some(v) => Some(render_value(v)),
            None => None,
        };
        FieldSignal::new(render_value(self), base)
    }
}

pub open spec fn opt_value_view(o: Option<FieldValue>) -> Option<ValueModel> {
    match o {
        Some(v) => Some(v@),
        None => None,
    }
}

pub open spec fn spec_opt_render(o: Option<ValueModel>) -> Option<Seq<char>> {
    match o {
        Some(v) => Some(spec_render(v)),
        None => None,
    }
}

/// Builds a signal with the empty current value, keeping the rendered
/// `initial` as the baseline.
pub fn default_signal(cfg: &FieldConfig, initial: Option<FieldValue>) -> (r: FieldSignal)
    ensures
        r@ == spec_new_signal(Seq::<char>::empty(), spec_opt_render(opt_value_view(initial))),
{
    let base = match initial {
        Some(v) => Some(render_value(v)),
        None => None,
    };
    FieldSignal::new_with_default_value(base)
}

/// Renders a domain value as the raw text a signal holds for it.
pub fn render_value(v: FieldValue) -> (r: String)
    ensures
        r@ == spec_render(v@),
{
    match v {
        FieldValue::Unsigned(n) => to_dec_string(n),
        FieldValue::Signed(n) => to_signed_dec_string(n),
        FieldValue::Text(s) => s,
    }
}

/// An explicit copy of a domain value, field for field.
pub fn clone_value(v: &FieldValue) -> (r: FieldValue)
    ensures
        r@ == v@,
{
    match v {
        FieldValue::Unsigned(n) => FieldValue::Unsigned(*n),
        FieldValue::Signed(n) => FieldValue::Signed(*n),
        FieldValue::Text(s) => FieldValue::Text(s.clone()),
    }
}

/// Round-trip identity: committing the signal a valid domain value was
/// wrapped into returns exactly that value, for every supported leaf kind.
pub proof fn lemma_leaf_round_trip(v: ValueModel, cfg: FieldConfig)
    requires
        valid_value(v, cfg.kind),
    ensures
        spec_try_from(spec_render(v), cfg) == Ok::<ValueModel, FormError>(v),
{
    match v {
        ValueModel::Unsigned(n) => {
            lemma_dec_digits_roundtrip(n as nat);
        },
        ValueModel::Signed(n) => {
            match cfg.kind {
                FieldKind::Signed { min, max } => {
                    lemma_signed_digits_roundtrip(n as int, min, max);
                },
                _ => {},
            }
        },
        ValueModel::Text(_) => {},
    }
}

/// For an optional field holding the empty representation, a commit clears
/// the error regardless of its prior state.
pub proof fn lemma_commit_optional_default_clears_error(m: SignalModel, cfg: FieldConfig)
    requires
        cfg.optional,
        spec_is_default(m),
    ensures
        spec_commit(m, cfg).error is None,
{
}

/// For a required field, a commit records exactly the conversion's failure,
/// and a successful conversion clears any prior error.
pub proof fn lemma_commit_required_tracks_validity(m: SignalModel, cfg: FieldConfig)
    requires
        !cfg.optional,
    ensures
        spec_try_from(m.value, cfg) matches Err(e) ==> spec_commit(m, cfg).error == Some(e),
        spec_try_from(m.value, cfg) is Ok ==> spec_commit(m, cfg).error is None,
{
}

/// Rebasing then editing is judged against the new baseline: after a reset,
/// writing the old initial text back is dirty exactly when the old initial
/// differs from the text at the reset, and rewriting the text at the reset
/// is clean.
pub proof fn lemma_reset_rebases_baseline(m: SignalModel, old_init: Seq<char>)
    requires
        m.initial == Some(old_init),
    ensures
        spec_dirty(spec_edit(spec_reset(m), old_init)) == (old_init != m.value),
        !spec_dirty(spec_edit(spec_reset(m), m.value)),
{
}

/// Pure edits never touch the error or the baseline: the typing path is
/// never a validation event, and only a commit may change the error cell.
pub proof fn lemma_edit_preserves_error_and_baseline(m: SignalModel, raw: Seq<char>)
    ensures
        spec_edit(m, raw).error == m.error,
        spec_edit(m, raw).initial == m.initial,
{
}

/// A commit touches the error cell alone: it never rewrites the edited text
/// or the baseline.
pub proof fn lemma_commit_touches_only_error(m: SignalModel, cfg: FieldConfig)
    ensures
        spec_commit(m, cfg).value == m.value,
        spec_commit(m, cfg).initial == m.initial,
{
}

/// Rebasing touches the baseline alone: it never rewrites the edited text
/// or the error.
pub proof fn lemma_reset_touches_only_baseline(m: SignalModel)
    ensures
        spec_reset(m).value == m.value,
        spec_reset(m).error == m.error,
{
}

/// The model of one untracked error read: the signal is unchanged and the
/// stored error is returned.
pub open spec fn spec_untracked_error_read(m: SignalModel) -> (SignalModel, Option<FormError>) {
    (m, m.error)
}

/// Untracked error reads are idempotent: two reads in a row return the same
/// result, and neither adds a notification.
pub proof fn lemma_untracked_error_read_idempotent(m: SignalModel)
    ensures
        spec_untracked_error_read(spec_untracked_error_read(m).0).1 == spec_untracked_error_read(m).1,
        spec_untracked_error_read(spec_untracked_error_read(m).0).0.notifications == m.notifications,
{
}

} // verus!
