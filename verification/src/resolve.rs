//! The dependency-resolution protocol: one step per foreign-key field, in
//! declaration order, each of which may require a nested creation performed
//! by a collaborating factory.
//!
//! The creations themselves are outside work: the caller supplies their
//! outcomes, in the order the protocol requests them, and the engine decides
//! — per field — whether a creation is needed, consumes the next outcome
//! when it is, and assembles the final entity. The first failed creation
//! aborts the remaining steps and becomes the caller's outcome verbatim.
//!
//! A collaborating factory may itself run this same protocol for its own
//! dependencies against the same shared resource handle; no cycle detection
//! is attempted, so a reference cycle among factory declarations recurses
//! without bound. That hazard belongs to the declared graph, by design.

use vstd::prelude::*;

use crate::engine::{
    duplicate_slot, duplicate_value, entity_field_value, is_sentinel_value, spec_entity_lookup,
    spec_is_sentinel, spec_slot, spec_factory_wf, spec_first_missing_required, EntityField,
    EntityInstance, FactoryInstance, Value, ValueView,
};
use crate::schema::{FieldKind, FieldSpec};
use crate::shape::{is_option_type, spec_is_option};
use crate::synth::{spec_resolve_step_matches, ResolveMode, ResolveStep};
use crate::text::clone_chars;

verus! {

/// What one nested creation came to: the created entity, or the failure
/// that the creation call reported.
pub enum CreationOutcome {
    Created(EntityInstance),
    CreationFailed(Vec<char>),
}

/// A present, non-sentinel value: the one case that never needs creation.
pub open spec fn spec_present_nonsentinel(s: Option<ValueView>, sentinel: int) -> bool {
    s matches Some(v) && !spec_is_sentinel(v, sentinel)
}

/// Whether the resolution step of field `i` must perform a nested creation:
/// an optional-shaped foreign key with auto-create enabled whose value is
/// absent or the sentinel, or a plain-shaped foreign key holding the
/// sentinel. A suppressed field never creates; a non-FK field has no step.
pub open spec fn spec_step_needs_creation(f: FactoryInstance, i: int) -> bool {
    match f.schema.fields@[i].kind {
        FieldKind::ForeignKey(d) => if spec_is_option(f.schema.fields@[i].ty) {
            !d.suppress_auto_create && !spec_present_nonsentinel(
                spec_slot(f, i),
                f.sentinel as int,
            )
        } else {
            spec_slot(f, i) matches Some(v) && spec_is_sentinel(v, f.sentinel as int)
        },
        _ => false,
    }
}

/// The resolved binding of a foreign-key step that performs no creation: a
/// suppressed field resolves to its present non-sentinel value or to
/// absent; any other field keeps its current value.
pub open spec fn spec_resolved_sans_creation(f: FactoryInstance, i: int) -> Option<ValueView> {
    match f.schema.fields@[i].kind {
        FieldKind::ForeignKey(d) => if spec_is_option(f.schema.fields@[i].ty)
            && d.suppress_auto_create && !spec_present_nonsentinel(
            spec_slot(f, i),
            f.sentinel as int,
        ) {
            None
        } else {
            spec_slot(f, i)
        },
        _ => spec_slot(f, i),
    }
}

/// How many of the first `n` fields need a nested creation.
pub open spec fn spec_request_count(f: FactoryInstance, n: int) -> int
    decreases n,
{
    if n <= 0 {
        0
    } else {
        spec_request_count(f, n - 1) + (if spec_step_needs_creation(f, n - 1) {
            1int
        } else {
            0int
        })
    }
}

/// The fields needing a nested creation among the first `n`, in declaration
/// order.
pub open spec fn spec_request_indices(f: FactoryInstance, n: int) -> Seq<int>
    decreases n,
{
    if n <= 0 {
        Seq::empty()
    } else if spec_step_needs_creation(f, n - 1) {
        spec_request_indices(f, n - 1).push(n - 1)
    } else {
        spec_request_indices(f, n - 1)
    }
}

/// Each requested field stands at the position given by the count of
/// requests before it, and every field needing creation is requested.
pub proof fn lemma_request_indices(f: FactoryInstance, n: int)
    requires
        n >= 0,
    ensures
        spec_request_indices(f, n).len() == spec_request_count(f, n),
        forall|k: int|
            0 <= k < spec_request_indices(f, n).len() ==> {
                let i = #[trigger] spec_request_indices(f, n)[k];
                0 <= i < n && spec_step_needs_creation(f, i) && spec_request_count(f, i) == k
            },
        forall|i: int|
            0 <= i < n && #[trigger] spec_step_needs_creation(f, i) ==> 0 <= spec_request_count(
                f,
                i,
            ) < spec_request_indices(f, n).len() && spec_request_indices(f, n)[spec_request_count(
                f,
                i,
            )] == i,
    decreases n,
{
    if n > 0 {
        lemma_request_indices(f, n - 1);
        let prev = spec_request_indices(f, n - 1);
        let cur = spec_request_indices(f, n);
        if spec_step_needs_creation(f, n - 1) {
            assert forall|k: int| 0 <= k < cur.len() implies {
                let i = #[trigger] cur[k];
                0 <= i < n && spec_step_needs_creation(f, i) && spec_request_count(f, i) == k
            } by {
                if k < prev.len() {
                    assert(cur[k] == prev[k]);
                } else {
                    assert(cur[k] == n - 1);
                }
            }
            assert forall|i: int|
                0 <= i < n && #[trigger] spec_step_needs_creation(f, i) implies 0
                <= spec_request_count(f, i) < cur.len() && cur[spec_request_count(f, i)] == i by {
                if i < n - 1 {
                    assert(prev[spec_request_count(f, i)] == i);
                    assert(cur[spec_request_count(f, i)] == i);
                } else {
                    assert(cur[spec_request_count(f, n - 1)] == n - 1);
                }
            }
        } else {
            assert forall|i: int|
                0 <= i < n && #[trigger] spec_step_needs_creation(f, i) implies 0
                <= spec_request_count(f, i) < cur.len() && cur[spec_request_count(f, i)] == i by {
                assert(i < n - 1);
            }
        }
    }
}

/// The request count never decreases as more fields are scanned, and the
/// earlier requests keep their positions.
pub proof fn lemma_request_prefix(f: FactoryInstance, i: int, n: int)
    requires
        0 <= i <= n,
    ensures
        spec_request_count(f, i) <= spec_request_count(f, n),
        forall|k: int|
            0 <= k < spec_request_count(f, i) ==> #[trigger] spec_request_indices(f, n)[k]
                == spec_request_indices(f, i)[k],
    decreases n - i,
{
    lemma_request_indices(f, i);
    if i < n {
        lemma_request_prefix(f, i, n - 1);
        lemma_request_indices(f, n - 1);
    }
}

/// The target field named by a foreign-key descriptor.
pub open spec fn spec_target_field_of(fs: FieldSpec) -> Seq<char> {
    match fs.kind {
        FieldKind::ForeignKey(d) => d.target_field@,
        _ => Seq::empty(),
    }
}

/// The collaborating factory named by a foreign-key descriptor.
pub open spec fn spec_target_factory_of(fs: FieldSpec) -> Seq<char> {
    match fs.kind {
        FieldKind::ForeignKey(d) => d.target_factory@,
        _ => Seq::empty(),
    }
}

/// The named output field of a creation outcome's entity.
pub open spec fn spec_created_value(o: CreationOutcome, target_field: Seq<char>) -> Option<
    ValueView,
> {
    match o {
        CreationOutcome::Created(e) => match spec_entity_lookup(e, target_field) {
            Some(w) => w,
            None => None,
        },
        CreationOutcome::CreationFailed(_) => None,
    }
}

/// The first failed outcome among the first `m`, at or after `k`.
pub open spec fn spec_first_failed_from(outcomes: Seq<CreationOutcome>, m: int, k: int) -> Option<
    int,
>
    decreases m - k,
{
    if k < 0 || k >= m {
        None
    } else if outcomes[k] is CreationFailed {
        Some(k)
    } else {
        spec_first_failed_from(outcomes, m, k + 1)
    }
}

/// What one entity field holds after resolution: the sentinel default for a
/// primary key; for a foreign key, the named field of the consumed creation
/// or the kept binding; the current slot for everything else.
pub open spec fn spec_resolve_slot(
    f: FactoryInstance,
    outcomes: Seq<CreationOutcome>,
    i: int,
) -> Option<ValueView> {
    let fs = f.schema.fields@[i];
    if fs.kind is PrimaryKey {
        Some(ValueView::VId(f.sentinel as int))
    } else if fs.kind is ForeignKey {
        if spec_step_needs_creation(f, i) {
            spec_created_value(outcomes[spec_request_count(f, i)], spec_target_field_of(fs))
        } else {
            spec_resolved_sans_creation(f, i)
        }
    } else {
        spec_slot(f, i)
    }
}

/// What a successful resolution promises of the produced entity.
pub open spec fn spec_resolved_entity_matches(
    f: FactoryInstance,
    outcomes: Seq<CreationOutcome>,
    e: EntityInstance,
) -> bool {
    &&& e.entity_name@ == f.schema.entity_name@
    &&& e.fields@.len() == f.schema.fields@.len()
    &&& forall|i: int|
        0 <= i < f.schema.fields@.len() ==> (#[trigger] e.fields@[i]).name@
            == f.schema.fields@[i].name@ && e.fields@[i].value.deep_view() == spec_resolve_slot(
            f,
            outcomes,
            i,
        )
}

/// The record of one resolution run: which collaborating factories were
/// asked to create, in request order, and the entity or the first failure.
pub struct ResolveReport {
    pub requested: Vec<Vec<char>>,
    pub outcome: Result<EntityInstance, Vec<char>>,
}

impl FactoryInstance {
    /// Decides whether the resolution step of field `i` must perform a
    /// nested creation.
    fn step_needs_creation(&self, i: usize) -> (r: bool)
        requires
            spec_factory_wf(*self),
            i < self.schema.fields@.len(),
        ensures
            r == spec_step_needs_creation(*self, i as int),
    {
        let fs = &self.schema.fields[i];
        match &fs.kind {
            FieldKind::ForeignKey(d) => {
                if is_option_type(&fs.ty) {
                    if d.suppress_auto_create {
                        false
                    } else {
                        match &self.slots[i] {
                            Some(v) => is_sentinel_value(v, self.sentinel),
                            None => true,
                        }
                    }
                } else {
                    match &self.slots[i] {
                        Some(v) => is_sentinel_value(v, self.sentinel),
                        None => {
                            proof {
                                assert(false);
                            }
                            false
                        },
                    }
                }
            },
            _ => false,
        }
    }

    /// Counts the nested creations a resolution run will ask for, so that a
    /// caller can provision one outcome per request.
    #[verifier::loop_isolation(false)]
    pub fn creations_needed(&self) -> (r: usize)
        requires
            spec_factory_wf(*self),
        ensures
            r as int == spec_request_count(*self, self.schema.fields@.len() as int),
    {
        let mut count: usize = 0;
        let mut i: usize = 0;
        while i < self.schema.fields.len()
            invariant
                0 <= i <= self.schema.fields@.len(),
                count as int == spec_request_count(*self, i as int),
            decreases self.schema.fields@.len() - i,
        {
            if self.step_needs_creation(i) {
                proof {
                    lemma_request_count_bounds(*self, i as int);
                }
                count += 1;
            }
            i += 1;
        }
        count
    }

    /// Builds the entity with automatic dependency resolution: each
    /// foreign-key field is resolved in declaration order, consuming the
    /// next supplied creation outcome exactly when the step needs one; the
    /// first failed creation aborts the remaining steps and is returned
    /// verbatim. The caller supplies one outcome per possible request, each
    /// created entity exposing the step's target field.
    #[verifier::loop_isolation(false)]
    pub fn build_with_fks(&self, outcomes: &Vec<CreationOutcome>) -> (r: ResolveReport)
        requires
            spec_factory_wf(*self),
            spec_first_missing_required(*self) is None,
            outcomes@.len() >= spec_request_count(*self, self.schema.fields@.len() as int),
            forall|k: int|
                0 <= k < spec_request_count(*self, self.schema.fields@.len() as int) ==> ((
                #[trigger] outcomes@[k]) matches CreationOutcome::Created(e) ==> ({
                    &&& spec_entity_lookup(
                        e,
                        spec_target_field_of(
                            self.schema.fields@[spec_request_indices(
                                *self,
                                self.schema.fields@.len() as int,
                            )[k]],
                        ),
                    ) matches Some(w)
                    &&& w is Some
                })),
        ensures
            ({
                let n = self.schema.fields@.len() as int;
                let m = spec_request_count(*self, n);
                let reqs = spec_request_indices(*self, n);
                match spec_first_failed_from(outcomes@, m, 0) {
                    None => ({
                        &&& r.outcome matches Ok(e)
                        &&& spec_resolved_entity_matches(*self, outcomes@, e)
                        &&& r.requested@.len() == m
                        &&& forall|k: int|
                            0 <= k < m ==> (#[trigger] r.requested@[k])@ == spec_target_factory_of(
                                self.schema.fields@[reqs[k]],
                            )
                    }),
                    Some(k0) => ({
                        &&& r.outcome matches Err(msg)
                        &&& outcomes@[k0] matches CreationOutcome::CreationFailed(em)
                        &&& msg@ == em@
                        &&& r.requested@.len() == k0 + 1
                        &&& forall|k: int|
                            0 <= k <= k0 ==> (#[trigger] r.requested@[k])@
                                == spec_target_factory_of(self.schema.fields@[reqs[k]])
                    }),
                }
            }),
    {
        let ghost n = self.schema.fields@.len() as int;
        let ghost m = spec_request_count(*self, n);
        let ghost reqs = spec_request_indices(*self, n);
        proof {
            lemma_request_indices(*self, n);
        }
        let mut out: Vec<EntityField> = Vec::new();
        let mut requested: Vec<Vec<char>> = Vec::new();
        let mut k: usize = 0;
        let mut i: usize = 0;
        while i < self.schema.fields.len()
            invariant
                0 <= i <= n,
                out@.len() == i,
                k as int == spec_request_count(*self, i as int),
                requested@.len() == k,
                spec_first_failed_from(outcomes@, m, 0) == spec_first_failed_from(
                    outcomes@,
                    m,
                    k as int,
                ),
                forall|j: int|
                    0 <= j < k ==> (#[trigger] requested@[j])@ == spec_target_factory_of(
                        self.schema.fields@[reqs[j]],
                    ),
                forall|j: int|
                    0 <= j < i ==> (#[trigger] out@[j]).name@ == self.schema.fields@[j].name@
                        && out@[j].value.deep_view() == spec_resolve_slot(*self, outcomes@, j),
            decreases n - i,
        {
            let fs = &self.schema.fields[i];
            proof {
                lemma_request_prefix(*self, i + 1, n);
            }
            let value: Option<Value> = match &fs.kind {
                FieldKind::PrimaryKey => Some(Value::IdVal(self.sentinel)),
                FieldKind::ForeignKey(d) => {
                    let optional = is_option_type(&fs.ty);
                    let needs = self.step_needs_creation(i);
                    if needs {
                        assert(reqs[k as int] == i as int);
                        requested.push(clone_chars(&d.target_factory));
                        match &outcomes[k] {
                            CreationOutcome::Created(e) => {
                                let looked = entity_field_value(e, &d.target_field);
                                let w = match looked {
                                    Some(Some(v)) => v,
                                    _ => {
                                        proof {
                                            assert(false);
                                        }
                                        Value::IdVal(0)
                                    },
                                };
                                proof {
                                    lemma_request_count_bounds(*self, i as int);
                                }
                                k += 1;
                                Some(w)
                            },
                            CreationOutcome::CreationFailed(em) => {
                                assert(spec_first_failed_from(outcomes@, m, k as int) == Some(
                                    k as int,
                                ));
                                return ResolveReport {
                                    requested,
                                    outcome: Err(clone_chars(em)),
                                };
                            },
                        }
                    } else {
                        if optional && d.suppress_auto_create {
                            match &self.slots[i] {
                                Some(v) => {
                                    if is_sentinel_value(v, self.sentinel) {
                                        None
                                    } else {
                                        Some(duplicate_value(v))
                                    }
                                },
                                None => None,
                            }
                        } else {
                            duplicate_slot(&self.slots[i])
                        }
                    }
                },
                _ => duplicate_slot(&self.slots[i]),
            };
            out.push(EntityField { name: clone_chars(&fs.name), value });
            i += 1;
        }
        assert(k as int == m);
        ResolveReport {
            requested,
            outcome: Ok(
                EntityInstance {
                    entity_name: clone_chars(&self.schema.entity_name),
                    fields: out,
                },
            ),
        }
    }
}

// ---------------------------------------------------------------------------
// Laws of the resolution protocol
// ---------------------------------------------------------------------------

/// Law: an optional-shaped foreign-key field with auto-create suppressed
/// never performs a creation; it resolves to its present non-sentinel value,
/// and to absent in every other case.
pub proof fn lemma_suppressed_never_creates(
    f: FactoryInstance,
    outcomes: Seq<CreationOutcome>,
    i: int,
)
    requires
        0 <= i < f.schema.fields@.len(),
        f.schema.fields@[i].kind matches FieldKind::ForeignKey(d) && d.suppress_auto_create,
        spec_is_option(f.schema.fields@[i].ty),
    ensures
        !spec_step_needs_creation(f, i),
        spec_request_count(f, i + 1) == spec_request_count(f, i),
        spec_resolve_slot(f, outcomes, i) == (if spec_present_nonsentinel(
            spec_slot(f, i),
            f.sentinel as int,
        ) {
            spec_slot(f, i)
        } else {
            None::<ValueView>
        }),
{
}

/// Law: an optional-shaped foreign-key field with auto-create enabled and no
/// present non-sentinel value performs exactly one creation, and resolves to
/// the creation's named output field, wrapped present.
pub proof fn lemma_auto_creates_when_unset(
    f: FactoryInstance,
    outcomes: Seq<CreationOutcome>,
    i: int,
)
    requires
        0 <= i < f.schema.fields@.len(),
        f.schema.fields@[i].kind matches FieldKind::ForeignKey(d) && !d.suppress_auto_create,
        spec_is_option(f.schema.fields@[i].ty),
        !spec_present_nonsentinel(spec_slot(f, i), f.sentinel as int),
    ensures
        spec_step_needs_creation(f, i),
        spec_request_count(f, i + 1) == spec_request_count(f, i) + 1,
        spec_resolve_slot(f, outcomes, i) == spec_created_value(
            outcomes[spec_request_count(f, i)],
            spec_target_field_of(f.schema.fields@[i]),
        ),
{
}

/// Law: a plain-shaped foreign-key field holding a non-sentinel explicit
/// value performs no creation and is preserved exactly.
pub proof fn lemma_explicit_value_preserved(
    f: FactoryInstance,
    outcomes: Seq<CreationOutcome>,
    i: int,
    v: ValueView,
)
    requires
        0 <= i < f.schema.fields@.len(),
        f.schema.fields@[i].kind is ForeignKey,
        !spec_is_option(f.schema.fields@[i].ty),
        spec_slot(f, i) == Some(v),
        !spec_is_sentinel(v, f.sentinel as int),
    ensures
        !spec_step_needs_creation(f, i),
        spec_request_count(f, i + 1) == spec_request_count(f, i),
        spec_resolve_slot(f, outcomes, i) == Some(v),
{
}

/// Law: the emitted resolution step and the protocol agree — the step's mode
/// determines exactly when its field performs a nested creation.
pub proof fn lemma_step_mode_agrees(f: FactoryInstance, st: ResolveStep, i: int)
    requires
        0 <= i < f.schema.fields@.len(),
        spec_resolve_step_matches(st, f.schema.fields@, i),
    ensures
        st.mode is OptionalSuppressed ==> !spec_step_needs_creation(f, i),
        st.mode is OptionalAutoCreate ==> (spec_step_needs_creation(f, i)
            <==> !spec_present_nonsentinel(spec_slot(f, i), f.sentinel as int)),
        st.mode is RequiredAutoCreate ==> (spec_step_needs_creation(f, i) <==> (spec_slot(f, i)
            matches Some(v) && spec_is_sentinel(v, f.sentinel as int))),
{
}

/// Law: nested creations happen in the factory's declared field order — of
/// two requests, the earlier one belongs to the earlier field.
pub proof fn lemma_creations_in_declaration_order(f: FactoryInstance, n: int, k1: int, k2: int)
    requires
        n >= 0,
        0 <= k1 < k2 < spec_request_indices(f, n).len(),
    ensures
        spec_request_indices(f, n)[k1] < spec_request_indices(f, n)[k2],
{
    lemma_request_indices(f, n);
    let i1 = spec_request_indices(f, n)[k1];
    let i2 = spec_request_indices(f, n)[k2];
    if i1 >= i2 {
        lemma_request_count_monotone(f, i2, i1);
    }
}

/// The request count over `[0, n)` stays within `[0, n]`.
pub proof fn lemma_request_count_bounds(f: FactoryInstance, n: int)
    requires
        n >= 0,
    ensures
        0 <= spec_request_count(f, n) <= n,
    decreases n,
{
    if n > 0 {
        lemma_request_count_bounds(f, n - 1);
    }
}

/// The request count never decreases as more fields are scanned.
pub proof fn lemma_request_count_monotone(f: FactoryInstance, i: int, j: int)
    requires
        0 <= i <= j,
    ensures
        spec_request_count(f, i) <= spec_request_count(f, j),
    decreases j - i,
{
    if i < j {
        lemma_request_count_monotone(f, i, j - 1);
    }
}

} // verus!
