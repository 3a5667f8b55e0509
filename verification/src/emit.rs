//! Emission driver: orchestrates parsing, categorization and synthesis for
//! one factory declaration, producing the generated unit — the structured
//! plans the generated builder consists of, emitted fragment by fragment
//! from the shared schema and concatenated.

use vstd::prelude::*;

use crate::categorize::{
    categorize_fields, lemma_cat_indices, spec_cat_indices, spec_set_matches, FieldCategory,
    FieldSets,
};
use crate::schema::{parse_factory, FactoryDecl, FactorySchema, FieldKind, FieldSpec, SchemaError};
use crate::schema::{spec_first_malformed, spec_factory_entity, spec_schema_matches};
use crate::synth::{
    generate_build_assignment, generate_build_with_fks_assignment, generate_fk_resolution,
    generate_fk_with_methods, generate_option_with_method, generate_regular_with_method,
    spec_assemble_action, spec_bound_matches, spec_bound_needed, spec_build_action,
    spec_fk_entity_setter, spec_fk_id_setter, spec_optional_setter, spec_regular_setter,
    spec_resolve_step_matches, AssembleAction, BuildAction, CapabilityBound, ResolveStep,
    SetterPlan,
};
use crate::text::clone_chars;

verus! {

/// How many of the first `n` fields need a creation-capability bound.
pub open spec fn spec_bound_count(fields: Seq<FieldSpec>, n: int) -> int
    decreases n,
{
    if n <= 0 {
        0
    } else {
        spec_bound_count(fields, n - 1) + (if spec_bound_needed(fields[n - 1]) {
            1int
        } else {
            0int
        })
    }
}

/// The indices of the first `n` fields needing a bound, in declaration
/// order.
pub open spec fn spec_bound_indices(fields: Seq<FieldSpec>, n: int) -> Seq<int>
    decreases n,
{
    if n <= 0 {
        Seq::empty()
    } else if spec_bound_needed(fields[n - 1]) {
        spec_bound_indices(fields, n - 1).push(n - 1)
    } else {
        spec_bound_indices(fields, n - 1)
    }
}

/// The generated unit for one factory declaration: the schema, the four
/// generation sets, the fluent setters, the two assembly plans, the
/// resolution steps and the capability bounds.
pub struct GeneratedUnit {
    pub schema: FactorySchema,
    pub sets: FieldSets,
    pub setters: Vec<SetterPlan>,
    pub build_plan: Vec<BuildAction>,
    pub resolve_steps: Vec<ResolveStep>,
    pub assemble_plan: Vec<AssembleAction>,
    pub bounds: Vec<CapabilityBound>,
}

/// What the driver promises of every emitted fragment, relative to the
/// parsed schema.
pub open spec fn spec_unit_matches(u: GeneratedUnit) -> bool {
    let fields = u.schema.fields@;
    let n = fields.len() as int;
    let fk = spec_cat_indices(fields, FieldCategory::CatForeignKey, n);
    let opt = spec_cat_indices(fields, FieldCategory::CatOptionalScalar, n);
    let req = spec_cat_indices(fields, FieldCategory::CatRequiredScalar, n);
    &&& spec_set_matches(u.sets.primary_key@, fields, FieldCategory::CatPrimaryKey)
    &&& spec_set_matches(u.sets.foreign_key@, fields, FieldCategory::CatForeignKey)
    &&& spec_set_matches(u.sets.optional_scalar@, fields, FieldCategory::CatOptionalScalar)
    &&& spec_set_matches(u.sets.required_scalar@, fields, FieldCategory::CatRequiredScalar)
    &&& u.setters@.len() == 2 * fk.len() + opt.len() + req.len()
    &&& forall|k: int|
        0 <= k < fk.len() ==> spec_fk_entity_setter(#[trigger] u.setters@[2 * k], fields, fk[k])
            && spec_fk_id_setter(u.setters@[2 * k + 1], fields, fk[k])
    &&& forall|k: int|
        0 <= k < opt.len() ==> spec_optional_setter(
            #[trigger] u.setters@[2 * fk.len() + k],
            fields,
            opt[k],
        )
    &&& forall|k: int|
        0 <= k < req.len() ==> spec_regular_setter(
            #[trigger] u.setters@[2 * fk.len() + opt.len() + k],
            fields,
            req[k],
        )
    &&& u.build_plan@.len() == n
    &&& forall|i: int|
        0 <= i < n ==> #[trigger] u.build_plan@[i] == spec_build_action(fields[i])
    &&& u.resolve_steps@.len() == fk.len()
    &&& forall|k: int|
        0 <= k < fk.len() ==> spec_resolve_step_matches(#[trigger] u.resolve_steps@[k], fields, fk[k])
    &&& u.assemble_plan@.len() == n
    &&& forall|i: int|
        0 <= i < n ==> #[trigger] u.assemble_plan@[i] == spec_assemble_action(fields[i])
    &&& u.bounds@.len() == spec_bound_count(fields, n)
    &&& forall|k: int|
        0 <= k < u.bounds@.len() ==> spec_bound_matches(
            #[trigger] u.bounds@[k],
            fields[spec_bound_indices(fields, n)[k]],
        )
}

/// Every selected bound index is a field needing a bound, at its ordinal.
proof fn lemma_bound_indices(fields: Seq<FieldSpec>, n: int)
    requires
        n >= 0,
    ensures
        spec_bound_indices(fields, n).len() == spec_bound_count(fields, n),
        forall|k: int|
            0 <= k < spec_bound_indices(fields, n).len() ==> {
                let i = #[trigger] spec_bound_indices(fields, n)[k];
                0 <= i < n && spec_bound_needed(fields[i]) && spec_bound_count(fields, i) == k
            },
    decreases n,
{
    if n > 0 {
        lemma_bound_indices(fields, n - 1);
        let prev = spec_bound_indices(fields, n - 1);
        let cur = spec_bound_indices(fields, n);
        if spec_bound_needed(fields[n - 1]) {
            assert forall|k: int| 0 <= k < cur.len() implies {
                let i = #[trigger] cur[k];
                0 <= i < n && spec_bound_needed(fields[i]) && spec_bound_count(fields, i) == k
            } by {
                if k < prev.len() {
                    assert(cur[k] == prev[k]);
                } else {
                    assert(cur[k] == n - 1);
                }
            }
        }
    }
}

/// Runs the whole generation pass against one factory declaration: parse,
/// categorize, and synthesize every fragment of the builder.
///
/// Fails, emitting nothing, exactly when the declaration itself is unusable.
#[verifier::loop_isolation(false)]
pub fn derive_factory(decl: FactoryDecl) -> (r: Result<GeneratedUnit, SchemaError>)
    ensures
        match r {
            Ok(u) => spec_first_malformed(decl.fields@) is None && spec_schema_matches(
                u.schema,
                decl,
            ) && spec_unit_matches(u),
            Err(SchemaError::MissingEntityAttr) => spec_factory_entity(decl.attrs@) is None,
            Err(SchemaError::MalformedFkAttr { field }) => ({
                &&& spec_factory_entity(decl.attrs@) is Some
                &&& spec_first_malformed(decl.fields@) matches Some(b)
                &&& field@ == decl.fields@[b].name@
            }),
        },
{
    let schema = match parse_factory(decl) {
        Ok(s) => s,
        Err(e) => {
            return Err(e);
        },
    };
    let fields = &schema.fields;
    let ghost fseq = schema.fields@;
    let ghost n = fseq.len() as int;
    proof {
        lemma_cat_indices(fseq, FieldCategory::CatForeignKey, n);
        lemma_cat_indices(fseq, FieldCategory::CatOptionalScalar, n);
        lemma_cat_indices(fseq, FieldCategory::CatRequiredScalar, n);
        lemma_bound_indices(fseq, n);
    }
    let ghost fk = spec_cat_indices(fseq, FieldCategory::CatForeignKey, n);
    let ghost opt = spec_cat_indices(fseq, FieldCategory::CatOptionalScalar, n);
    let ghost req = spec_cat_indices(fseq, FieldCategory::CatRequiredScalar, n);
    let sets = categorize_fields(fields);

    // Fluent setters: the foreign-key pairs, then the optional-scalar
    // setters, then the plain-scalar setters.
    let mut setters: Vec<SetterPlan> = Vec::new();
    let mut k: usize = 0;
    while k < sets.foreign_key.len()
        invariant
            0 <= k <= fk.len(),
            setters@.len() == 2 * k,
            forall|j: int|
                0 <= j < k ==> spec_fk_entity_setter(#[trigger] setters@[2 * j], fseq, fk[j])
                    && spec_fk_id_setter(setters@[2 * j + 1], fseq, fk[j]),
        decreases fk.len() - k,
    {
        let i = sets.foreign_key[k];
        assert(i as int == fk[k as int]);
        let mut pair = generate_fk_with_methods(fields, i);
        assert(pair@[0] == pair@.index(0));
        setters.push(pair.remove(0));
        setters.push(pair.remove(0));
        k += 1;
    }
    let mut k2: usize = 0;
    while k2 < sets.optional_scalar.len()
        invariant
            0 <= k2 <= opt.len(),
            setters@.len() == 2 * fk.len() + k2,
            forall|j: int|
                0 <= j < fk.len() ==> spec_fk_entity_setter(#[trigger] setters@[2 * j], fseq, fk[j])
                    && spec_fk_id_setter(setters@[2 * j + 1], fseq, fk[j]),
            forall|j: int|
                0 <= j < k2 ==> spec_optional_setter(
                    #[trigger] setters@[2 * fk.len() + j],
                    fseq,
                    opt[j],
                ),
        decreases opt.len() - k2,
    {
        let i = sets.optional_scalar[k2];
        assert(i as int == opt[k2 as int]);
        setters.push(generate_option_with_method(fields, i));
        k2 += 1;
    }
    let mut k3: usize = 0;
    while k3 < sets.required_scalar.len()
        invariant
            0 <= k3 <= req.len(),
            setters@.len() == 2 * fk.len() + opt.len() + k3,
            forall|j: int|
                0 <= j < fk.len() ==> spec_fk_entity_setter(#[trigger] setters@[2 * j], fseq, fk[j])
                    && spec_fk_id_setter(setters@[2 * j + 1], fseq, fk[j]),
            forall|j: int|
                0 <= j < opt.len() ==> spec_optional_setter(
                    #[trigger] setters@[2 * fk.len() + j],
                    fseq,
                    opt[j],
                ),
            forall|j: int|
                0 <= j < k3 ==> spec_regular_setter(
                    #[trigger] setters@[2 * fk.len() + opt.len() + j],
                    fseq,
                    req[j],
                ),
        decreases req.len() - k3,
    {
        let i = sets.required_scalar[k3];
        assert(i as int == req[k3 as int]);
        setters.push(generate_regular_with_method(fields, i));
        k3 += 1;
    }

    // Synchronous build assembly, one action per field in declaration order.
    let mut build_plan: Vec<BuildAction> = Vec::new();
    let mut i: usize = 0;
    while i < fields.len()
        invariant
            0 <= i <= n,
            build_plan@.len() == i,
            forall|j: int| 0 <= j < i ==> #[trigger] build_plan@[j] == spec_build_action(fseq[j]),
        decreases n - i,
    {
        build_plan.push(generate_build_assignment(&fields[i]));
        i += 1;
    }

    // Resolution steps, one per foreign-key field in declaration order.
    let mut resolve_steps: Vec<ResolveStep> = Vec::new();
    let mut k4: usize = 0;
    while k4 < sets.foreign_key.len()
        invariant
            0 <= k4 <= fk.len(),
            resolve_steps@.len() == k4,
            forall|j: int|
                0 <= j < k4 ==> spec_resolve_step_matches(
                    #[trigger] resolve_steps@[j],
                    fseq,
                    fk[j],
                ),
        decreases fk.len() - k4,
    {
        let i4 = sets.foreign_key[k4];
        assert(i4 as int == fk[k4 as int]);
        resolve_steps.push(generate_fk_resolution(fields, i4));
        k4 += 1;
    }

    // Resolved assembly, one action per field in declaration order.
    let mut assemble_plan: Vec<AssembleAction> = Vec::new();
    let mut i5: usize = 0;
    while i5 < fields.len()
        invariant
            0 <= i5 <= n,
            assemble_plan@.len() == i5,
            forall|j: int|
                0 <= j < i5 ==> #[trigger] assemble_plan@[j] == spec_assemble_action(fseq[j]),
        decreases n - i5,
    {
        assemble_plan.push(generate_build_with_fks_assignment(&fields[i5]));
        i5 += 1;
    }

    // Capability bounds for the fields that may auto-create.
    let mut bounds: Vec<CapabilityBound> = Vec::new();
    let mut i6: usize = 0;
    while i6 < fields.len()
        invariant
            0 <= i6 <= n,
            bounds@.len() == spec_bound_count(fseq, i6 as int),
            forall|j: int|
                0 <= j < bounds@.len() ==> spec_bound_matches(
                    #[trigger] bounds@[j],
                    fseq[spec_bound_indices(fseq, i6 as int)[j]],
                ),
        decreases n - i6,
    {
        let fs = &fields[i6];
        let needed = match &fs.kind {
            FieldKind::ForeignKey(d) => !d.suppress_auto_create,
            _ => false,
        };
        if needed {
            let b = match &fs.kind {
                FieldKind::ForeignKey(d) => CapabilityBound {
                    target_factory: clone_chars(&d.target_factory),
                    target_entity: clone_chars(&d.target_entity),
                },
                _ => {
                    proof {
                        assert(false);
                    }
                    CapabilityBound { target_factory: Vec::new(), target_entity: Vec::new() }
                },
            };
            bounds.push(b);
        }
        proof {
            assert forall|j: int| 0 <= j < bounds@.len() implies spec_bound_matches(
                #[trigger] bounds@[j],
                fseq[spec_bound_indices(fseq, i6 + 1)[j]],
            ) by {
                lemma_bound_indices(fseq, i6 + 1);
                lemma_bound_indices(fseq, i6 as int);
                if j < spec_bound_indices(fseq, i6 as int).len() {
                    assert(spec_bound_indices(fseq, i6 + 1)[j] == spec_bound_indices(
                        fseq,
                        i6 as int,
                    )[j]);
                }
            }
        }
        i6 += 1;
    }

    Ok(
        GeneratedUnit {
            schema,
            sets,
            setters,
            build_plan,
            resolve_steps,
            assemble_plan,
            bounds,
        },
    )
}

} // verus!
