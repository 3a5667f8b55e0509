//! Builder-API and FK-resolution synthesizers: from classified fields to
//! setter plans, build-assembly actions, resolution steps and capability
//! bounds — the structured fragments a generated builder consists of.

use vstd::prelude::*;

use crate::schema::{FieldKind, FieldSpec};
use crate::shape::{
    extract_option_inner_type, is_option_type, is_string_type, needs_clone, spec_is_option,
    spec_is_string, spec_needs_clone, spec_option_inner,
};
use crate::categorize::{spec_category_of, FieldCategory};
use crate::text::{chars_of, chars_prefix, chars_suffix_eq, chars_window_eq, clone_chars, concat_chars};

verus! {

// ---------------------------------------------------------------------------
// Setter naming
// ---------------------------------------------------------------------------

/// Replaces every occurrence of the medial identifier-suffix convention with
/// a single separator, scanning left to right.
pub open spec fn spec_replace_id_mid(s: Seq<char>) -> Seq<char>
    decreases s.len(),
{
    if s.len() < 4 {
        s
    } else if s.subrange(0, 4) == "_id_"@ {
        "_"@ + spec_replace_id_mid(s.skip(4))
    } else {
        s.subrange(0, 1) + spec_replace_id_mid(s.skip(1))
    }
}

/// The entity-setter name for a foreign-key field: the trailing identifier
/// suffix is stripped, or, absent that, a medial occurrence collapses to one
/// separator; the fluent prefix is prepended either way.
pub open spec fn spec_fk_method_name(s: Seq<char>) -> Seq<char> {
    if s.len() >= 3 && s.subrange(s.len() - 3, s.len() as int) == "_id"@ {
        "with_"@ + s.subrange(0, s.len() - 3)
    } else {
        "with_"@ + spec_replace_id_mid(s)
    }
}

/// The value-setter name for any field: the fluent prefix plus the field
/// name verbatim.
pub open spec fn spec_with_name(s: Seq<char>) -> Seq<char> {
    "with_"@ + s
}

/// Collapses each medial occurrence of the identifier-suffix convention to a
/// single separator.
#[verifier::loop_isolation(false)]
pub fn replace_id_mid(name: &Vec<char>) -> (r: Vec<char>)
    ensures
        r@ == spec_replace_id_mid(name@),
{
    proof {
        reveal_strlit("_id_");
    }
    let pat = chars_of("_id_");
    let sep = chars_of("_");
    let mut out: Vec<char> = Vec::new();
    let mut i: usize = 0;
    proof {
        assert(name@.skip(0) =~= name@);
        assert(out@ + spec_replace_id_mid(name@) =~= spec_replace_id_mid(name@));
    }
    while i < name.len()
        invariant
            0 <= i <= name@.len(),
            spec_replace_id_mid(name@) == out@ + spec_replace_id_mid(name@.skip(i as int)),
        decreases name@.len() - i,
    {
        let ghost tail = name@.skip(i as int);
        if name.len() - i >= 4 && chars_window_eq(name, i, &pat) {
            let mut piece = clone_chars(&sep);
            out.append(&mut piece);
            proof {
                assert(tail.subrange(0, 4) =~= name@.subrange(i as int, i + 4));
                assert(tail.skip(4) =~= name@.skip(i + 4));
                assert(spec_replace_id_mid(tail) == "_"@ + spec_replace_id_mid(tail.skip(4)));
            }
            i += 4;
        } else {
            out.push(name[i]);
            proof {
                assert(tail.subrange(0, 1) =~= seq![name@[i as int]]);
                assert(tail.skip(1) =~= name@.skip(i + 1));
                if tail.len() >= 4 {
                    assert(tail.subrange(0, 4) =~= name@.subrange(i as int, i + 4));
                    assert(tail.subrange(0, 4) != "_id_"@);
                    assert(spec_replace_id_mid(tail) == tail.subrange(0, 1)
                        + spec_replace_id_mid(tail.skip(1)));
                } else {
                    assert(spec_replace_id_mid(tail) =~= tail.subrange(0, 1)
                        + spec_replace_id_mid(tail.skip(1)));
                }
            }
            i += 1;
        }
    }
    proof {
        assert(name@.skip(name@.len() as int) =~= Seq::<char>::empty());
        assert(spec_replace_id_mid(name@) =~= out@);
    }
    out
}

/// Converts a foreign-key field name to its entity-setter name.
pub fn fk_method_name(field_name: &Vec<char>) -> (r: Vec<char>)
    ensures
        r@ == spec_fk_method_name(field_name@),
{
    proof {
        reveal_strlit("_id");
    }
    let with_prefix = chars_of("with_");
    let suffix = chars_of("_id");
    if chars_suffix_eq(field_name, &suffix) {
        let stripped = chars_prefix(field_name, field_name.len() - suffix.len());
        concat_chars(&with_prefix, &stripped)
    } else {
        let replaced = replace_id_mid(field_name);
        concat_chars(&with_prefix, &replaced)
    }
}

// ---------------------------------------------------------------------------
// Setter plans
// ---------------------------------------------------------------------------

/// What a fluent setter accepts.
pub enum SetterAccepts {
    /// A reference to the target entity; the named field is copied out.
    EntityRef { target_entity: Vec<char>, target_field: Vec<char> },
    /// The identifier value itself.
    IdValue,
    /// The unwrapped field value; a textual field accepts anything
    /// convertible to the textual type.
    PlainValue { textual: bool },
}

/// One fluent setter of the generated builder. `wraps` says whether the
/// assigned value is wrapped in "present" on assignment.
pub struct SetterPlan {
    pub field_index: usize,
    pub method_name: Vec<char>,
    pub accepts: SetterAccepts,
    pub wraps: bool,
}

/// The entity-accepting setter a foreign-key field gets.
pub open spec fn spec_fk_entity_setter(p: SetterPlan, fields: Seq<FieldSpec>, i: int) -> bool
    recommends
        0 <= i < fields.len(),
{
    &&& p.field_index == i
    &&& p.method_name@ == spec_fk_method_name(fields[i].name@)
    &&& match fields[i].kind {
        FieldKind::ForeignKey(d) => p.accepts matches SetterAccepts::EntityRef {
            target_entity,
            target_field,
        } && target_entity@ == d.target_entity@ && target_field@ == d.target_field@,
        _ => false,
    }
    &&& p.wraps == spec_is_option(fields[i].ty)
}

/// The identifier-accepting setter a foreign-key field gets.
pub open spec fn spec_fk_id_setter(p: SetterPlan, fields: Seq<FieldSpec>, i: int) -> bool
    recommends
        0 <= i < fields.len(),
{
    &&& p.field_index == i
    &&& p.method_name@ == spec_with_name(fields[i].name@)
    &&& p.accepts is IdValue
    &&& p.wraps == spec_is_option(fields[i].ty)
}

/// The single setter an optional-shaped scalar field gets.
pub open spec fn spec_optional_setter(p: SetterPlan, fields: Seq<FieldSpec>, i: int) -> bool
    recommends
        0 <= i < fields.len(),
        spec_is_option(fields[i].ty),
{
    &&& p.field_index == i
    &&& p.method_name@ == spec_with_name(fields[i].name@)
    &&& p.accepts matches SetterAccepts::PlainValue { textual } && textual == spec_is_string(
        spec_option_inner(fields[i].ty),
    )
    &&& p.wraps == true
}

/// The single setter a plain-shaped scalar field gets.
pub open spec fn spec_regular_setter(p: SetterPlan, fields: Seq<FieldSpec>, i: int) -> bool
    recommends
        0 <= i < fields.len(),
{
    &&& p.field_index == i
    &&& p.method_name@ == spec_with_name(fields[i].name@)
    &&& p.accepts matches SetterAccepts::PlainValue { textual } && textual == spec_is_string(
        fields[i].ty,
    )
    &&& p.wraps == false
}

/// Emits the two setters of a foreign-key field: the entity-reference
/// setter, then the direct-identifier setter.
pub fn generate_fk_with_methods(fields: &Vec<FieldSpec>, i: usize) -> (r: Vec<SetterPlan>)
    requires
        i < fields@.len(),
        fields@[i as int].kind is ForeignKey,
    ensures
        r@.len() == 2,
        spec_fk_entity_setter(r@[0], fields@, i as int),
        spec_fk_id_setter(r@[1], fields@, i as int),
{
    let fs = &fields[i];
    let (target_entity, target_field) = match &fs.kind {
        FieldKind::ForeignKey(d) => (clone_chars(&d.target_entity), clone_chars(&d.target_field)),
        _ => {
            proof {
                assert(false);
            }
            (Vec::new(), Vec::new())
        },
    };
    let wraps = is_option_type(&fs.ty);
    let entity_setter = SetterPlan {
        field_index: i,
        method_name: fk_method_name(&fs.name),
        accepts: SetterAccepts::EntityRef { target_entity, target_field },
        wraps,
    };
    let with_prefix = chars_of("with_");
    let id_setter = SetterPlan {
        field_index: i,
        method_name: concat_chars(&with_prefix, &fs.name),
        accepts: SetterAccepts::IdValue,
        wraps,
    };
    let mut r: Vec<SetterPlan> = Vec::new();
    r.push(entity_setter);
    r.push(id_setter);
    r
}

/// Emits the setter of an optional-shaped scalar field.
pub fn generate_option_with_method(fields: &Vec<FieldSpec>, i: usize) -> (r: SetterPlan)
    requires
        i < fields@.len(),
        spec_category_of(fields@[i as int]) == FieldCategory::CatOptionalScalar,
    ensures
        spec_optional_setter(r, fields@, i as int),
{
    let fs = &fields[i];
    let inner = match extract_option_inner_type(&fs.ty) {
        Some(t) => t,
        None => {
            proof {
                assert(false);
            }
            &fs.ty
        },
    };
    let textual = is_string_type(inner);
    let with_prefix = chars_of("with_");
    SetterPlan {
        field_index: i,
        method_name: concat_chars(&with_prefix, &fs.name),
        accepts: SetterAccepts::PlainValue { textual },
        wraps: true,
    }
}

/// Emits the setter of a plain-shaped scalar field.
pub fn generate_regular_with_method(fields: &Vec<FieldSpec>, i: usize) -> (r: SetterPlan)
    requires
        i < fields@.len(),
        spec_category_of(fields@[i as int]) == FieldCategory::CatRequiredScalar,
    ensures
        spec_regular_setter(r, fields@, i as int),
{
    let fs = &fields[i];
    let textual = is_string_type(&fs.ty);
    let with_prefix = chars_of("with_");
    SetterPlan {
        field_index: i,
        method_name: concat_chars(&with_prefix, &fs.name),
        accepts: SetterAccepts::PlainValue { textual },
        wraps: false,
    }
}

// ---------------------------------------------------------------------------
// Synchronous build assembly
// ---------------------------------------------------------------------------

/// How one field of the entity is assembled by the synchronous build.
pub enum BuildAction {
    /// Primary key: the entity field's default value.
    UseEntityDefault,
    /// The current factory value, duplicated by a cloning operation.
    DuplicateCurrent,
    /// The current factory value, copied by value.
    CopyCurrent,
    /// A required-marked optional field: unwrapped, stopping with a
    /// diagnostic when absent.
    UnwrapRequired,
}

/// The assembly action of one classified field in the synchronous build.
pub open spec fn spec_build_action(fs: FieldSpec) -> BuildAction {
    match fs.kind {
        FieldKind::PrimaryKey => BuildAction::UseEntityDefault,
        FieldKind::ForeignKey(_) => if spec_is_option(fs.ty) {
            BuildAction::DuplicateCurrent
        } else if spec_needs_clone(fs.ty) {
            BuildAction::DuplicateCurrent
        } else {
            BuildAction::CopyCurrent
        },
        FieldKind::RequiredScalar => if spec_is_option(fs.ty) {
            BuildAction::UnwrapRequired
        } else if spec_needs_clone(fs.ty) {
            BuildAction::DuplicateCurrent
        } else {
            BuildAction::CopyCurrent
        },
        FieldKind::OptionalScalar => if spec_is_option(fs.ty) {
            BuildAction::DuplicateCurrent
        } else if spec_needs_clone(fs.ty) {
            BuildAction::DuplicateCurrent
        } else {
            BuildAction::CopyCurrent
        },
    }
}

/// Emits the synchronous-build assembly action of one field.
pub fn generate_build_assignment(fs: &FieldSpec) -> (r: BuildAction)
    ensures
        r == spec_build_action(*fs),
{
    match &fs.kind {
        FieldKind::PrimaryKey => BuildAction::UseEntityDefault,
        FieldKind::ForeignKey(_) => {
            if is_option_type(&fs.ty) {
                BuildAction::DuplicateCurrent
            } else if needs_clone(&fs.ty) {
                BuildAction::DuplicateCurrent
            } else {
                BuildAction::CopyCurrent
            }
        },
        FieldKind::RequiredScalar => {
            if is_option_type(&fs.ty) {
                BuildAction::UnwrapRequired
            } else if needs_clone(&fs.ty) {
                BuildAction::DuplicateCurrent
            } else {
                BuildAction::CopyCurrent
            }
        },
        FieldKind::OptionalScalar => {
            if is_option_type(&fs.ty) {
                BuildAction::DuplicateCurrent
            } else if needs_clone(&fs.ty) {
                BuildAction::DuplicateCurrent
            } else {
                BuildAction::CopyCurrent
            }
        },
    }
}

// ---------------------------------------------------------------------------
// Asynchronous resolution steps
// ---------------------------------------------------------------------------

/// How one foreign-key field resolves.
pub enum ResolveMode {
    /// Optional shape, auto-create suppressed: never creates; a present
    /// non-sentinel value stays, everything else resolves to absent.
    OptionalSuppressed,
    /// Optional shape, auto-create enabled: a present non-sentinel value is
    /// kept, otherwise the dependency is created and its named field taken.
    OptionalAutoCreate,
    /// Plain shape: the dependency is created exactly when the current value
    /// is the sentinel.
    RequiredAutoCreate,
}

/// One emitted resolution step of a foreign-key field.
pub struct ResolveStep {
    pub field_index: usize,
    pub mode: ResolveMode,
    pub target_entity: Vec<char>,
    pub target_field: Vec<char>,
    pub target_factory: Vec<char>,
}

/// Whether a resolution step records exactly what its field declares.
pub open spec fn spec_resolve_step_matches(st: ResolveStep, fields: Seq<FieldSpec>, i: int) -> bool
    recommends
        0 <= i < fields.len(),
{
    &&& st.field_index == i
    &&& match fields[i].kind {
        FieldKind::ForeignKey(d) => {
            &&& st.target_entity@ == d.target_entity@
            &&& st.target_field@ == d.target_field@
            &&& st.target_factory@ == d.target_factory@
            &&& st.mode == (if spec_is_option(fields[i].ty) {
                if d.suppress_auto_create {
                    ResolveMode::OptionalSuppressed
                } else {
                    ResolveMode::OptionalAutoCreate
                }
            } else {
                ResolveMode::RequiredAutoCreate
            })
        },
        _ => false,
    }
}

/// Emits the resolution step of one foreign-key field.
pub fn generate_fk_resolution(fields: &Vec<FieldSpec>, i: usize) -> (r: ResolveStep)
    requires
        i < fields@.len(),
        fields@[i as int].kind is ForeignKey,
    ensures
        spec_resolve_step_matches(r, fields@, i as int),
{
    let fs = &fields[i];
    let (target_entity, target_field, target_factory, suppress) = match &fs.kind {
        FieldKind::ForeignKey(d) => (
            clone_chars(&d.target_entity),
            clone_chars(&d.target_field),
            clone_chars(&d.target_factory),
            d.suppress_auto_create,
        ),
        _ => {
            proof {
                assert(false);
            }
            (Vec::new(), Vec::new(), Vec::new(), false)
        },
    };
    let mode = if is_option_type(&fs.ty) {
        if suppress {
            ResolveMode::OptionalSuppressed
        } else {
            ResolveMode::OptionalAutoCreate
        }
    } else {
        ResolveMode::RequiredAutoCreate
    };
    ResolveStep { field_index: i, mode, target_entity, target_field, target_factory }
}

// ---------------------------------------------------------------------------
// Resolved assembly
// ---------------------------------------------------------------------------

/// How one field of the entity is assembled after resolution.
pub enum AssembleAction {
    /// Primary key: the entity field's default value.
    AssembleDefault,
    /// Foreign key: the resolved binding of its resolution step.
    AssembleResolved,
    /// A required-marked optional field: unwrapped, stopping with a
    /// diagnostic when absent.
    AssembleUnwrap,
    /// The current factory value, duplicated by a cloning operation.
    AssembleDuplicate,
    /// The current factory value, copied by value.
    AssembleCopy,
}

/// The assembly action of one classified field after resolution.
pub open spec fn spec_assemble_action(fs: FieldSpec) -> AssembleAction {
    match fs.kind {
        FieldKind::PrimaryKey => AssembleAction::AssembleDefault,
        FieldKind::ForeignKey(_) => AssembleAction::AssembleResolved,
        FieldKind::RequiredScalar => if spec_is_option(fs.ty) {
            AssembleAction::AssembleUnwrap
        } else if spec_needs_clone(fs.ty) {
            AssembleAction::AssembleDuplicate
        } else {
            AssembleAction::AssembleCopy
        },
        FieldKind::OptionalScalar => if spec_is_option(fs.ty) {
            AssembleAction::AssembleDuplicate
        } else if spec_needs_clone(fs.ty) {
            AssembleAction::AssembleDuplicate
        } else {
            AssembleAction::AssembleCopy
        },
    }
}

/// Emits the resolved-build assembly action of one field.
pub fn generate_build_with_fks_assignment(fs: &FieldSpec) -> (r: AssembleAction)
    ensures
        r == spec_assemble_action(*fs),
{
    match &fs.kind {
        FieldKind::PrimaryKey => AssembleAction::AssembleDefault,
        FieldKind::ForeignKey(_) => AssembleAction::AssembleResolved,
        FieldKind::RequiredScalar => {
            if is_option_type(&fs.ty) {
                AssembleAction::AssembleUnwrap
            } else if needs_clone(&fs.ty) {
                AssembleAction::AssembleDuplicate
            } else {
                AssembleAction::AssembleCopy
            }
        },
        FieldKind::OptionalScalar => {
            if is_option_type(&fs.ty) {
                AssembleAction::AssembleDuplicate
            } else if needs_clone(&fs.ty) {
                AssembleAction::AssembleDuplicate
            } else {
                AssembleAction::AssembleCopy
            }
        },
    }
}

// ---------------------------------------------------------------------------
// Capability bounds
// ---------------------------------------------------------------------------

/// One creation-capability bound the generated resolution method requires: a
/// collaborating factory, constrained to produce the expected entity against
/// the shared resource handle.
pub struct CapabilityBound {
    pub target_factory: Vec<char>,
    pub target_entity: Vec<char>,
}

/// Only fields that may auto-create need a bound on their factory.
pub open spec fn spec_bound_needed(fs: FieldSpec) -> bool {
    match fs.kind {
        FieldKind::ForeignKey(d) => !d.suppress_auto_create,
        _ => false,
    }
}

/// Whether a bound records its field's declared factory and entity.
pub open spec fn spec_bound_matches(b: CapabilityBound, fs: FieldSpec) -> bool {
    match fs.kind {
        FieldKind::ForeignKey(d) => b.target_factory@ == d.target_factory@ && b.target_entity@
            == d.target_entity@,
        _ => false,
    }
}

} // verus!
