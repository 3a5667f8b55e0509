//! Field categorizer: a deterministic, order-preserving partition of the
//! schema's field list into the four generation sets.
//!
//! Primary-key fields never appear in any other set; among the remainder the
//! foreign-key fields form one set, and the rest split by declared shape into
//! the optional-scalar and required-scalar sets. Declaration order is kept
//! within each set; it becomes the emission and resolution order.

use vstd::prelude::*;

use crate::schema::{FieldKind, FieldSpec};
use crate::shape::{is_option_type, spec_is_option};

verus! {

/// The generation set a field belongs to.
pub enum FieldCategory {
    CatPrimaryKey,
    CatForeignKey,
    CatOptionalScalar,
    CatRequiredScalar,
}

/// The set a classified field falls into: its category, except that the
/// scalar split goes by declared shape (a required-marked field of optional
/// shape sits with the optional-shaped scalars for setter emission).
pub open spec fn spec_category_of(fs: FieldSpec) -> FieldCategory {
    match fs.kind {
        FieldKind::PrimaryKey => FieldCategory::CatPrimaryKey,
        FieldKind::ForeignKey(_) => FieldCategory::CatForeignKey,
        FieldKind::OptionalScalar => if spec_is_option(fs.ty) {
            FieldCategory::CatOptionalScalar
        } else {
            FieldCategory::CatRequiredScalar
        },
        FieldKind::RequiredScalar => if spec_is_option(fs.ty) {
            FieldCategory::CatOptionalScalar
        } else {
            FieldCategory::CatRequiredScalar
        },
    }
}

/// How many of the first `n` fields fall into `cat`.
pub open spec fn spec_cat_count(fields: Seq<FieldSpec>, cat: FieldCategory, n: int) -> int
    decreases n,
{
    if n <= 0 {
        0
    } else {
        spec_cat_count(fields, cat, n - 1) + (if spec_category_of(fields[n - 1]) == cat {
            1int
        } else {
            0int
        })
    }
}

/// The indices of the first `n` fields falling into `cat`, in declaration
/// order.
pub open spec fn spec_cat_indices(fields: Seq<FieldSpec>, cat: FieldCategory, n: int) -> Seq<int>
    decreases n,
{
    if n <= 0 {
        Seq::empty()
    } else if spec_category_of(fields[n - 1]) == cat {
        spec_cat_indices(fields, cat, n - 1).push(n - 1)
    } else {
        spec_cat_indices(fields, cat, n - 1)
    }
}

/// Each selected index stands at the position given by the count of
/// selected indices before it, and every member of the category is selected.
pub proof fn lemma_cat_indices(fields: Seq<FieldSpec>, cat: FieldCategory, n: int)
    requires
        n >= 0,
    ensures
        spec_cat_indices(fields, cat, n).len() == spec_cat_count(fields, cat, n),
        forall|k: int|
            0 <= k < spec_cat_indices(fields, cat, n).len() ==> {
                let i = #[trigger] spec_cat_indices(fields, cat, n)[k];
                0 <= i < n && spec_category_of(fields[i]) == cat && spec_cat_count(fields, cat, i)
                    == k
            },
        forall|i: int|
            0 <= i < n && spec_category_of(#[trigger] fields[i]) == cat ==> 0 <= spec_cat_count(
                fields,
                cat,
                i,
            ) < spec_cat_indices(fields, cat, n).len() && spec_cat_indices(fields, cat, n)[
                spec_cat_count(fields, cat, i)
            ] == i,
    decreases n,
{
    if n > 0 {
        lemma_cat_indices(fields, cat, n - 1);
        let prev = spec_cat_indices(fields, cat, n - 1);
        let cur = spec_cat_indices(fields, cat, n);
        if spec_category_of(fields[n - 1]) == cat {
            assert forall|k: int| 0 <= k < cur.len() implies {
                let i = #[trigger] cur[k];
                0 <= i < n && spec_category_of(fields[i]) == cat && spec_cat_count(fields, cat, i)
                    == k
            } by {
                if k < prev.len() {
                    assert(cur[k] == prev[k]);
                } else {
                    assert(cur[k] == n - 1);
                }
            }
            assert forall|i: int|
                0 <= i < n && spec_category_of(#[trigger] fields[i]) == cat implies 0
                <= spec_cat_count(fields, cat, i) < cur.len() && cur[spec_cat_count(fields, cat, i)]
                == i by {
                if i < n - 1 {
                    assert(prev[spec_cat_count(fields, cat, i)] == i);
                    assert(cur[spec_cat_count(fields, cat, i)] == i);
                } else {
                    assert(cur[spec_cat_count(fields, cat, n - 1)] == n - 1);
                }
            }
        } else {
            assert forall|i: int|
                0 <= i < n && spec_category_of(#[trigger] fields[i]) == cat implies 0
                <= spec_cat_count(fields, cat, i) < cur.len() && cur[spec_cat_count(fields, cat, i)]
                == i by {
                assert(i < n - 1);
            }
        }
    }
}

/// The four generation sets, as positions into the schema's field list, each
/// in declaration order.
pub struct FieldSets {
    pub primary_key: Vec<usize>,
    pub foreign_key: Vec<usize>,
    pub optional_scalar: Vec<usize>,
    pub required_scalar: Vec<usize>,
}

/// Whether `v` is exactly the ordered selection of `cat` members.
pub open spec fn spec_set_matches(v: Seq<usize>, fields: Seq<FieldSpec>, cat: FieldCategory) -> bool {
    v.map_values(|u: usize| u as int) == spec_cat_indices(fields, cat, fields.len() as int)
}

/// Computes the generation set of one classified field.
pub fn category_of(fs: &FieldSpec) -> (r: FieldCategory)
    ensures
        r == spec_category_of(*fs),
{
    match &fs.kind {
        FieldKind::PrimaryKey => FieldCategory::CatPrimaryKey,
        FieldKind::ForeignKey(_) => FieldCategory::CatForeignKey,
        _ => if is_option_type(&fs.ty) {
            FieldCategory::CatOptionalScalar
        } else {
            FieldCategory::CatRequiredScalar
        },
    }
}

/// Partitions the field list into the four generation sets in one pass,
/// keeping declaration order within each set.
#[verifier::loop_isolation(false)]
pub fn categorize_fields(fields: &Vec<FieldSpec>) -> (r: FieldSets)
    ensures
        spec_set_matches(r.primary_key@, fields@, FieldCategory::CatPrimaryKey),
        spec_set_matches(r.foreign_key@, fields@, FieldCategory::CatForeignKey),
        spec_set_matches(r.optional_scalar@, fields@, FieldCategory::CatOptionalScalar),
        spec_set_matches(r.required_scalar@, fields@, FieldCategory::CatRequiredScalar),
{
    let mut primary_key: Vec<usize> = Vec::new();
    let mut foreign_key: Vec<usize> = Vec::new();
    let mut optional_scalar: Vec<usize> = Vec::new();
    let mut required_scalar: Vec<usize> = Vec::new();
    let mut i: usize = 0;
    while i < fields.len()
        invariant
            0 <= i <= fields@.len(),
            primary_key@.map_values(|u: usize| u as int) =~= spec_cat_indices(
                fields@,
                FieldCategory::CatPrimaryKey,
                i as int,
            ),
            foreign_key@.map_values(|u: usize| u as int) =~= spec_cat_indices(
                fields@,
                FieldCategory::CatForeignKey,
                i as int,
            ),
            optional_scalar@.map_values(|u: usize| u as int) =~= spec_cat_indices(
                fields@,
                FieldCategory::CatOptionalScalar,
                i as int,
            ),
            required_scalar@.map_values(|u: usize| u as int) =~= spec_cat_indices(
                fields@,
                FieldCategory::CatRequiredScalar,
                i as int,
            ),
        decreases fields@.len() - i,
    {
        match category_of(&fields[i]) {
            FieldCategory::CatPrimaryKey => {
                primary_key.push(i);
            },
            FieldCategory::CatForeignKey => {
                foreign_key.push(i);
            },
            FieldCategory::CatOptionalScalar => {
                optional_scalar.push(i);
            },
            FieldCategory::CatRequiredScalar => {
                required_scalar.push(i);
            },
        }
        i += 1;
    }
    FieldSets { primary_key, foreign_key, optional_scalar, required_scalar }
}

} // verus!
