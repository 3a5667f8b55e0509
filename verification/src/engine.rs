//! Runtime engine: executes a validated schema against plain runtime
//! values.
//!
//! A factory instance pairs a schema with one slot per field; the generated
//! builder API — default construction, fluent setters and the synchronous
//! build — is realized as operations on that instance. The sentinel policy
//! of identifier values is injected, never assumed.

use vstd::prelude::*;

use crate::schema::{FactorySchema, FieldKind, FieldSpec};
use crate::shape::{is_option_type, is_string_type, spec_is_option, spec_is_string};
use crate::synth::spec_with_name;
use crate::text::{chars_eq, chars_of, clone_chars, concat_chars};

verus! {

// ---------------------------------------------------------------------------
// Runtime values
// ---------------------------------------------------------------------------

/// A plain runtime value a factory slot or an entity field can hold.
#[derive(Debug)]
pub enum Value {
    /// An identifier value, subject to the sentinel policy.
    IdVal(i64),
    /// A plain integer value.
    IntVal(i64),
    /// A textual value.
    TextVal(Vec<char>),
}

/// The mathematical shape of a runtime value.
pub enum ValueView {
    VId(int),
    VInt(int),
    VText(Seq<char>),
}

impl View for Value {
    type V = ValueView;

    open spec fn view(&self) -> ValueView {
        match self {
            Value::IdVal(x) => ValueView::VId(*x as int),
            Value::IntVal(x) => ValueView::VInt(*x as int),
            Value::TextVal(s) => ValueView::VText(s@),
        }
    }
}

impl DeepView for Value {
    type V = ValueView;

    open spec fn deep_view(&self) -> ValueView {
        self.view()
    }
}

impl PartialEq for Value {
    fn eq(&self, other: &Value) -> (r: bool) {
        match (self, other) {
            (Value::IdVal(a), Value::IdVal(b)) => *a == *b,
            (Value::IntVal(a), Value::IntVal(b)) => *a == *b,
            (Value::TextVal(a), Value::TextVal(b)) => chars_eq(a, b),
            _ => false,
        }
    }
}

impl vstd::std_specs::cmp::PartialEqSpecImpl for Value {
    open spec fn obeys_eq_spec() -> bool {
        true
    }

    open spec fn eq_spec(&self, other: &Value) -> bool {
        self@ == other@
    }
}

/// Duplicates a runtime value.
pub fn duplicate_value(v: &Value) -> (r: Value)
    ensures
        r@ == v@,
{
    match v {
        Value::IdVal(x) => Value::IdVal(*x),
        Value::IntVal(x) => Value::IntVal(*x),
        Value::TextVal(s) => Value::TextVal(clone_chars(s)),
    }
}

/// Duplicates an optional runtime value.
pub fn duplicate_slot(s: &Option<Value>) -> (r: Option<Value>)
    ensures
        r.deep_view() == s.deep_view(),
{
    match s {
        Some(v) => Some(duplicate_value(v)),
        None => None,
    }
}

/// Whether an identifier value is the designated sentinel.
pub open spec fn spec_is_sentinel(v: ValueView, sentinel: int) -> bool {
    v matches ValueView::VId(x) && x == sentinel
}

/// Tests a value against the injected sentinel policy.
pub fn is_sentinel_value(v: &Value, sentinel: i64) -> (r: bool)
    ensures
        r == spec_is_sentinel(v@, sentinel as int),
{
    match v {
        Value::IdVal(x) => *x == sentinel,
        _ => false,
    }
}

// ---------------------------------------------------------------------------
// Entities
// ---------------------------------------------------------------------------

/// One field of a produced entity. An absent value is lawful only for a
/// field whose entity-side shape is optional.
#[derive(Debug)]
pub struct EntityField {
    pub name: Vec<char>,
    pub value: Option<Value>,
}

/// A produced domain entity: its type name and its fields in declaration
/// order.
#[derive(Debug)]
pub struct EntityInstance {
    pub entity_name: Vec<char>,
    pub fields: Vec<EntityField>,
}

/// The first entity field bearing `name`, at or after `j`.
pub open spec fn spec_entity_field_from(fields: Seq<EntityField>, name: Seq<char>, j: int) -> Option<
    int,
>
    decreases fields.len() - j,
{
    if j < 0 || j >= fields.len() {
        None
    } else if fields[j].name@ == name {
        Some(j)
    } else {
        spec_entity_field_from(fields, name, j + 1)
    }
}

/// The value of the first entity field bearing `name`, if such a field
/// exists.
pub open spec fn spec_entity_lookup(e: EntityInstance, name: Seq<char>) -> Option<
    Option<ValueView>,
> {
    match spec_entity_field_from(e.fields@, name, 0) {
        Some(j) => Some(e.fields@[j].value.deep_view()),
        None => None,
    }
}

/// Copies out the value of the named entity field, if the field exists.
#[verifier::loop_isolation(false)]
pub fn entity_field_value(e: &EntityInstance, name: &Vec<char>) -> (r: Option<Option<Value>>)
    ensures
        match r {
            Some(s) => spec_entity_lookup(*e, name@) == Some(s.deep_view()),
            None => spec_entity_lookup(*e, name@) is None,
        },
{
    let mut j: usize = 0;
    while j < e.fields.len()
        invariant
            0 <= j <= e.fields@.len(),
            spec_entity_field_from(e.fields@, name@, 0) == spec_entity_field_from(
                e.fields@,
                name@,
                j as int,
            ),
        decreases e.fields@.len() - j,
    {
        if chars_eq(&e.fields[j].name, name) {
            return Some(duplicate_slot(&e.fields[j].value));
        }
        j += 1;
    }
    None
}

/// Structural equality of produced entities: same entity type, same fields
/// in the same order, same values.
pub open spec fn spec_entity_equiv(a: EntityInstance, b: EntityInstance) -> bool {
    &&& a.entity_name@ == b.entity_name@
    &&& a.fields@.len() == b.fields@.len()
    &&& forall|i: int|
        0 <= i < a.fields@.len() ==> (#[trigger] a.fields@[i]).name@ == b.fields@[i].name@
            && a.fields@[i].value.deep_view() == b.fields@[i].value.deep_view()
}

/// Compares two produced entities structurally.
#[verifier::loop_isolation(false)]
pub fn entity_eq(a: &EntityInstance, b: &EntityInstance) -> (r: bool)
    ensures
        r == spec_entity_equiv(*a, *b),
{
    if !chars_eq(&a.entity_name, &b.entity_name) {
        return false;
    }
    if a.fields.len() != b.fields.len() {
        return false;
    }
    let mut i: usize = 0;
    while i < a.fields.len()
        invariant
            0 <= i <= a.fields@.len(),
            a.fields@.len() == b.fields@.len(),
            a.entity_name@ == b.entity_name@,
            forall|j: int|
                0 <= j < i ==> (#[trigger] a.fields@[j]).name@ == b.fields@[j].name@
                    && a.fields@[j].value.deep_view() == b.fields@[j].value.deep_view(),
        decreases a.fields@.len() - i,
    {
        if !chars_eq(&a.fields[i].name, &b.fields[i].name) {
            return false;
        }
        let same = match (&a.fields[i].value, &b.fields[i].value) {
            (Some(x), Some(y)) => x == y,
            (None, None) => true,
            _ => false,
        };
        if !same {
            return false;
        }
        i += 1;
    }
    true
}

// ---------------------------------------------------------------------------
// Factory instances
// ---------------------------------------------------------------------------

/// A factory at run time: its schema, the injected sentinel of identifier
/// values, and one slot per field. A slot is absent only for a field of
/// optional declared shape.
pub struct FactoryInstance {
    pub schema: FactorySchema,
    pub sentinel: i64,
    pub slots: Vec<Option<Value>>,
}

/// Well-formedness: one slot per field, and plain-shaped fields always hold
/// a value.
pub open spec fn spec_factory_wf(f: FactoryInstance) -> bool {
    &&& f.slots@.len() == f.schema.fields@.len()
    &&& forall|i: int|
        0 <= i < f.schema.fields@.len() ==> (!spec_is_option(
            (#[trigger] f.schema.fields@[i]).ty,
        ) ==> f.slots@[i] is Some)
}

/// The slots of a factory, as mathematical values.
pub open spec fn spec_slots(f: FactoryInstance) -> Seq<Option<ValueView>> {
    f.slots.deep_view()
}

/// One slot of a factory, as a mathematical value.
pub open spec fn spec_slot(f: FactoryInstance, i: int) -> Option<ValueView> {
    f.slots@[i].deep_view()
}

/// The slot a fresh factory gives one field: optional shapes start absent;
/// key fields start at the canonical sentinel; other plain shapes start at
/// the empty or zero value of their type.
pub open spec fn spec_initial_slot(fs: FieldSpec, sentinel: int) -> Option<ValueView> {
    if spec_is_option(fs.ty) {
        None
    } else if fs.kind is PrimaryKey || fs.kind is ForeignKey {
        Some(ValueView::VId(sentinel))
    } else if spec_is_string(fs.ty) {
        Some(ValueView::VText(Seq::empty()))
    } else {
        Some(ValueView::VInt(0))
    }
}

/// The first field bearing `name`, at or after `j`.
pub open spec fn spec_field_index_from(fields: Seq<FieldSpec>, name: Seq<char>, j: int) -> Option<
    int,
>
    decreases fields.len() - j,
{
    if j < 0 || j >= fields.len() {
        None
    } else if fields[j].name@ == name {
        Some(j)
    } else {
        spec_field_index_from(fields, name, j + 1)
    }
}

/// The position of the first field bearing `name`, if any.
pub open spec fn spec_field_index(fields: Seq<FieldSpec>, name: Seq<char>) -> Option<int> {
    spec_field_index_from(fields, name, 0)
}

/// A found field position is in range and bears the looked-up name.
pub proof fn lemma_field_index_in_range(fields: Seq<FieldSpec>, name: Seq<char>, j: int)
    requires
        j >= 0,
    ensures
        spec_field_index_from(fields, name, j) matches Some(i) ==> j <= i < fields.len()
            && fields[i].name@ == name,
    decreases fields.len() - j,
{
    if j < fields.len() && fields[j].name@ != name {
        lemma_field_index_in_range(fields, name, j + 1);
    }
}

/// A required-marked field: declared optional, assembled unwrapped.
pub open spec fn spec_required_marked(fs: FieldSpec) -> bool {
    fs.kind is RequiredScalar && spec_is_option(fs.ty)
}

/// The first required-marked field whose slot is absent, at or after `i`.
pub open spec fn spec_missing_required_from(f: FactoryInstance, i: int) -> Option<int>
    decreases f.schema.fields@.len() - i,
{
    if i < 0 || i >= f.schema.fields@.len() {
        None
    } else if spec_required_marked(f.schema.fields@[i]) && f.slots@[i] is None {
        Some(i)
    } else {
        spec_missing_required_from(f, i + 1)
    }
}

/// The first required-marked field whose slot is absent, if any.
pub open spec fn spec_first_missing_required(f: FactoryInstance) -> Option<int> {
    spec_missing_required_from(f, 0)
}

/// What one entity field holds after the synchronous build: the sentinel
/// default for a primary key, the current slot for everything else (a
/// required-marked field is unwrapped on the entity side, an optional one
/// duplicated as-is).
pub open spec fn spec_build_slot(f: FactoryInstance, i: int) -> Option<ValueView> {
    if f.schema.fields@[i].kind is PrimaryKey {
        Some(ValueView::VId(f.sentinel as int))
    } else {
        spec_slot(f, i)
    }
}

/// What the synchronous build promises of the produced entity.
pub open spec fn spec_built_entity_matches(f: FactoryInstance, e: EntityInstance) -> bool {
    &&& e.entity_name@ == f.schema.entity_name@
    &&& e.fields@.len() == f.schema.fields@.len()
    &&& forall|i: int|
        0 <= i < f.schema.fields@.len() ==> (#[trigger] e.fields@[i]).name@
            == f.schema.fields@[i].name@ && e.fields@[i].value.deep_view() == spec_build_slot(f, i)
}

/// The diagnostic of the synchronous build's stop condition: the absent
/// required field and the setter that would have provided it.
#[derive(Debug)]
pub struct BuildAbort {
    pub field: Vec<char>,
    pub setter: Vec<char>,
}

impl FactoryInstance {
    /// Creates a factory with default values: optional fields absent, key
    /// fields at the injected sentinel, other plain fields empty or zero.
    #[verifier::loop_isolation(false)]
    pub fn new(schema: FactorySchema, sentinel: i64) -> (r: FactoryInstance)
        ensures
            r.schema == schema,
            r.sentinel == sentinel,
            spec_factory_wf(r),
            forall|i: int|
                0 <= i < schema.fields@.len() ==> spec_slot(r, i) == spec_initial_slot(
                    schema.fields@[i],
                    sentinel as int,
                ),
    {
        let mut slots: Vec<Option<Value>> = Vec::new();
        let mut i: usize = 0;
        while i < schema.fields.len()
            invariant
                0 <= i <= schema.fields@.len(),
                slots@.len() == i,
                forall|j: int|
                    0 <= j < i ==> (#[trigger] slots@[j]).deep_view() == spec_initial_slot(
                        schema.fields@[j],
                        sentinel as int,
                    ),
            decreases schema.fields@.len() - i,
        {
            let fs = &schema.fields[i];
            let slot: Option<Value> = if is_option_type(&fs.ty) {
                None
            } else {
                match &fs.kind {
                    FieldKind::PrimaryKey => Some(Value::IdVal(sentinel)),
                    FieldKind::ForeignKey(_) => Some(Value::IdVal(sentinel)),
                    _ => if is_string_type(&fs.ty) {
                        Some(Value::TextVal(Vec::new()))
                    } else {
                        Some(Value::IntVal(0))
                    },
                }
            };
            slots.push(slot);
            i += 1;
        }
        FactoryInstance { schema, sentinel, slots }
    }

    /// Finds the position of the named field.
    #[verifier::loop_isolation(false)]
    pub fn find_field(&self, name: &Vec<char>) -> (r: Option<usize>)
        ensures
            match r {
                Some(i) => spec_field_index(self.schema.fields@, name@) == Some(i as int) && i
                    < self.schema.fields@.len(),
                None => spec_field_index(self.schema.fields@, name@) is None,
            },
    {
        let mut i: usize = 0;
        while i < self.schema.fields.len()
            invariant
                0 <= i <= self.schema.fields@.len(),
                spec_field_index_from(self.schema.fields@, name@, 0) == spec_field_index_from(
                    self.schema.fields@,
                    name@,
                    i as int,
                ),
            decreases self.schema.fields@.len() - i,
        {
            if chars_eq(&self.schema.fields[i].name, name) {
                return Some(i);
            }
            i += 1;
        }
        None
    }

    /// Copies out the current slot of the named field.
    pub fn field_value(&self, name: &Vec<char>) -> (r: Option<Option<Value>>)
        requires
            spec_factory_wf(*self),
        ensures
            match r {
                Some(s) => spec_field_index(self.schema.fields@, name@) matches Some(i)
                    && s.deep_view() == spec_slot(*self, i),
                None => spec_field_index(self.schema.fields@, name@) is None,
            },
    {
        match self.find_field(name) {
            Some(i) => Some(duplicate_slot(&self.slots[i])),
            None => None,
        }
    }

    /// The fluent value setter: stores the given value in the named field,
    /// wrapped in "present" for an optional shape, directly otherwise.
    pub fn with_value(self, name: &Vec<char>, v: Value) -> (r: FactoryInstance)
        requires
            spec_factory_wf(self),
            spec_field_index(self.schema.fields@, name@) is Some,
        ensures
            r.schema == self.schema,
            r.sentinel == self.sentinel,
            spec_factory_wf(r),
            spec_field_index(self.schema.fields@, name@) matches Some(i) && spec_slots(r)
                == spec_slots(self).update(i, Some(v@)),
    {
        let i = match self.find_field(name) {
            Some(i) => i,
            None => {
                proof {
                    assert(false);
                }
                0
            },
        };
        let ghost before = spec_slots(self);
        let FactoryInstance { schema, sentinel, mut slots } = self;
        slots[i] = Some(v);
        let r = FactoryInstance { schema, sentinel, slots };
        proof {
            assert(spec_slots(r) =~= before.update(i as int, Some(v@)));
        }
        r
    }

    /// The fluent entity setter: copies the named field of the given target
    /// entity into the foreign-key field, wrapped per the declared shape.
    pub fn with_entity(self, name: &Vec<char>, entity: &EntityInstance) -> (r: FactoryInstance)
        requires
            spec_factory_wf(self),
            spec_field_index(self.schema.fields@, name@) matches Some(i) && ({
                &&& self.schema.fields@[i].kind matches FieldKind::ForeignKey(d)
                &&& spec_entity_lookup(*entity, d.target_field@) matches Some(w)
                &&& w is Some
            }),
        ensures
            r.schema == self.schema,
            r.sentinel == self.sentinel,
            spec_factory_wf(r),
            spec_field_index(self.schema.fields@, name@) matches Some(i) && ({
                &&& self.schema.fields@[i].kind matches FieldKind::ForeignKey(d)
                &&& spec_entity_lookup(*entity, d.target_field@) matches Some(w)
                &&& spec_slots(r) == spec_slots(self).update(i, w)
            }),
    {
        let i = match self.find_field(name) {
            Some(i) => i,
            None => {
                proof {
                    assert(false);
                }
                0
            },
        };
        let looked = match &self.schema.fields[i].kind {
            FieldKind::ForeignKey(d) => entity_field_value(entity, &d.target_field),
            _ => {
                proof {
                    assert(false);
                }
                None
            },
        };
        let w = match looked {
            Some(Some(v)) => v,
            _ => {
                proof {
                    assert(false);
                }
                Value::IdVal(0)
            },
        };
        let ghost before = spec_slots(self);
        let FactoryInstance { schema, sentinel, mut slots } = self;
        slots[i] = Some(w);
        let r = FactoryInstance { schema, sentinel, slots };
        proof {
            assert(spec_slots(r) =~= before.update(i as int, Some(w@)));
        }
        r
    }

    /// Builds the entity in memory, synchronously: primary keys take the
    /// default, everything else takes its current slot, duplicated or copied
    /// per shape. No dependency creation is consulted; the caller owes every
    /// required-marked field a value.
    #[verifier::loop_isolation(false)]
    pub fn build(&self) -> (r: EntityInstance)
        requires
            spec_factory_wf(*self),
            spec_first_missing_required(*self) is None,
        ensures
            spec_built_entity_matches(*self, r),
    {
        let mut out: Vec<EntityField> = Vec::new();
        let mut i: usize = 0;
        while i < self.schema.fields.len()
            invariant
                0 <= i <= self.schema.fields@.len(),
                out@.len() == i,
                forall|j: int|
                    0 <= j < i ==> (#[trigger] out@[j]).name@ == self.schema.fields@[j].name@
                        && out@[j].value.deep_view() == spec_build_slot(*self, j),
            decreases self.schema.fields@.len() - i,
        {
            let fs = &self.schema.fields[i];
            let value: Option<Value> = match &fs.kind {
                FieldKind::PrimaryKey => Some(Value::IdVal(self.sentinel)),
                _ => duplicate_slot(&self.slots[i]),
            };
            out.push(EntityField { name: clone_chars(&fs.name), value });
            i += 1;
        }
        EntityInstance { entity_name: clone_chars(&self.schema.entity_name), fields: out }
    }

    /// The total form of the synchronous build: produces the entity, or the
    /// stop diagnostic naming the first absent required field and its
    /// setter.
    #[verifier::loop_isolation(false)]
    pub fn try_build(&self) -> (r: Result<EntityInstance, BuildAbort>)
        requires
            spec_factory_wf(*self),
        ensures
            match r {
                Ok(e) => spec_first_missing_required(*self) is None && spec_built_entity_matches(
                    *self,
                    e,
                ),
                Err(a) => ({
                    &&& spec_first_missing_required(*self) matches Some(i)
                    &&& a.field@ == self.schema.fields@[i].name@
                    &&& a.setter@ == spec_with_name(self.schema.fields@[i].name@)
                }),
            },
    {
        let mut i: usize = 0;
        while i < self.schema.fields.len()
            invariant
                0 <= i <= self.schema.fields@.len(),
                spec_missing_required_from(*self, 0) == spec_missing_required_from(*self, i as int),
            decreases self.schema.fields@.len() - i,
        {
            let fs = &self.schema.fields[i];
            let marked = match &fs.kind {
                FieldKind::RequiredScalar => is_option_type(&fs.ty),
                _ => false,
            };
            if marked && self.slots[i].is_none() {
                let with_prefix = chars_of("with_");
                return Err(
                    BuildAbort {
                        field: clone_chars(&fs.name),
                        setter: concat_chars(&with_prefix, &fs.name),
                    },
                );
            }
            i += 1;
        }
        Ok(self.build())
    }
}

// ---------------------------------------------------------------------------
// Laws of the synchronous path
// ---------------------------------------------------------------------------

/// Law: a fresh factory leaves every foreign-key field absent (optional
/// shape) or at the sentinel (plain shape), and every non-FK optional field
/// absent.
pub proof fn lemma_new_unset(fs: FieldSpec, sentinel: int)
    ensures
        fs.kind is ForeignKey && spec_is_option(fs.ty) ==> spec_initial_slot(fs, sentinel) is None,
        fs.kind is ForeignKey && !spec_is_option(fs.ty) ==> spec_initial_slot(fs, sentinel)
            == Some(ValueView::VId(sentinel)),
        !(fs.kind is ForeignKey) && !(fs.kind is PrimaryKey) && spec_is_option(fs.ty)
            ==> spec_initial_slot(fs, sentinel) is None,
{
}

/// Law: of two setters aimed at the same field, the later one wins — the
/// factory's final value for that field is the later setter's, whichever
/// order the identifier-setter and the entity-setter ran in.
pub proof fn lemma_last_setter_wins(
    f0: FactoryInstance,
    f1: FactoryInstance,
    f2: FactoryInstance,
    i: int,
    a: Option<ValueView>,
    b: Option<ValueView>,
)
    requires
        0 <= i < spec_slots(f0).len(),
        spec_slots(f1) == spec_slots(f0).update(i, a),
        spec_slots(f2) == spec_slots(f1).update(i, b),
    ensures
        spec_slots(f2) == spec_slots(f0).update(i, b),
        spec_slots(f2)[i] == b,
{
    assert(spec_slots(f2) =~= spec_slots(f0).update(i, b));
}

/// Law: the synchronous build is a function of the factory alone — two
/// builds of the same unmodified factory produce structurally equal
/// entities.
pub proof fn lemma_build_idempotent(f: FactoryInstance, e1: EntityInstance, e2: EntityInstance)
    requires
        spec_built_entity_matches(f, e1),
        spec_built_entity_matches(f, e2),
    ensures
        spec_entity_equiv(e1, e2),
{
}

} // verus!
