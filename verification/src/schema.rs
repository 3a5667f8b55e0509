//! Schema parser: reads the declarative attributes attached to a factory
//! declaration and produces a structured, validated schema.
//!
//! A declaration carries attributes of three recognized markers per field —
//! primary key (`pk`), foreign key (`fk`, with three required positional
//! arguments and an optional suppress marker), and required scalar
//! (`required`) — plus one factory-level attribute naming the entity type.

use vstd::prelude::*;

use crate::shape::{is_option_type, spec_is_option, TypeExpr};
use crate::text::{chars_eq, chars_of, clone_chars};

verus! {

// ---------------------------------------------------------------------------
// Declaration model
// ---------------------------------------------------------------------------

/// One positional or named argument of a declarative attribute.
pub enum AttrArg {
    /// A bare identifier argument, such as a type or factory name.
    ArgIdent(Vec<char>),
    /// A string-literal argument, such as a target field name.
    ArgText(Vec<char>),
    /// A `key = value` argument.
    ArgAssign { key: Vec<char>, value: Vec<char> },
}

/// One declarative attribute: its name and its argument list.
pub struct AttrDecl {
    pub name: Vec<char>,
    pub args: Vec<AttrArg>,
}

/// One declared factory field: its identifier, declared type and attributes.
pub struct FieldDecl {
    pub name: Vec<char>,
    pub ty: TypeExpr,
    pub attrs: Vec<AttrDecl>,
}

/// A whole factory declaration.
pub struct FactoryDecl {
    pub name: Vec<char>,
    pub attrs: Vec<AttrDecl>,
    pub fields: Vec<FieldDecl>,
}

// ---------------------------------------------------------------------------
// Schema model
// ---------------------------------------------------------------------------

/// A foreign-key descriptor: the dependency one factory field declares.
pub struct FkDescriptor {
    pub target_entity: Vec<char>,
    pub target_field: Vec<char>,
    pub target_factory: Vec<char>,
    pub suppress_auto_create: bool,
}

/// The disjoint semantic category of one field.
pub enum FieldKind {
    PrimaryKey,
    ForeignKey(FkDescriptor),
    OptionalScalar,
    RequiredScalar,
}

/// One classified field: identifier, raw declared shape and category.
pub struct FieldSpec {
    pub name: Vec<char>,
    pub ty: TypeExpr,
    pub kind: FieldKind,
}

/// The validated schema of one factory declaration.
pub struct FactorySchema {
    pub factory_name: Vec<char>,
    pub entity_name: Vec<char>,
    pub fields: Vec<FieldSpec>,
}

/// A generation-time diagnostic: the declaration itself is unusable.
#[derive(Debug)]
pub enum SchemaError {
    /// The factory-level attribute naming the entity type is absent or
    /// carries no entity assignment.
    MissingEntityAttr,
    /// A foreign-key attribute's argument list does not have the required
    /// form; the payload names the offending field.
    MalformedFkAttr { field: Vec<char> },
}

// ---------------------------------------------------------------------------
// Attribute lookup specifications
// ---------------------------------------------------------------------------

/// Whether some attribute in the list bears the given name.
pub open spec fn spec_has_attr(attrs: Seq<AttrDecl>, name: Seq<char>) -> bool {
    exists|i: int| 0 <= i < attrs.len() && attrs[i].name@ == name
}

/// The characters carried by an attribute argument (the value, for an
/// assignment).
pub open spec fn spec_arg_chars(a: AttrArg) -> Seq<char> {
    match a {
        AttrArg::ArgIdent(s) => s@,
        AttrArg::ArgText(s) => s@,
        AttrArg::ArgAssign { key: _, value } => value@,
    }
}

/// Whether an argument assigns the entity name.
pub open spec fn spec_is_entity_assign(a: AttrArg) -> bool {
    a matches AttrArg::ArgAssign { key, value: _ } && key@ == "entity"@
}

/// The first entity assignment in the argument list at or after `j`.
pub open spec fn spec_entity_assign_from(args: Seq<AttrArg>, j: int) -> Option<Seq<char>>
    decreases args.len() - j,
{
    if j < 0 || j >= args.len() {
        None
    } else if spec_is_entity_assign(args[j]) {
        Some(spec_arg_chars(args[j]))
    } else {
        spec_entity_assign_from(args, j + 1)
    }
}

/// The first entity assignment in an argument list, if any.
pub open spec fn spec_entity_assign(args: Seq<AttrArg>) -> Option<Seq<char>> {
    spec_entity_assign_from(args, 0)
}

/// Whether an attribute is a factory header carrying an entity assignment.
pub open spec fn spec_is_entity_header(a: AttrDecl) -> bool {
    a.name@ == "factory"@ && spec_entity_assign(a.args@) is Some
}

/// The entity name given by the first usable factory header at or after `i`.
pub open spec fn spec_factory_entity_from(attrs: Seq<AttrDecl>, i: int) -> Option<Seq<char>>
    decreases attrs.len() - i,
{
    if i < 0 || i >= attrs.len() {
        None
    } else if spec_is_entity_header(attrs[i]) {
        spec_entity_assign(attrs[i].args@)
    } else {
        spec_factory_entity_from(attrs, i + 1)
    }
}

/// The entity name given by the first usable factory header, if any.
pub open spec fn spec_factory_entity(attrs: Seq<AttrDecl>) -> Option<Seq<char>> {
    spec_factory_entity_from(attrs, 0)
}

/// The index of the first foreign-key attribute at or after `i`, if any.
pub open spec fn spec_fk_attr_from(attrs: Seq<AttrDecl>, i: int) -> Option<int>
    decreases attrs.len() - i,
{
    if i < 0 || i >= attrs.len() {
        None
    } else if attrs[i].name@ == "fk"@ {
        Some(i)
    } else {
        spec_fk_attr_from(attrs, i + 1)
    }
}

/// The index of the first foreign-key attribute, if any.
pub open spec fn spec_fk_attr_index(attrs: Seq<AttrDecl>) -> Option<int> {
    spec_fk_attr_from(attrs, 0)
}

// ---------------------------------------------------------------------------
// Foreign-key argument form
// ---------------------------------------------------------------------------

/// The required form of a foreign-key argument list: target entity
/// identifier, target field as a string literal, target factory identifier,
/// and an optional fourth identifier token.
pub open spec fn spec_fk_args_wellformed(args: Seq<AttrArg>) -> bool {
    &&& (args.len() == 3 || args.len() == 4)
    &&& args[0] is ArgIdent
    &&& args[1] is ArgText
    &&& args[2] is ArgIdent
    &&& (args.len() == 4 ==> args[3] is ArgIdent)
}

/// Whether a descriptor records exactly what a well-formed foreign-key
/// argument list declares. Auto-creation is suppressed exactly when the
/// optional fourth token is the recognized suppress marker.
pub open spec fn spec_fk_descriptor_matches(d: FkDescriptor, args: Seq<AttrArg>) -> bool
    recommends
        spec_fk_args_wellformed(args),
{
    &&& d.target_entity@ == spec_arg_chars(args[0])
    &&& d.target_field@ == spec_arg_chars(args[1])
    &&& d.target_factory@ == spec_arg_chars(args[2])
    &&& d.suppress_auto_create == (args.len() == 4 && spec_arg_chars(args[3]) == "no_default"@)
}

// ---------------------------------------------------------------------------
// Field classification
// ---------------------------------------------------------------------------

/// A field is malformed when it is not a primary key and its first
/// foreign-key attribute does not have the required argument form.
pub open spec fn spec_field_malformed(f: FieldDecl) -> bool {
    &&& !spec_has_attr(f.attrs@, "pk"@)
    &&& match spec_fk_attr_index(f.attrs@) {
        Some(i) => !spec_fk_args_wellformed(f.attrs@[i].args@),
        None => false,
    }
}

/// Whether `k` is the category the declaration assigns to `f`: the
/// primary-key marker wins, then a foreign-key attribute, then the
/// required-scalar marker; an unmarked field is optional or required scalar
/// by its declared shape.
pub open spec fn spec_kind_matches(k: FieldKind, f: FieldDecl) -> bool
    recommends
        !spec_field_malformed(f),
{
    if spec_has_attr(f.attrs@, "pk"@) {
        k is PrimaryKey
    } else {
        match spec_fk_attr_index(f.attrs@) {
            Some(i) => k matches FieldKind::ForeignKey(d) && spec_fk_descriptor_matches(
                d,
                f.attrs@[i].args@,
            ),
            None => if spec_has_attr(f.attrs@, "required"@) {
                k is RequiredScalar
            } else if spec_is_option(f.ty) {
                k is OptionalScalar
            } else {
                k is RequiredScalar
            },
        }
    }
}

/// The index of the first malformed field at or after `i`, if any.
pub open spec fn spec_first_malformed_from(fields: Seq<FieldDecl>, i: int) -> Option<int>
    decreases fields.len() - i,
{
    if i < 0 || i >= fields.len() {
        None
    } else if spec_field_malformed(fields[i]) {
        Some(i)
    } else {
        spec_first_malformed_from(fields, i + 1)
    }
}

/// The index of the first malformed field, if any.
pub open spec fn spec_first_malformed(fields: Seq<FieldDecl>) -> Option<int> {
    spec_first_malformed_from(fields, 0)
}

/// What a successful parse promises of the produced schema.
pub open spec fn spec_schema_matches(s: FactorySchema, decl: FactoryDecl) -> bool {
    &&& s.factory_name@ == decl.name@
    &&& spec_factory_entity(decl.attrs@) == Some(s.entity_name@)
    &&& s.fields@.len() == decl.fields@.len()
    &&& forall|i: int|
        0 <= i < decl.fields@.len() ==> {
            &&& (#[trigger] s.fields@[i]).name@ == decl.fields@[i].name@
            &&& s.fields@[i].ty == decl.fields@[i].ty
            &&& spec_kind_matches(s.fields@[i].kind, decl.fields@[i])
        }
}

// ---------------------------------------------------------------------------
// Executable lookups
// ---------------------------------------------------------------------------

/// Checks whether the field bears an attribute of the given name.
pub fn has_attr(field: &FieldDecl, name: &Vec<char>) -> (r: bool)
    ensures
        r == spec_has_attr(field.attrs@, name@),
{
    let mut i: usize = 0;
    while i < field.attrs.len()
        invariant
            0 <= i <= field.attrs@.len(),
            forall|j: int| 0 <= j < i ==> (#[trigger] field.attrs@[j]).name@ != name@,
        decreases field.attrs@.len() - i,
    {
        if chars_eq(&field.attrs[i].name, name) {
            assert(field.attrs@[i as int].name@ == name@);
            return true;
        }
        i += 1;
    }
    false
}

/// Finds the first foreign-key attribute of a field.
fn find_fk_attr(attrs: &Vec<AttrDecl>) -> (r: Option<usize>)
    ensures
        match r {
            Some(i) => spec_fk_attr_index(attrs@) == Some(i as int) && i < attrs@.len()
                && attrs@[i as int].name@ == "fk"@,
            None => spec_fk_attr_index(attrs@) is None,
        },
{
    let marker = chars_of("fk");
    let mut i: usize = 0;
    while i < attrs.len()
        invariant
            0 <= i <= attrs@.len(),
            marker@ == "fk"@,
            spec_fk_attr_from(attrs@, 0) == spec_fk_attr_from(attrs@, i as int),
        decreases attrs@.len() - i,
    {
        if chars_eq(&attrs[i].name, &marker) {
            return Some(i);
        }
        i += 1;
    }
    None
}

/// Finds the first entity assignment among an attribute's arguments.
fn find_entity_assign(args: &Vec<AttrArg>) -> (r: Option<usize>)
    ensures
        match r {
            Some(j) => j < args@.len() && spec_is_entity_assign(args@[j as int])
                && spec_entity_assign(args@) == Some(spec_arg_chars(args@[j as int])),
            None => spec_entity_assign(args@) is None,
        },
{
    let marker = chars_of("entity");
    let mut j: usize = 0;
    while j < args.len()
        invariant
            0 <= j <= args@.len(),
            marker@ == "entity"@,
            spec_entity_assign_from(args@, 0) == spec_entity_assign_from(args@, j as int),
        decreases args@.len() - j,
    {
        let hit = match &args[j] {
            AttrArg::ArgAssign { key, value: _ } => chars_eq(key, &marker),
            _ => false,
        };
        if hit {
            return Some(j);
        }
        assert(!spec_is_entity_assign(args@[j as int]));
        j += 1;
    }
    None
}

/// Locates the single factory header and copies out the declared entity
/// name, scanning attributes in declaration order.
pub fn parse_factory_attr(attrs: &Vec<AttrDecl>) -> (r: Option<Vec<char>>)
    ensures
        match r {
            Some(e) => spec_factory_entity(attrs@) == Some(e@),
            None => spec_factory_entity(attrs@) is None,
        },
{
    let marker = chars_of("factory");
    let mut i: usize = 0;
    while i < attrs.len()
        invariant
            0 <= i <= attrs@.len(),
            marker@ == "factory"@,
            spec_factory_entity_from(attrs@, 0) == spec_factory_entity_from(attrs@, i as int),
        decreases attrs@.len() - i,
    {
        if chars_eq(&attrs[i].name, &marker) {
            match find_entity_assign(&attrs[i].args) {
                Some(j) => {
                    assert(spec_is_entity_header(attrs@[i as int]));
                    let value = match &attrs[i].args[j] {
                        AttrArg::ArgAssign { key: _, value } => clone_chars(value),
                        _ => {
                            proof {
                                assert(false);
                            }
                            Vec::new()
                        },
                    };
                    assert(spec_entity_assign(attrs@[i as int].args@) == Some(value@));
                    return Some(value);
                },
                None => {
                    assert(!spec_is_entity_header(attrs@[i as int]));
                },
            }
        } else {
            assert(!spec_is_entity_header(attrs@[i as int]));
        }
        i += 1;
    }
    None
}

/// Reads the first foreign-key attribute of a field into a descriptor.
/// Returns nothing when the field has no such attribute, and a diagnostic
/// when the argument list is malformed.
pub fn parse_fk_attr(field: &FieldDecl) -> (r: Result<Option<FkDescriptor>, SchemaError>)
    ensures
        match r {
            Ok(Some(d)) => ({
                &&& spec_fk_attr_index(field.attrs@) matches Some(i)
                &&& spec_fk_args_wellformed(field.attrs@[i].args@)
                &&& spec_fk_descriptor_matches(d, field.attrs@[i].args@)
            }),
            Ok(None) => spec_fk_attr_index(field.attrs@) is None,
            Err(e) => ({
                &&& spec_fk_attr_index(field.attrs@) matches Some(i)
                &&& !spec_fk_args_wellformed(field.attrs@[i].args@)
                &&& e matches SchemaError::MalformedFkAttr { field: n }
                &&& n@ == field.name@
            }),
        },
{
    let at = match find_fk_attr(&field.attrs) {
        Some(i) => i,
        None => {
            return Ok(None);
        },
    };
    let args = &field.attrs[at].args;
    if !(args.len() == 3 || args.len() == 4) {
        return Err(SchemaError::MalformedFkAttr { field: clone_chars(&field.name) });
    }
    let target_entity = match &args[0] {
        AttrArg::ArgIdent(s) => clone_chars(s),
        _ => {
            return Err(SchemaError::MalformedFkAttr { field: clone_chars(&field.name) });
        },
    };
    let target_field = match &args[1] {
        AttrArg::ArgText(s) => clone_chars(s),
        _ => {
            return Err(SchemaError::MalformedFkAttr { field: clone_chars(&field.name) });
        },
    };
    let target_factory = match &args[2] {
        AttrArg::ArgIdent(s) => clone_chars(s),
        _ => {
            return Err(SchemaError::MalformedFkAttr { field: clone_chars(&field.name) });
        },
    };
    let suppress_auto_create = if args.len() == 4 {
        match &args[3] {
            AttrArg::ArgIdent(flag) => {
                let suppress_marker = chars_of("no_default");
                chars_eq(flag, &suppress_marker)
            },
            _ => {
                return Err(SchemaError::MalformedFkAttr { field: clone_chars(&field.name) });
            },
        }
    } else {
        false
    };
    Ok(
        Some(
            FkDescriptor {
                target_entity,
                target_field,
                target_factory,
                suppress_auto_create,
            },
        ),
    )
}

/// Classifies one declared field into its category.
fn classify_field(field: &FieldDecl) -> (r: Result<FieldKind, SchemaError>)
    ensures
        match r {
            Ok(k) => !spec_field_malformed(*field) && spec_kind_matches(k, *field),
            Err(e) => ({
                &&& spec_field_malformed(*field)
                &&& e matches SchemaError::MalformedFkAttr { field: n }
                &&& n@ == field.name@
            }),
        },
{
    let pk_marker = chars_of("pk");
    if has_attr(field, &pk_marker) {
        return Ok(FieldKind::PrimaryKey);
    }
    match parse_fk_attr(field) {
        Err(e) => Err(e),
        Ok(Some(d)) => Ok(FieldKind::ForeignKey(d)),
        Ok(None) => {
            let required_marker = chars_of("required");
            if has_attr(field, &required_marker) {
                Ok(FieldKind::RequiredScalar)
            } else if is_option_type(&field.ty) {
                Ok(FieldKind::OptionalScalar)
            } else {
                Ok(FieldKind::RequiredScalar)
            }
        },
    }
}

/// Parses a factory declaration into its validated schema.
///
/// Fails with a diagnostic when the entity-naming attribute is absent, or —
/// pointing at the first offending field — when a foreign-key argument list
/// is malformed.
#[verifier::loop_isolation(false)]
pub fn parse_factory(decl: FactoryDecl) -> (r: Result<FactorySchema, SchemaError>)
    ensures
        match r {
            Ok(s) => spec_first_malformed(decl.fields@) is None && spec_schema_matches(s, decl),
            Err(SchemaError::MissingEntityAttr) => spec_factory_entity(decl.attrs@) is None,
            Err(SchemaError::MalformedFkAttr { field }) => ({
                &&& spec_factory_entity(decl.attrs@) is Some
                &&& spec_first_malformed(decl.fields@) matches Some(b)
                &&& field@ == decl.fields@[b].name@
            }),
        },
{
    let ghost decl0 = decl;
    let FactoryDecl { name: factory_name, attrs, fields: decl_fields } = decl;
    let entity_name = match parse_factory_attr(&attrs) {
        Some(e) => e,
        None => {
            return Err(SchemaError::MissingEntityAttr);
        },
    };
    let ghost all = decl_fields@;
    assert(all == decl0.fields@);
    let mut remaining = decl_fields;
    let mut fields: Vec<FieldSpec> = Vec::new();
    while remaining.len() > 0
        invariant
            fields@.len() + remaining@.len() == all.len(),
            remaining@ =~= all.skip(fields@.len() as int),
            spec_first_malformed_from(all, 0) == spec_first_malformed_from(
                all,
                fields@.len() as int,
            ),
            forall|j: int|
                0 <= j < fields@.len() ==> {
                    &&& (#[trigger] fields@[j]).name@ == all[j].name@
                    &&& fields@[j].ty == all[j].ty
                    &&& spec_kind_matches(fields@[j].kind, all[j])
                },
        decreases remaining@.len(),
    {
        let ghost done = fields@.len() as int;
        assert(remaining@[0] == all.skip(done)[0]);
        let f = remaining.remove(0);
        assert(f == all[done]);
        let kind = match classify_field(&f) {
            Ok(k) => k,
            Err(e) => {
                assert(spec_first_malformed_from(all, done) == Some(done));
                return Err(e);
            },
        };
        let FieldDecl { name, ty, attrs: _ } = f;
        fields.push(FieldSpec { name, ty, kind });
        proof {
            assert(remaining@ =~= all.skip(fields@.len() as int));
        }
    }
    assert(spec_first_malformed_from(all, all.len() as int) is None);
    Ok(
        FactorySchema {
            factory_name,
            entity_name,
            fields,
        },
    )
}

} // verus!
