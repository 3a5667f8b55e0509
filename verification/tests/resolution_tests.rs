//! Tests of the dependency-resolution protocol, the schema parser's
//! diagnostics, the type classifier and the synthesized plans.

use factory_engine::emit::derive_factory;
use factory_engine::engine::{
    entity_field_value, EntityField, EntityInstance, FactoryInstance, Value,
};
use factory_engine::resolve::CreationOutcome;
use factory_engine::schema::{
    parse_factory, AttrArg, AttrDecl, FactoryDecl, FieldDecl, SchemaError,
};
use factory_engine::shape::{
    extract_option_inner_type, is_option_type, is_string_type, needs_clone, TypeExpr,
};
use factory_engine::synth::{fk_method_name, BuildAction, SetterAccepts};

fn chars(s: &str) -> Vec<char> {
    s.chars().collect()
}

fn plain_ty(name: &str) -> TypeExpr {
    TypeExpr { segments: vec![chars(name)], args: vec![] }
}

fn option_ty(inner: &str) -> TypeExpr {
    TypeExpr { segments: vec![chars("Option")], args: vec![plain_ty(inner)] }
}

fn marker_attr(name: &str) -> AttrDecl {
    AttrDecl { name: chars(name), args: vec![] }
}

fn factory_attr(entity: &str) -> AttrDecl {
    AttrDecl {
        name: chars("factory"),
        args: vec![AttrArg::ArgAssign { key: chars("entity"), value: chars(entity) }],
    }
}

fn fk_attr(entity: &str, field: &str, factory: &str) -> AttrDecl {
    AttrDecl {
        name: chars("fk"),
        args: vec![
            AttrArg::ArgIdent(chars(entity)),
            AttrArg::ArgText(chars(field)),
            AttrArg::ArgIdent(chars(factory)),
        ],
    }
}

fn fk_attr_no_default(entity: &str, field: &str, factory: &str) -> AttrDecl {
    AttrDecl {
        name: chars("fk"),
        args: vec![
            AttrArg::ArgIdent(chars(entity)),
            AttrArg::ArgText(chars(field)),
            AttrArg::ArgIdent(chars(factory)),
            AttrArg::ArgIdent(chars("no_default")),
        ],
    }
}

fn field(name: &str, ty: TypeExpr, attrs: Vec<AttrDecl>) -> FieldDecl {
    FieldDecl { name: chars(name), ty, attrs }
}

fn created(entity_name: &str, field_name: &str, id: i64) -> CreationOutcome {
    CreationOutcome::Created(EntityInstance {
        entity_name: chars(entity_name),
        fields: vec![EntityField { name: chars(field_name), value: Some(Value::IdVal(id)) }],
    })
}

// ---------------------------------------------------------------------------
// Parser diagnostics
// ---------------------------------------------------------------------------

#[test]
fn test_missing_entity_attr_is_rejected() {
    let decl = FactoryDecl {
        name: chars("BareFactory"),
        attrs: vec![],
        fields: vec![field("id", plain_ty("BareId"), vec![marker_attr("pk")])],
    };
    assert!(matches!(parse_factory(decl), Err(SchemaError::MissingEntityAttr)));
}

#[test]
fn test_malformed_fk_args_are_rejected() {
    let short_fk = AttrDecl {
        name: chars("fk"),
        args: vec![AttrArg::ArgIdent(chars("Practice")), AttrArg::ArgText(chars("id"))],
    };
    let decl = FactoryDecl {
        name: chars("BrokenFactory"),
        attrs: vec![factory_attr("Broken")],
        fields: vec![
            field("id", plain_ty("BrokenId"), vec![marker_attr("pk")]),
            field("practice_id", plain_ty("PracticeId"), vec![short_fk]),
        ],
    };
    match parse_factory(decl) {
        Err(SchemaError::MalformedFkAttr { field }) => assert_eq!(field, chars("practice_id")),
        _ => panic!("a malformed foreign-key argument list must fail generation"),
    }
}

// ---------------------------------------------------------------------------
// Type classifier
// ---------------------------------------------------------------------------

#[test]
fn test_malformed_fourth_fk_token_is_rejected() {
    let odd_fk = AttrDecl {
        name: chars("fk"),
        args: vec![
            AttrArg::ArgIdent(chars("Practice")),
            AttrArg::ArgText(chars("id")),
            AttrArg::ArgIdent(chars("PracticeFactory")),
            AttrArg::ArgText(chars("no_default")),
        ],
    };
    let decl = FactoryDecl {
        name: chars("OddFactory"),
        attrs: vec![factory_attr("Odd")],
        fields: vec![field("practice_id", plain_ty("PracticeId"), vec![odd_fk])],
    };
    match parse_factory(decl) {
        Err(SchemaError::MalformedFkAttr { field }) => assert_eq!(field, chars("practice_id")),
        _ => panic!("a non-identifier fourth token must fail generation"),
    }
}

#[test]
fn test_unrecognized_fourth_fk_token_does_not_suppress() {
    let decl = FactoryDecl {
        name: chars("FlagFactory"),
        attrs: vec![factory_attr("Flagged")],
        fields: vec![
            field("id", plain_ty("FlagId"), vec![marker_attr("pk")]),
            field(
                "person_id",
                option_ty("PersonId"),
                vec![AttrDecl {
                    name: chars("fk"),
                    args: vec![
                        AttrArg::ArgIdent(chars("Person")),
                        AttrArg::ArgText(chars("id")),
                        AttrArg::ArgIdent(chars("PersonFactory")),
                        AttrArg::ArgIdent(chars("other_flag")),
                    ],
                }],
            ),
        ],
    };
    // An unrecognized flag leaves auto-creation enabled: resolving the unset
    // field performs one creation.
    let factory = FactoryInstance::new(parse_factory(decl).unwrap(), 0);
    let outcomes = vec![created("Person", "id", 12)];
    let report = factory.build_with_fks(&outcomes);
    assert_eq!(report.requested.len(), 1);
}

#[test]
fn test_empty_factory_builds_empty_entity() {
    let decl = FactoryDecl {
        name: chars("EmptyFactory"),
        attrs: vec![factory_attr("Empty")],
        fields: vec![],
    };
    let factory = FactoryInstance::new(parse_factory(decl).unwrap(), 0);
    let entity = factory.build();
    assert_eq!(entity.entity_name, chars("Empty"));
    assert_eq!(entity.fields.len(), 0);

    let outcomes: Vec<CreationOutcome> = vec![];
    let report = factory.build_with_fks(&outcomes);
    assert_eq!(report.requested.len(), 0);
    assert!(report.outcome.is_ok());
}

#[test]
fn test_classifier_shape_answers() {
    assert!(is_option_type(&option_ty("PracticeId")));
    assert!(!is_option_type(&plain_ty("PracticeId")));

    let optional_text = option_ty("String");
    let inner = extract_option_inner_type(&optional_text).unwrap();
    assert!(is_string_type(inner));
    assert!(!is_string_type(&plain_ty("PracticeId")));

    assert!(!needs_clone(&plain_ty("i64")));
    assert!(!needs_clone(&plain_ty("bool")));
    assert!(!needs_clone(&plain_ty("u128")));
    assert!(!needs_clone(&plain_ty("char")));
    assert!(needs_clone(&plain_ty("String")));
    assert!(needs_clone(&plain_ty("PracticeId")));
}

// ---------------------------------------------------------------------------
// Setter naming
// ---------------------------------------------------------------------------

#[test]
fn test_fk_method_name_convention() {
    assert_eq!(fk_method_name(&chars("practice_id")), chars("with_practice"));
    assert_eq!(fk_method_name(&chars("tenant_id")), chars("with_tenant"));
    assert_eq!(fk_method_name(&chars("procedure_id_origin")), chars("with_procedure_origin"));
    assert_eq!(fk_method_name(&chars("owner")), chars("with_owner"));
    // A bare identifier suffix strips to the bare fluent prefix.
    assert_eq!(fk_method_name(&chars("_id")), chars("with_"));
    // Overlapping medial occurrences collapse left to right.
    assert_eq!(fk_method_name(&chars("a_id_id_b")), chars("with_a_id_b"));
}

// ---------------------------------------------------------------------------
// The emitted unit
// ---------------------------------------------------------------------------

#[test]
fn test_emitted_unit_fragments() {
    let decl = FactoryDecl {
        name: chars("PatientFactory"),
        attrs: vec![factory_attr("Patient")],
        fields: vec![
            field("id", plain_ty("PatientId"), vec![marker_attr("pk")]),
            field(
                "practice_id",
                plain_ty("PracticeId"),
                vec![fk_attr("Practice", "id", "PracticeFactory")],
            ),
            field(
                "tenant_id",
                option_ty("TenantId"),
                vec![fk_attr_no_default("Tenant", "id", "TenantFactory")],
            ),
            field("first_name", option_ty("String"), vec![]),
        ],
    };
    let unit = derive_factory(decl).ok().expect("the declaration is well-formed");

    assert_eq!(unit.schema.entity_name, chars("Patient"));
    assert_eq!(unit.sets.primary_key, vec![0]);
    assert_eq!(unit.sets.foreign_key, vec![1, 2]);
    assert_eq!(unit.sets.optional_scalar, vec![3]);
    assert_eq!(unit.sets.required_scalar, Vec::<usize>::new());

    // Two setters per FK field, then one per optional scalar.
    assert_eq!(unit.setters.len(), 5);
    assert_eq!(unit.setters[0].method_name, chars("with_practice"));
    assert!(!unit.setters[0].wraps);
    assert!(matches!(
        &unit.setters[0].accepts,
        SetterAccepts::EntityRef { target_entity, target_field }
            if *target_entity == chars("Practice") && *target_field == chars("id")
    ));
    assert_eq!(unit.setters[1].method_name, chars("with_practice_id"));
    assert!(matches!(unit.setters[1].accepts, SetterAccepts::IdValue));
    assert_eq!(unit.setters[2].method_name, chars("with_tenant"));
    assert!(unit.setters[2].wraps);
    assert_eq!(unit.setters[3].method_name, chars("with_tenant_id"));
    assert_eq!(unit.setters[4].method_name, chars("with_first_name"));
    assert!(matches!(unit.setters[4].accepts, SetterAccepts::PlainValue { textual: true }));

    // The assembly plan: default for the key, then per-shape duplication.
    assert!(matches!(unit.build_plan[0], BuildAction::UseEntityDefault));
    assert!(matches!(unit.build_plan[1], BuildAction::DuplicateCurrent));
    assert!(matches!(unit.build_plan[2], BuildAction::DuplicateCurrent));
    assert!(matches!(unit.build_plan[3], BuildAction::DuplicateCurrent));

    // One resolution step per FK field; a bound only where auto-creation may
    // happen (the suppressed tenant needs none).
    assert_eq!(unit.resolve_steps.len(), 2);
    assert_eq!(unit.resolve_steps[0].field_index, 1);
    assert_eq!(unit.resolve_steps[1].field_index, 2);
    assert_eq!(unit.bounds.len(), 1);
    assert_eq!(unit.bounds[0].target_factory, chars("PracticeFactory"));
    assert_eq!(unit.bounds[0].target_entity, chars("Practice"));
}

// ---------------------------------------------------------------------------
// Resolution scenarios
// ---------------------------------------------------------------------------

/// A mapping factory with two independently-configured optional FK fields:
/// one auto-creating, one suppressed.
fn mapping_factory() -> FactoryInstance {
    let decl = FactoryDecl {
        name: chars("MappingFactory"),
        attrs: vec![factory_attr("Mapping")],
        fields: vec![
            field("id", plain_ty("MappingId"), vec![marker_attr("pk")]),
            field(
                "person_id",
                option_ty("PersonId"),
                vec![fk_attr("Person", "id", "PersonFactory")],
            ),
            field(
                "note_id",
                option_ty("NoteId"),
                vec![fk_attr_no_default("Note", "id", "NoteFactory")],
            ),
        ],
    };
    FactoryInstance::new(parse_factory(decl).unwrap(), 0)
}

#[test]
fn test_suppressed_fk_stays_absent_one_creation() {
    let factory = mapping_factory();
    let outcomes = vec![created("Person", "id", 999)];

    let report = factory.build_with_fks(&outcomes);

    // Only the auto-creating field asked for a creation.
    assert_eq!(report.requested.len(), 1);
    assert_eq!(report.requested[0], chars("PersonFactory"));

    let entity = report.outcome.ok().expect("resolution must succeed");
    assert_eq!(entity_field_value(&entity, &chars("person_id")), Some(Some(Value::IdVal(999))));
    // The suppressed field resolves to absent; no creation ever happens for it.
    assert_eq!(entity_field_value(&entity, &chars("note_id")), Some(None));
}

#[test]
fn test_auto_create_takes_named_output_field() {
    let factory = mapping_factory();
    let outcomes = vec![created("Person", "id", 314)];

    let report = factory.build_with_fks(&outcomes);

    assert_eq!(report.requested.len(), 1);
    let entity = report.outcome.ok().expect("resolution must succeed");
    assert_eq!(entity_field_value(&entity, &chars("person_id")), Some(Some(Value::IdVal(314))));
}

#[test]
fn test_explicit_value_suppresses_creation_and_is_preserved() {
    let decl = FactoryDecl {
        name: chars("NoteFactory"),
        attrs: vec![factory_attr("Note")],
        fields: vec![
            field("id", plain_ty("NoteId"), vec![marker_attr("pk")]),
            field(
                "person_id",
                plain_ty("PersonId"),
                vec![fk_attr("Person", "id", "PersonFactory")],
            ),
        ],
    };
    let factory = FactoryInstance::new(parse_factory(decl).unwrap(), 0)
        .with_value(&chars("person_id"), Value::IdVal(555));
    let outcomes: Vec<CreationOutcome> = vec![];

    let report = factory.build_with_fks(&outcomes);

    // Zero nested creations; the explicit value is preserved exactly.
    assert_eq!(report.requested.len(), 0);
    let entity = report.outcome.ok().expect("resolution must succeed");
    assert_eq!(entity_field_value(&entity, &chars("person_id")), Some(Some(Value::IdVal(555))));
}

/// A factory with two plain-shaped FK fields, both at the sentinel.
fn two_fk_factory() -> FactoryInstance {
    let decl = FactoryDecl {
        name: chars("LinkFactory"),
        attrs: vec![factory_attr("Link")],
        fields: vec![
            field("id", plain_ty("LinkId"), vec![marker_attr("pk")]),
            field(
                "person_id",
                plain_ty("PersonId"),
                vec![fk_attr("Person", "id", "PersonFactory")],
            ),
            field("note_id", plain_ty("NoteId"), vec![fk_attr("Note", "id", "NoteFactory")]),
        ],
    };
    FactoryInstance::new(parse_factory(decl).unwrap(), 0)
}

#[test]
fn test_creations_needed_counts_requests() {
    assert_eq!(two_fk_factory().creations_needed(), 2);
    assert_eq!(mapping_factory().creations_needed(), 1);
    assert_eq!(
        mapping_factory().with_value(&chars("person_id"), Value::IdVal(5)).creations_needed(),
        0
    );
}

#[test]
fn test_creations_run_in_declared_field_order() {
    let factory = two_fk_factory();
    let outcomes = vec![created("Person", "id", 999), created("Note", "id", 888)];

    let report = factory.build_with_fks(&outcomes);

    // The requests come in the factory's declared field order.
    assert_eq!(report.requested.len(), 2);
    assert_eq!(report.requested[0], chars("PersonFactory"));
    assert_eq!(report.requested[1], chars("NoteFactory"));

    let entity = report.outcome.ok().expect("resolution must succeed");
    assert_eq!(entity_field_value(&entity, &chars("person_id")), Some(Some(Value::IdVal(999))));
    assert_eq!(entity_field_value(&entity, &chars("note_id")), Some(Some(Value::IdVal(888))));
}

#[test]
fn test_first_failure_aborts_remaining_steps() {
    let factory = two_fk_factory();
    let outcomes = vec![
        CreationOutcome::CreationFailed(chars("connection refused")),
        created("Note", "id", 888),
    ];

    let report = factory.build_with_fks(&outcomes);

    // The failure is returned verbatim and the second step never runs.
    assert_eq!(report.requested.len(), 1);
    assert_eq!(report.requested[0], chars("PersonFactory"));
    assert_eq!(report.outcome.err().expect("the failure propagates"), chars("connection refused"));
}

#[test]
fn test_resolution_keeps_scalars_and_defaults() {
    let decl = FactoryDecl {
        name: chars("PersonFactory"),
        attrs: vec![factory_attr("Person")],
        fields: vec![
            field("id", plain_ty("PersonId"), vec![marker_attr("pk")]),
            field("first_name", option_ty("String"), vec![marker_attr("required")]),
            field("last_name", option_ty("String"), vec![]),
        ],
    };
    let factory = FactoryInstance::new(parse_factory(decl).unwrap(), 0)
        .with_value(&chars("first_name"), Value::TextVal(chars("Auto-Generated")));
    let outcomes: Vec<CreationOutcome> = vec![];

    let report = factory.build_with_fks(&outcomes);

    assert_eq!(report.requested.len(), 0);
    let entity = report.outcome.ok().expect("resolution must succeed");
    assert_eq!(entity_field_value(&entity, &chars("id")), Some(Some(Value::IdVal(0))));
    assert_eq!(
        entity_field_value(&entity, &chars("first_name")),
        Some(Some(Value::TextVal(chars("Auto-Generated"))))
    );
    assert_eq!(entity_field_value(&entity, &chars("last_name")), Some(None));
}

#[test]
fn test_present_non_sentinel_optional_fk_is_kept() {
    let factory = mapping_factory().with_value(&chars("person_id"), Value::IdVal(77));
    let outcomes: Vec<CreationOutcome> = vec![];

    let report = factory.build_with_fks(&outcomes);

    assert_eq!(report.requested.len(), 0);
    let entity = report.outcome.ok().expect("resolution must succeed");
    assert_eq!(entity_field_value(&entity, &chars("person_id")), Some(Some(Value::IdVal(77))));
}
