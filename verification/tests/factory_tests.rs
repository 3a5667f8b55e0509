//! Tests of the generated builder behavior: default construction, fluent
//! setters and the synchronous build, run against schemas that mirror small
//! test factories.

use factory_engine::engine::{EntityField, EntityInstance, FactoryInstance, Value};
use factory_engine::schema::{parse_factory, AttrArg, AttrDecl, FactoryDecl, FieldDecl};
use factory_engine::shape::TypeExpr;

fn chars(s: &str) -> Vec<char> {
    s.chars().collect()
}

fn plain_ty(name: &str) -> TypeExpr {
    TypeExpr { segments: vec![chars(name)], args: vec![] }
}

fn option_ty(inner: &str) -> TypeExpr {
    TypeExpr { segments: vec![chars("Option")], args: vec![plain_ty(inner)] }
}

fn marker_attr(name: &str) -> AttrDecl {
    AttrDecl { name: chars(name), args: vec![] }
}

fn factory_attr(entity: &str) -> AttrDecl {
    AttrDecl {
        name: chars("factory"),
        args: vec![AttrArg::ArgAssign { key: chars("entity"), value: chars(entity) }],
    }
}

fn fk_attr(entity: &str, field: &str, factory: &str) -> AttrDecl {
    AttrDecl {
        name: chars("fk"),
        args: vec![
            AttrArg::ArgIdent(chars(entity)),
            AttrArg::ArgText(chars(field)),
            AttrArg::ArgIdent(chars(factory)),
        ],
    }
}

fn field(name: &str, ty: TypeExpr, attrs: Vec<AttrDecl>) -> FieldDecl {
    FieldDecl { name: chars(name), ty, attrs }
}

/// An entity value: name plus (field, value) pairs.
fn entity(name: &str, fields: Vec<(&str, Option<Value>)>) -> EntityInstance {
    EntityInstance {
        entity_name: chars(name),
        fields: fields
            .into_iter()
            .map(|(n, v)| EntityField { name: chars(n), value: v })
            .collect(),
    }
}

/// Mirrors a factory for a Patient entity: a primary key, a plain-shaped FK
/// to Practice, an optional-shaped FK to Tenant, and an optional name.
fn patient_factory() -> FactoryInstance {
    let decl = FactoryDecl {
        name: chars("PatientFactory"),
        attrs: vec![factory_attr("Patient")],
        fields: vec![
            field("id", plain_ty("PatientId"), vec![marker_attr("pk")]),
            field(
                "practice_id",
                plain_ty("PracticeId"),
                vec![fk_attr("Practice", "id", "PracticeFactory")],
            ),
            field(
                "tenant_id",
                option_ty("TenantId"),
                vec![fk_attr("Tenant", "id", "TenantFactory")],
            ),
            field("first_name", option_ty("String"), vec![]),
        ],
    };
    FactoryInstance::new(parse_factory(decl).unwrap(), 0)
}

fn practice(id: i64, name: &str) -> EntityInstance {
    entity(
        "Practice",
        vec![("id", Some(Value::IdVal(id))), ("name", Some(Value::TextVal(chars(name))))],
    )
}

fn tenant(id: i64, name: &str) -> EntityInstance {
    entity(
        "Tenant",
        vec![("id", Some(Value::IdVal(id))), ("name", Some(Value::TextVal(chars(name))))],
    )
}

#[test]
fn test_new_returns_default_factory() {
    let factory = patient_factory();

    // The default identifier is the sentinel (0).
    assert_eq!(factory.field_value(&chars("practice_id")), Some(Some(Value::IdVal(0))));
    assert_eq!(factory.field_value(&chars("tenant_id")), Some(None));
    assert_eq!(factory.field_value(&chars("first_name")), Some(None));
}

#[test]
fn test_with_practice_sets_id_from_entity() {
    let practice = practice(123, "Test Practice");

    let factory = patient_factory().with_entity(&chars("practice_id"), &practice);

    assert_eq!(factory.field_value(&chars("practice_id")), Some(Some(Value::IdVal(123))));
}

#[test]
fn test_with_practice_id_sets_id_directly() {
    let factory = patient_factory().with_value(&chars("practice_id"), Value::IdVal(456));

    assert_eq!(factory.field_value(&chars("practice_id")), Some(Some(Value::IdVal(456))));
}

#[test]
fn test_with_optional_fields() {
    let practice = practice(1, "Practice");
    let tenant = tenant(2, "Tenant");

    let factory = patient_factory()
        .with_entity(&chars("practice_id"), &practice)
        .with_entity(&chars("tenant_id"), &tenant)
        .with_value(&chars("first_name"), Value::TextVal(chars("Alice")));

    assert_eq!(factory.field_value(&chars("practice_id")), Some(Some(Value::IdVal(1))));
    assert_eq!(factory.field_value(&chars("tenant_id")), Some(Some(Value::IdVal(2))));
    assert_eq!(
        factory.field_value(&chars("first_name")),
        Some(Some(Value::TextVal(chars("Alice"))))
    );
}

#[test]
fn test_build_creates_entity_when_fks_set() {
    let practice = practice(42, "Build Test");

    let patient = patient_factory()
        .with_entity(&chars("practice_id"), &practice)
        .with_value(&chars("first_name"), Value::TextVal(chars("Bob")))
        .build();

    // The primary key takes the default.
    assert_eq!(
        factory_engine::engine::entity_field_value(&patient, &chars("id")),
        Some(Some(Value::IdVal(0)))
    );
    assert_eq!(
        factory_engine::engine::entity_field_value(&patient, &chars("practice_id")),
        Some(Some(Value::IdVal(42)))
    );
    assert_eq!(
        factory_engine::engine::entity_field_value(&patient, &chars("first_name")),
        Some(Some(Value::TextVal(chars("Bob"))))
    );
    // The optional FK stays absent.
    assert_eq!(
        factory_engine::engine::entity_field_value(&patient, &chars("tenant_id")),
        Some(None)
    );
}

/// Mirrors a factory whose entity requires a name: the factory declares it
/// optional but marked required.
fn patient_with_required_name_factory() -> FactoryInstance {
    let decl = FactoryDecl {
        name: chars("PatientWithRequiredNameFactory"),
        attrs: vec![factory_attr("PatientWithRequiredName")],
        fields: vec![
            field("id", plain_ty("PatientId"), vec![marker_attr("pk")]),
            field(
                "practice_id",
                plain_ty("PracticeId"),
                vec![fk_attr("Practice", "id", "PracticeFactory")],
            ),
            field("name", option_ty("String"), vec![marker_attr("required")]),
            field("nickname", option_ty("String"), vec![]),
        ],
    };
    FactoryInstance::new(parse_factory(decl).unwrap(), 0)
}

#[test]
fn test_required_field_works_when_set() {
    let practice = practice(1, "Test");

    let entity = patient_with_required_name_factory()
        .with_entity(&chars("practice_id"), &practice)
        .with_value(&chars("name"), Value::TextVal(chars("Required Name")))
        .build();

    assert_eq!(
        factory_engine::engine::entity_field_value(&entity, &chars("name")),
        Some(Some(Value::TextVal(chars("Required Name"))))
    );
    assert_eq!(
        factory_engine::engine::entity_field_value(&entity, &chars("nickname")),
        Some(None)
    );
}

#[test]
fn test_required_field_missing_reports_abort() {
    let practice = practice(1, "Test");

    let result = patient_with_required_name_factory()
        .with_entity(&chars("practice_id"), &practice)
        // name not set!
        .try_build();

    let abort = result.err().expect("build must stop on the missing required field");
    assert_eq!(abort.field, chars("name"));
    assert_eq!(abort.setter, chars("with_name"));
}

/// Mirrors a factory whose non-key fields are all optional.
fn all_optional_factory() -> FactoryInstance {
    let decl = FactoryDecl {
        name: chars("AllOptionalFactory"),
        attrs: vec![factory_attr("AllOptionalEntity")],
        fields: vec![
            field("id", plain_ty("PatientId"), vec![marker_attr("pk")]),
            field("name", option_ty("String"), vec![]),
            field("age", option_ty("i32"), vec![]),
        ],
    };
    FactoryInstance::new(parse_factory(decl).unwrap(), 0)
}

#[test]
fn test_all_optional_factory() {
    let factory = all_optional_factory()
        .with_value(&chars("name"), Value::TextVal(chars("Test")))
        .with_value(&chars("age"), Value::IntVal(25));

    assert_eq!(factory.field_value(&chars("name")), Some(Some(Value::TextVal(chars("Test")))));
    assert_eq!(factory.field_value(&chars("age")), Some(Some(Value::IntVal(25))));
}

#[test]
fn test_all_optional_build_with_none() {
    let entity = all_optional_factory().build();

    assert_eq!(
        factory_engine::engine::entity_field_value(&entity, &chars("id")),
        Some(Some(Value::IdVal(0)))
    );
    assert_eq!(factory_engine::engine::entity_field_value(&entity, &chars("name")), Some(None));
    assert_eq!(factory_engine::engine::entity_field_value(&entity, &chars("age")), Some(None));
}

/// Mirrors a factory whose FK field is plain-shaped, exactly as the entity
/// declares it.
fn entity_with_required_fk_factory() -> FactoryInstance {
    let decl = FactoryDecl {
        name: chars("EntityWithRequiredFkFactory"),
        attrs: vec![factory_attr("EntityWithRequiredFk")],
        fields: vec![
            field("id", plain_ty("PatientId"), vec![marker_attr("pk")]),
            field(
                "practice_id",
                plain_ty("PracticeId"),
                vec![fk_attr("Practice", "id", "PracticeFactory")],
            ),
            field("name", option_ty("String"), vec![]),
        ],
    };
    FactoryInstance::new(parse_factory(decl).unwrap(), 0)
}

#[test]
fn test_non_option_fk_with_entity_setter() {
    let practice = practice(777, "Non-Option FK Test");

    let factory = entity_with_required_fk_factory().with_entity(&chars("practice_id"), &practice);

    // The FK is set directly (not wrapped in an optional).
    assert_eq!(factory.field_value(&chars("practice_id")), Some(Some(Value::IdVal(777))));
}

#[test]
fn test_non_option_fk_with_id_setter() {
    let factory =
        entity_with_required_fk_factory().with_value(&chars("practice_id"), Value::IdVal(888));

    assert_eq!(factory.field_value(&chars("practice_id")), Some(Some(Value::IdVal(888))));
}

#[test]
fn test_non_option_fk_build_uses_value_directly() {
    let practice = practice(999, "Build Test");

    let entity = entity_with_required_fk_factory()
        .with_entity(&chars("practice_id"), &practice)
        .with_value(&chars("name"), Value::TextVal(chars("Test Entity")))
        .build();

    assert_eq!(
        factory_engine::engine::entity_field_value(&entity, &chars("practice_id")),
        Some(Some(Value::IdVal(999)))
    );
    assert_eq!(
        factory_engine::engine::entity_field_value(&entity, &chars("name")),
        Some(Some(Value::TextVal(chars("Test Entity"))))
    );
}

#[test]
fn test_non_option_fk_build_with_default() {
    // A plain-shaped FK uses the default value if not explicitly set.
    let entity = entity_with_required_fk_factory().build();

    // The default identifier is the sentinel (0).
    assert_eq!(
        factory_engine::engine::entity_field_value(&entity, &chars("practice_id")),
        Some(Some(Value::IdVal(0)))
    );
}

#[test]
fn test_build_twice_yields_equal_entities() {
    let practice = practice(7, "Same");
    let factory = patient_factory()
        .with_entity(&chars("practice_id"), &practice)
        .with_value(&chars("first_name"), Value::TextVal(chars("Eve")));

    let first = factory.build();
    let second = factory.build();

    assert!(factory_engine::engine::entity_eq(&first, &second));
}

#[test]
fn test_last_setter_wins_both_orders() {
    let practice = practice(31, "Later");

    // Identifier-setter first, entity-setter second: the entity's value wins.
    let factory = patient_factory()
        .with_value(&chars("practice_id"), Value::IdVal(11))
        .with_entity(&chars("practice_id"), &practice);
    assert_eq!(factory.field_value(&chars("practice_id")), Some(Some(Value::IdVal(31))));

    // Entity-setter first, identifier-setter second: the identifier wins.
    let factory = patient_factory()
        .with_entity(&chars("practice_id"), &practice)
        .with_value(&chars("practice_id"), Value::IdVal(11));
    assert_eq!(factory.field_value(&chars("practice_id")), Some(Some(Value::IdVal(11))));
}
