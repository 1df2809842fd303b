use section_parser::extract::{SchemaError, WrapperFault, extract_eligible_fields};
use section_parser::record::{FieldError, SectionRecord, Slot};
use section_parser::schema::{
    FieldDecl, FieldsShape, GenericArg, PathSegment, RecordData, RecordSchema, SegmentArgs,
    TypeExpr,
};
use section_parser::synthesize::{SectionPlan, derive_section_parser};

/// The payloads carried by the two eligible fields of the mirrored record
/// type `Test { a: Option<UnderlyingType<String>>,
/// b: Option<UnderlyingType<Option<String>>> }`.
#[derive(Debug, PartialEq, Eq)]
enum Val {
    A(String, usize),
    B(Option<String>, usize),
}

fn plain_type(name: &str) -> TypeExpr {
    TypeExpr::PathType(vec![PathSegment {
        ident: name.to_string(),
        args: SegmentArgs::NoArgs,
    }])
}

fn generic_type(name: &str, args: Vec<TypeExpr>) -> TypeExpr {
    TypeExpr::PathType(vec![PathSegment {
        ident: name.to_string(),
        args: SegmentArgs::AngleBracketed(args.into_iter().map(GenericArg::TypeArg).collect()),
    }])
}

fn optional_of(inner: TypeExpr) -> TypeExpr {
    generic_type("Option", vec![inner])
}

fn named_struct(name: &str, fields: Vec<(&str, TypeExpr)>) -> RecordSchema {
    RecordSchema {
        name: name.to_string(),
        generic_params: 0,
        data: RecordData::StructData(FieldsShape::NamedFields(
            fields
                .into_iter()
                .map(|(n, ty)| FieldDecl { name: n.to_string(), ty })
                .collect(),
        )),
    }
}

fn test_schema() -> RecordSchema {
    named_struct(
        "Test",
        vec![
            (
                "a",
                optional_of(generic_type("UnderlyingType", vec![plain_type("String")])),
            ),
            (
                "b",
                optional_of(generic_type(
                    "UnderlyingType",
                    vec![optional_of(plain_type("String"))],
                )),
            ),
        ],
    )
}

fn test_plan() -> SectionPlan {
    derive_section_parser(test_schema()).unwrap()
}

#[test]
fn ok() {
    let plan = test_plan();
    let mut test: SectionRecord<Val> = SectionRecord::from_slots(
        &plan,
        vec![Slot::Occupied(Val::A("acb".to_string(), 2)), Slot::Unset],
    );

    test.take_field(0).unwrap();
    test.set_field(1, Val::B(None, 3)).unwrap();
    assert_eq!(test.take_field(1), Ok(Val::B(None, 3)));
    test.ensure_empty().unwrap();
}

#[test]
fn store_then_drain_returns_value() {
    let plan = test_plan();
    let mut rec: SectionRecord<Val> = SectionRecord::new_unset(&plan);
    rec.set_field(0, Val::A("v".to_string(), 1)).unwrap();
    assert_eq!(rec.take_field(0), Ok(Val::A("v".to_string(), 1)));
    assert_eq!(
        rec.take_field(0),
        Err(FieldError::MissingField("a".to_string()))
    );
}

#[test]
fn drain_fresh_record_is_missing() {
    let plan = test_plan();
    let mut rec: SectionRecord<Val> = SectionRecord::new_unset(&plan);
    assert_eq!(
        rec.take_field(0),
        Err(FieldError::MissingField("a".to_string()))
    );
    assert_eq!(
        rec.take_field(1),
        Err(FieldError::MissingField("b".to_string()))
    );
}

#[test]
fn duplicate_store_surfaces_prior_value() {
    let plan = test_plan();
    let mut rec: SectionRecord<Val> = SectionRecord::new_unset(&plan);
    rec.set_field(0, Val::A("first".to_string(), 1)).unwrap();
    assert_eq!(
        rec.set_field(0, Val::A("second".to_string(), 2)),
        Err(FieldError::DuplicateField(
            "a".to_string(),
            Val::A("first".to_string(), 1)
        ))
    );
    // The rejected second value was not stored: the slot is unset again.
    assert_eq!(
        rec.take_field(0),
        Err(FieldError::MissingField("a".to_string()))
    );
}

#[test]
fn ensure_empty_on_fresh_record_succeeds() {
    let plan = test_plan();
    let rec: SectionRecord<Val> = SectionRecord::new_unset(&plan);
    assert_eq!(rec.ensure_empty(), Ok(()));
}

#[test]
fn ensure_empty_reports_first_leftover() {
    let plan = test_plan();
    let rec: SectionRecord<Val> = SectionRecord::from_slots(
        &plan,
        vec![
            Slot::Occupied(Val::A("x".to_string(), 1)),
            Slot::Occupied(Val::B(None, 2)),
        ],
    );
    assert_eq!(
        rec.ensure_empty(),
        Err(FieldError::UnexpectedField(
            "a".to_string(),
            Val::A("x".to_string(), 1)
        ))
    );

    let rec: SectionRecord<Val> =
        SectionRecord::from_slots(&plan, vec![Slot::Unset, Slot::Occupied(Val::B(None, 2))]);
    assert_eq!(
        rec.ensure_empty(),
        Err(FieldError::UnexpectedField(
            "b".to_string(),
            Val::B(None, 2)
        ))
    );
}

#[test]
fn drain_is_not_idempotent() {
    let plan = test_plan();
    let mut rec: SectionRecord<Val> = SectionRecord::new_unset(&plan);
    rec.set_field(1, Val::B(None, 9)).unwrap();
    let first = rec.take_field(1);
    let second = rec.take_field(1);
    assert_eq!(first, Ok(Val::B(None, 9)));
    assert_eq!(
        second,
        Err(FieldError::MissingField("b".to_string()))
    );
    assert_ne!(first, second);
}

#[test]
fn ineligible_fields_get_no_accessors() {
    let schema = named_struct(
        "Mixed",
        vec![
            ("a", optional_of(plain_type("String"))),
            ("plain", plain_type("String")),
            ("odd", TypeExpr::NonPathType),
        ],
    );
    let plan = derive_section_parser(schema).unwrap();
    assert_eq!(plan.fields.len(), 1);
    assert_eq!(plan.fields[0].name, "a");
    let rec: SectionRecord<Val> = SectionRecord::new_unset(&plan);
    assert_eq!(rec.field_index(&"a".to_string()), Some(0));
    assert_eq!(rec.field_index(&"plain".to_string()), None);
    assert_eq!(rec.field_index(&"odd".to_string()), None);
}

#[test]
fn accessor_names_follow_convention() {
    let plan = test_plan();
    assert_eq!(plan.record_name, "Test");
    assert_eq!(plan.error_name, "TestError");
    assert_eq!(plan.fields[0].getter_name, "a");
    assert_eq!(plan.fields[0].setter_name, "set_a");
    assert_eq!(plan.fields[1].getter_name, "b");
    assert_eq!(plan.fields[1].setter_name, "set_b");
}

#[test]
fn empty_named_struct_yields_empty_plan() {
    let schema = named_struct("Empty", vec![]);
    let plan = derive_section_parser(schema).unwrap();
    assert_eq!(plan.fields.len(), 0);
    let rec: SectionRecord<Val> = SectionRecord::new_unset(&plan);
    assert_eq!(rec.ensure_empty(), Ok(()));
}

#[test]
fn generic_records_are_rejected() {
    let schema = RecordSchema {
        name: "Gen".to_string(),
        generic_params: 1,
        data: RecordData::StructData(FieldsShape::NamedFields(vec![])),
    };
    assert!(matches!(
        extract_eligible_fields(schema),
        Err(SchemaError::GenericsUnsupported)
    ));
}

#[test]
fn non_structs_are_rejected() {
    let schema = RecordSchema {
        name: "Choice".to_string(),
        generic_params: 0,
        data: RecordData::EnumData,
    };
    assert!(matches!(
        extract_eligible_fields(schema),
        Err(SchemaError::NotAStruct)
    ));
}

#[test]
fn tuple_structs_are_rejected() {
    let schema = RecordSchema {
        name: "Tup".to_string(),
        generic_params: 0,
        data: RecordData::StructData(FieldsShape::UnnamedFields),
    };
    assert!(matches!(
        extract_eligible_fields(schema),
        Err(SchemaError::FieldsNotNamed)
    ));
    let schema = RecordSchema {
        name: "Unit".to_string(),
        generic_params: 0,
        data: RecordData::StructData(FieldsShape::UnitFields),
    };
    assert!(matches!(
        extract_eligible_fields(schema),
        Err(SchemaError::FieldsNotNamed)
    ));
}

#[test]
fn marker_without_angle_brackets_is_rejected() {
    for bad_args in [SegmentArgs::NoArgs, SegmentArgs::Parenthesized] {
        let ty = TypeExpr::PathType(vec![PathSegment {
            ident: "Option".to_string(),
            args: bad_args,
        }]);
        let schema = named_struct("Bad", vec![("x", ty)]);
        let r = extract_eligible_fields(schema);
        assert_eq!(
            r,
            Err(SchemaError::MalformedWrapper {
                field: "x".to_string(),
                fault: WrapperFault::NotAngleBracketed,
            })
        );
    }
}

#[test]
fn marker_with_zero_arguments_is_rejected() {
    let ty = generic_type("Option", vec![]);
    let schema = named_struct("Bad", vec![("x", ty)]);
    assert_eq!(
        extract_eligible_fields(schema),
        Err(SchemaError::MalformedWrapper {
            field: "x".to_string(),
            fault: WrapperFault::NoArguments,
        })
    );
}

#[test]
fn marker_with_two_arguments_is_rejected() {
    let ty = generic_type("Option", vec![plain_type("A"), plain_type("B")]);
    let schema = named_struct("Bad", vec![("x", ty)]);
    assert_eq!(
        extract_eligible_fields(schema),
        Err(SchemaError::MalformedWrapper {
            field: "x".to_string(),
            fault: WrapperFault::ExtraArguments,
        })
    );
}

#[test]
fn marker_with_non_type_argument_is_rejected() {
    let ty = TypeExpr::PathType(vec![PathSegment {
        ident: "Option".to_string(),
        args: SegmentArgs::AngleBracketed(vec![GenericArg::NonTypeArg]),
    }]);
    let schema = named_struct("Bad", vec![("x", ty)]);
    assert_eq!(
        extract_eligible_fields(schema),
        Err(SchemaError::MalformedWrapper {
            field: "x".to_string(),
            fault: WrapperFault::ArgumentNotAType,
        })
    );
}

#[test]
fn first_faulty_field_is_reported() {
    let schema = named_struct(
        "Bad",
        vec![
            ("fine", optional_of(plain_type("String"))),
            ("first_bad", generic_type("Option", vec![])),
            (
                "second_bad",
                generic_type("Option", vec![plain_type("A"), plain_type("B")]),
            ),
        ],
    );
    assert_eq!(
        extract_eligible_fields(schema),
        Err(SchemaError::MalformedWrapper {
            field: "first_bad".to_string(),
            fault: WrapperFault::NoArguments,
        })
    );
}

#[test]
fn extraction_preserves_declaration_order() {
    let fields = extract_eligible_fields(test_schema()).unwrap();
    assert_eq!(fields.len(), 2);
    assert_eq!(fields[0].name, "a");
    assert_eq!(fields[1].name, "b");
    assert_eq!(
        fields[0].inner,
        generic_type("UnderlyingType", vec![plain_type("String")])
    );
    assert_eq!(
        fields[1].inner,
        generic_type("UnderlyingType", vec![optional_of(plain_type("String"))])
    );
}
