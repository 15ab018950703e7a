//! Tests of the whole transformation pipeline on concrete descriptors.

use signed_struct::model::FieldDescriptor;
use signed_struct::model::FieldType;
use signed_struct::model::Shape;
use signed_struct::model::StructDescriptor;
use signed_struct::model::ValidationError;
use signed_struct::model::Visibility;
use signed_struct::pipeline::process;

fn private_field(name: &str, ty: &str) -> FieldDescriptor {
    FieldDescriptor {
        name: name.to_string(),
        ty: FieldType::Plain { name: ty.to_string() },
        vis: Visibility::Private,
        skip_serialization: false,
    }
}

fn record(name: &str, fields: Vec<FieldDescriptor>) -> StructDescriptor {
    StructDescriptor { name: name.to_string(), shape: Shape::NamedFields { fields } }
}

#[test]
fn it_works() {
    let result = 2 + 2;
    assert_eq!(result, 4);
}

#[test]
fn two_private_fields_generate_full_artifact() {
    let input = record(
        "Claim",
        vec![private_field("id", "Integer"), private_field("payload", "Text")],
    );
    let artifact = process(input).unwrap();

    let fields = match &artifact.augmented.shape {
        Shape::NamedFields { fields } => fields,
        other => panic!("augmented shape is not a named-field record: {:?}", other),
    };
    assert_eq!(fields.len(), 3);
    assert_eq!(fields[0].name, "id");
    assert_eq!(fields[1].name, "payload");
    let synthetic = &fields[2];
    assert_eq!(synthetic.name, "_json0");
    assert_eq!(synthetic.ty, FieldType::OptionText);
    assert_eq!(synthetic.vis, Visibility::Private);
    assert!(synthetic.skip_serialization);
    assert!(!fields[0].skip_serialization);
    assert!(!fields[1].skip_serialization);

    assert_eq!(artifact.signed_impl.cache_field, "_json0");
    assert_eq!(artifact.constructor.cache_field, "_json0");
    assert_eq!(artifact.constructor.params.len(), 2);
    assert_eq!(artifact.constructor.params[0].name, "id");
    assert_eq!(
        artifact.constructor.params[0].ty,
        FieldType::Plain { name: "Integer".to_string() }
    );
    assert_eq!(artifact.constructor.params[1].name, "payload");
    assert_eq!(
        artifact.constructor.params[1].ty,
        FieldType::Plain { name: "Text".to_string() }
    );

    assert_eq!(artifact.accessors.len(), 2);
    assert_eq!(artifact.accessors[0].field, "id");
    assert_eq!(artifact.accessors[0].setter_name, "set_id");
    assert_eq!(artifact.accessors[1].field, "payload");
    assert_eq!(artifact.accessors[1].setter_name, "set_payload");
}

#[test]
fn every_setter_clears_the_cache() {
    let input = record(
        "Claim",
        vec![private_field("id", "Integer"), private_field("payload", "Text")],
    );
    let artifact = process(input).unwrap();
    assert!(artifact.accessors.iter().all(|a| a.clears_cache));
}

#[test]
fn public_field_is_rejected_and_named() {
    let mut public_id = private_field("id", "Integer");
    public_id.vis = Visibility::Public;
    let input = record("Claim", vec![public_id, private_field("payload", "Text")]);
    assert_eq!(
        process(input),
        Err(ValidationError::PublicFieldNotAllowed { field: "id".to_string() })
    );
}

#[test]
fn first_public_field_is_the_one_named() {
    let mut a = private_field("a", "Integer");
    a.vis = Visibility::Public;
    let mut b = private_field("b", "Integer");
    b.vis = Visibility::Public;
    let input = record("Claim", vec![private_field("z", "Text"), a, b]);
    assert_eq!(
        process(input),
        Err(ValidationError::PublicFieldNotAllowed { field: "a".to_string() })
    );
}

#[test]
fn taken_candidate_name_moves_to_next_counter() {
    let input = record("Claim", vec![private_field("_json0", "Text")]);
    let artifact = process(input).unwrap();
    let fields = match &artifact.augmented.shape {
        Shape::NamedFields { fields } => fields,
        other => panic!("augmented shape is not a named-field record: {:?}", other),
    };
    assert_eq!(fields.len(), 2);
    assert_eq!(fields[0].name, "_json0");
    assert_eq!(fields[1].name, "_json1");
    assert_eq!(artifact.signed_impl.cache_field, "_json1");
    assert_eq!(artifact.accessors.len(), 1);
    assert_eq!(artifact.accessors[0].field, "_json0");
    assert_eq!(artifact.accessors[0].setter_name, "set__json0");
}

#[test]
fn zero_field_record_fails_empty_struct() {
    let input = record("Claim", Vec::new());
    assert_eq!(process(input), Err(ValidationError::EmptyStruct));
}

#[test]
fn enumeration_is_rejected() {
    let input = StructDescriptor { name: "Claim".to_string(), shape: Shape::Enumeration };
    assert_eq!(process(input), Err(ValidationError::UnsupportedShape));
}

#[test]
fn tuple_shape_is_rejected() {
    let input = StructDescriptor { name: "Claim".to_string(), shape: Shape::TupleFields };
    assert_eq!(process(input), Err(ValidationError::UnsupportedShape));
}

#[test]
fn unit_and_union_shapes_are_rejected() {
    let unit = StructDescriptor { name: "Claim".to_string(), shape: Shape::UnitFields };
    assert_eq!(process(unit), Err(ValidationError::UnsupportedShape));
    let union_shape = StructDescriptor { name: "Claim".to_string(), shape: Shape::UnionShape };
    assert_eq!(process(union_shape), Err(ValidationError::UnsupportedShape));
}

#[test]
fn reference_types_get_the_fresh_lifetime() {
    let borrowed = FieldDescriptor {
        name: "text".to_string(),
        ty: FieldType::Reference { lifetime: Some("a".to_string()), target: "str".to_string() },
        vis: Visibility::Private,
        skip_serialization: false,
    };
    let bare = FieldDescriptor {
        name: "raw".to_string(),
        ty: FieldType::Reference { lifetime: None, target: "str".to_string() },
        vis: Visibility::Private,
        skip_serialization: false,
    };
    let input = record("Claim", vec![borrowed, bare]);
    let artifact = process(input).unwrap();

    let rewritten = FieldType::Reference {
        lifetime: Some("sig".to_string()),
        target: "str".to_string(),
    };
    assert_eq!(artifact.constructor.params[0].ty, rewritten);
    assert_eq!(artifact.constructor.params[1].ty, rewritten);
    assert_eq!(artifact.accessors[0].ty, rewritten);
    assert_eq!(artifact.accessors[1].ty, rewritten);

    let fields = match &artifact.augmented.shape {
        Shape::NamedFields { fields } => fields,
        other => panic!("augmented shape is not a named-field record: {:?}", other),
    };
    assert_eq!(
        fields[0].ty,
        FieldType::Reference { lifetime: Some("a".to_string()), target: "str".to_string() }
    );
}

#[test]
fn original_fields_are_not_renamed_or_reordered() {
    let input = record(
        "Claim",
        vec![
            private_field("c", "Text"),
            private_field("a", "Text"),
            private_field("b", "Text"),
        ],
    );
    let artifact = process(input).unwrap();
    let fields = match &artifact.augmented.shape {
        Shape::NamedFields { fields } => fields,
        other => panic!("augmented shape is not a named-field record: {:?}", other),
    };
    let names: Vec<&str> = fields.iter().map(|f| f.name.as_str()).collect();
    assert_eq!(names, vec!["c", "a", "b", "_json0"]);
    assert_eq!(artifact.augmented.name, "Claim");
}
