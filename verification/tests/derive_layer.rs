use ormolu::metadata::{
    column_constraints, exceptions_name, expand_derive_database_object, expand_derive_table,
    filter_name, getter_name, plural_relation_name, select_name, singular_relation_name,
    split_qualified_name, Attribute, AttributeError, ColumnMetadata, ConstraintError, FieldSource,
    TableMetadata,
};
use ormolu::type_model::{
    generate_field_to_string_expr, get_ident, parse_custom_type, parse_usize,
    replace_string_with_into_string, unwrap_option_or_self, unwrap_unique_or_self, ConstArg,
    CustomType, GenericArg, PathArgs, Segment, TypePath, TypeRef,
};

fn attr(name: &str, value: &str) -> Attribute {
    Attribute { name: name.to_string(), value: value.to_string() }
}

fn plain(name: &str) -> TypeRef {
    generic(name, PathArgs::Absent)
}

fn generic(name: &str, args: PathArgs) -> TypeRef {
    TypeRef::Path(TypePath {
        qualified: false,
        leading_colon: false,
        segments: vec![Segment { ident: name.to_string(), args }],
    })
}

fn of(name: &str, args: Vec<GenericArg>) -> TypeRef {
    generic(name, PathArgs::AngleBracketed(args))
}

fn ident(ty: &TypeRef) -> String {
    match ty {
        TypeRef::Path(p) => p.segments.last().map(|s| s.ident.clone()).unwrap_or_default(),
        TypeRef::ImplIntoString => "impl Into<String>".to_string(),
        TypeRef::Other => "?".to_string(),
    }
}

#[test]
fn name_attribute_gives_schema_and_object() {
    let names = expand_derive_database_object(&vec![attr("name", "public.customer")]).unwrap();
    assert_eq!(names.object_name, "customer");
    assert_eq!(names.schema_name, "public");
    assert_eq!(names.qualified_name, "public.customer");
    let names = expand_derive_database_object(&vec![attr("name", "private.product")]).unwrap();
    assert_eq!(names.object_name, "product");
    assert_eq!(names.schema_name, "private");
}

#[test]
fn schema_and_object_attributes_give_one_name_each() {
    let names =
        expand_derive_database_object(&vec![attr("schema", "public"), attr("object", "order")])
            .unwrap();
    assert_eq!(names.qualified_name, "public.order");
    let names = expand_derive_database_object(&vec![
        attr("name", "a.b"),
        attr("object", "c"),
    ])
    .unwrap();
    assert_eq!(names.qualified_name, "a.c");
}

#[test]
fn attributes_that_name_no_object_are_errors() {
    assert_eq!(
        expand_derive_database_object(&vec![attr("name", "customer")]).err(),
        Some(AttributeError::MalformedName(0))
    );
    assert_eq!(
        expand_derive_database_object(&vec![attr("schema", "s"), attr("name", "a.b.c")]).err(),
        Some(AttributeError::MalformedName(1))
    );
    assert_eq!(
        expand_derive_database_object(&vec![attr("table", "customer")]).err(),
        Some(AttributeError::UnknownAttribute(0))
    );
    assert_eq!(
        expand_derive_database_object(&vec![attr("get_pool", "f")]).err(),
        Some(AttributeError::UnsupportedAttribute(0))
    );
    assert_eq!(expand_derive_database_object(&vec![]).err(), Some(AttributeError::MissingObject));
    assert_eq!(
        expand_derive_database_object(&vec![attr("object", "order")]).err(),
        Some(AttributeError::MissingSchema)
    );
    assert_eq!(
        expand_derive_database_object(&vec![attr("name", ".order")]).err(),
        Some(AttributeError::MissingSchema)
    );
    assert_eq!(
        expand_derive_database_object(&vec![attr("name", "public.")]).err(),
        Some(AttributeError::MissingObject)
    );
}

#[test]
fn qualified_names_split_at_their_only_dot() {
    assert_eq!(
        split_qualified_name("public.customer"),
        Some(("public".to_string(), "customer".to_string()))
    );
    assert_eq!(split_qualified_name("."), Some((String::new(), String::new())));
    assert_eq!(split_qualified_name("customer"), None);
    assert_eq!(split_qualified_name("a.b.c"), None);
    assert_eq!(split_qualified_name(""), None);
}

#[test]
fn decimal_digits_parse_to_numbers() {
    assert_eq!(parse_usize("0"), Some(0));
    assert_eq!(parse_usize("007"), Some(7));
    assert_eq!(parse_usize("1203"), Some(1203));
    assert_eq!(parse_usize(&usize::MAX.to_string()), Some(usize::MAX));
    assert_eq!(parse_usize(&format!("{}0", usize::MAX)), None);
    assert_eq!(parse_usize("99999999999999999999999999"), None);
    assert_eq!(parse_usize(""), None);
    assert_eq!(parse_usize("12a"), None);
    assert_eq!(parse_usize("-1"), None);
    assert_eq!(parse_usize("+1"), None);
}

#[test]
fn option_and_unique_are_unwrapped_one_level() {
    let ty = of("Option", vec![GenericArg::Type(of("Unique", vec![GenericArg::Type(plain("String"))]))]);
    let inner = unwrap_option_or_self(&ty);
    assert_eq!(ident(inner), "Unique");
    assert_eq!(ident(unwrap_unique_or_self(inner)), "String");
    assert_eq!(ident(unwrap_unique_or_self(&ty)), "Option");
    assert_eq!(ident(unwrap_option_or_self(&plain("String"))), "String");
    let no_type = of("Option", vec![GenericArg::Other]);
    assert_eq!(ident(unwrap_option_or_self(&no_type)), "Option");
    assert!(matches!(unwrap_option_or_self(&TypeRef::Other), TypeRef::Other));
}

#[test]
fn plain_string_becomes_a_conversion() {
    assert!(matches!(
        replace_string_with_into_string(plain("String")),
        TypeRef::ImplIntoString
    ));
    assert_eq!(ident(&replace_string_with_into_string(plain("i32"))), "i32");
    let long = TypeRef::Path(TypePath {
        qualified: false,
        leading_colon: false,
        segments: vec![
            Segment { ident: "std".to_string(), args: PathArgs::Absent },
            Segment { ident: "String".to_string(), args: PathArgs::Absent },
        ],
    });
    assert!(matches!(replace_string_with_into_string(long), TypeRef::Path(_)));
    assert_eq!(generate_field_to_string_expr("email", &TypeRef::ImplIntoString), "email.into()");
    assert_eq!(generate_field_to_string_expr("id", &plain("i32")), "id.to_string()");
}

#[test]
fn custom_types_are_read_from_the_last_segment() {
    let pk = of("PrimaryKey", vec![GenericArg::Type(plain("Self")), GenericArg::Type(plain("i32"))]);
    assert!(matches!(parse_custom_type(&pk), CustomType::PrimaryKey));
    let one_arg = of("PrimaryKey", vec![GenericArg::Type(plain("i32"))]);
    assert!(matches!(parse_custom_type(&one_arg), CustomType::Other));
    let fk = of(
        "ForeignKey",
        vec![
            GenericArg::Type(plain("Customer")),
            GenericArg::Const(ConstArg::Int("1".to_string())),
            GenericArg::Type(plain("i32")),
        ],
    );
    match parse_custom_type(&fk) {
        CustomType::ForeignKey(entity, ordinal) => {
            assert_eq!(entity.as_deref(), Some("Customer"));
            assert_eq!(ordinal, 1);
        }
        _ => panic!("a foreign key"),
    }
    let bad_ordinal = of(
        "ForeignKey",
        vec![
            GenericArg::Type(plain("Customer")),
            GenericArg::Const(ConstArg::Other),
            GenericArg::Type(plain("i32")),
        ],
    );
    assert!(matches!(parse_custom_type(&bad_ordinal), CustomType::Other));
    let unique = of("Option", vec![GenericArg::Type(of("Unique", vec![GenericArg::Type(plain("String"))]))]);
    assert!(matches!(parse_custom_type(&unique), CustomType::Unique));
    assert!(matches!(parse_custom_type(&plain("String")), CustomType::Other));
    assert!(matches!(parse_custom_type(&TypeRef::Other), CustomType::Other));
}

#[test]
fn identifiers_are_single_plain_segments() {
    let path = |ty: TypeRef| match ty {
        TypeRef::Path(p) => p,
        _ => panic!("a path"),
    };
    assert_eq!(get_ident(&path(plain("Customer"))).as_deref(), Some("Customer"));
    assert_eq!(get_ident(&path(of("Customer", vec![]))), None);
    let mut leading = path(plain("Customer"));
    leading.leading_colon = true;
    assert_eq!(get_ident(&leading), None);
}

#[test]
fn constraints_follow_the_custom_type() {
    let pk = column_constraints(CustomType::PrimaryKey).unwrap();
    assert!(pk.primary_key && pk.unique && pk.foreign_key.is_none());
    let unique = column_constraints(CustomType::Unique).unwrap();
    assert!(!unique.primary_key && unique.unique);
    let fk = column_constraints(CustomType::ForeignKey(Some("Customer".to_string()), 2)).unwrap();
    assert_eq!(fk.foreign_key, Some(("Customer".to_string(), 2)));
    assert!(!fk.unique && !fk.primary_key);
    assert_eq!(
        column_constraints(CustomType::ForeignKey(None, 2)).err(),
        Some(ConstraintError::EntityIsNoIdentifier)
    );
    let other = column_constraints(CustomType::Other).unwrap();
    assert!(!other.primary_key && !other.unique && other.foreign_key.is_none());
}

#[test]
fn table_metadata_keeps_the_fields_in_order() {
    let fields = vec![
        FieldSource {
            name: "id".to_string(),
            ty: of("PrimaryKey", vec![GenericArg::Type(plain("Self")), GenericArg::Type(plain("i32"))]),
            column_name: Some("order_id".to_string()),
        },
        FieldSource { name: "name".to_string(), ty: plain("String"), column_name: None },
        FieldSource {
            name: "email".to_string(),
            ty: of("Unique", vec![GenericArg::Type(plain("String"))]),
            column_name: None,
        },
    ];
    let table = expand_derive_table("Order".to_string(), fields).unwrap();
    assert_eq!(table.struct_name, "Order");
    assert_eq!(table.field_names(), vec!["id", "name", "email"]);
    assert!(table.fields[0].constraints.primary_key);
    assert!(!table.fields[1].constraints.unique);
    assert!(table.fields[2].constraints.unique);
    assert_eq!(table.exceptions(), vec![("id".to_string(), "order_id".to_string())]);
    assert_eq!(table.fields[0].db_column(), "order_id");
    assert_eq!(table.fields[1].db_column(), "name");

    let empty = TableMetadata::new("Empty".to_string());
    assert!(empty.field_names().is_empty());
    assert!(empty.exceptions().is_empty());
    let bare = ColumnMetadata::new("x".to_string(), plain("i32"));
    assert!(bare.attributes.column_name.is_none() && !bare.constraints.unique);
}

#[test]
fn a_foreign_key_to_a_path_fails_the_table() {
    let entity = TypeRef::Path(TypePath {
        qualified: false,
        leading_colon: false,
        segments: vec![
            Segment { ident: "shop".to_string(), args: PathArgs::Absent },
            Segment { ident: "Customer".to_string(), args: PathArgs::Absent },
        ],
    });
    let fields = vec![FieldSource {
        name: "customer_id".to_string(),
        ty: of(
            "ForeignKey",
            vec![
                GenericArg::Type(entity),
                GenericArg::Const(ConstArg::Int("1".to_string())),
                GenericArg::Type(plain("i32")),
            ],
        ),
        column_name: None,
    }];
    assert_eq!(
        expand_derive_table("Order".to_string(), fields).err(),
        Some(ConstraintError::EntityIsNoIdentifier)
    );
}

#[test]
fn names_of_generated_items() {
    assert_eq!(filter_name("Order"), "OrderFilter");
    assert_eq!(select_name("Order"), "OrderSelect");
    assert_eq!(getter_name("email"), "get_by_email");
    assert_eq!(exceptions_name("Order"), "ORDER_EXCEPTIONS");
    assert_eq!(singular_relation_name("Customer"), "customer");
    assert_eq!(singular_relation_name("Women"), "woman");
    assert_eq!(plural_relation_name("Order"), "orders");
}
