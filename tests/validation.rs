use locate_error::shape::{
    field_is_marked, is_location_type_ref, locate_from_attr_index, Attr, Data, Field, Fields,
    MetaStyle, PathRef, Segment, TypeDef, TypeRef, Variant,
};
use locate_error::validate::{locate, Anchor, Diagnostic, DiagnosticKind, Plan};

fn path(segments: &[&str]) -> PathRef {
    PathRef {
        leading_colon: false,
        segments: segments
            .iter()
            .map(|s| Segment { ident: s.to_string(), has_arguments: false })
            .collect(),
    }
}

fn attr(name: &str, style: MetaStyle) -> Attr {
    Attr { path: path(&[name]), style }
}

fn marker() -> Attr {
    attr("locate_from", MetaStyle::Path)
}

fn ty(segments: &[&str]) -> TypeRef {
    TypeRef::Path(path(segments))
}

fn field(name: Option<&str>, t: TypeRef, attrs: Vec<Attr>) -> Field {
    Field { name: name.map(|n| n.to_string()), ty: t, attrs }
}

fn src(name: Option<&str>, segments: &[&str]) -> Field {
    field(name, ty(segments), vec![marker()])
}

fn plain(name: Option<&str>, segments: &[&str]) -> Field {
    field(name, ty(segments), vec![])
}

fn variant(name: &str, fields: Fields) -> Variant {
    Variant { name: name.to_string(), fields }
}

fn enum_def(name: &str, variants: Vec<Variant>) -> TypeDef {
    TypeDef { name: name.to_string(), data: Data::Enum(variants) }
}

fn struct_def(name: &str, fields: Vec<Field>) -> TypeDef {
    TypeDef { name: name.to_string(), data: Data::Struct(Fields::Named(fields)) }
}

fn plan(variant: Option<usize>, source_field: usize, location_field: usize) -> Plan {
    Plan { variant, source_field, location_field }
}

fn fails(t: &TypeDef, kind: DiagnosticKind, anchor: Anchor) {
    assert_eq!(locate(t), Err(Diagnostic { kind, anchor }));
}

#[test]
fn test_locate_from_attr_index() {
    let attributes = vec![];
    assert!(locate_from_attr_index(&attributes).is_none());

    let attributes = vec![marker()];
    assert!(locate_from_attr_index(&attributes) == Some(0));

    let attributes = vec![attr("locate_from", MetaStyle::NameValue)];
    assert!(locate_from_attr_index(&attributes).is_none());

    let attributes = vec![attr("derive", MetaStyle::List), marker()];
    assert!(locate_from_attr_index(&attributes).is_some());

    let attributes = vec![attr("derive", MetaStyle::List), attr("derive", MetaStyle::List)];
    assert!(locate_from_attr_index(&attributes).is_none());
}

#[test]
fn marker_must_be_the_plain_identifier() {
    let qualified = Attr { path: path(&["a", "locate_from"]), style: MetaStyle::Path };
    assert_eq!(locate_from_attr_index(&vec![qualified]), None);
    let mut rooted = path(&["locate_from"]);
    rooted.leading_colon = true;
    assert_eq!(locate_from_attr_index(&vec![Attr { path: rooted, style: MetaStyle::Path }]), None);
    assert_eq!(locate_from_attr_index(&vec![attr("locate_from", MetaStyle::List)]), None);
    assert!(field_is_marked(&src(None, &["String"])));
    assert!(!field_is_marked(&plain(None, &["String"])));
}

#[test]
fn location_type_by_last_segment() {
    assert!(is_location_type_ref(&ty(&["Location"])));
    assert!(is_location_type_ref(&ty(&["locate_error", "Location"])));
    assert!(!is_location_type_ref(&ty(&["Location", "Inner"])));
    assert!(!is_location_type_ref(&ty(&[])));
    assert!(!is_location_type_ref(&TypeRef::Other));
}

#[test]
fn run_passing_tests() {
    let enums = enum_def(
        "TestError",
        vec![
            variant("Simple", Fields::Unnamed(vec![src(None, &["String"]), plain(None, &["Location"])])),
            variant(
                "Complex",
                Fields::Named(vec![
                    src(Some("source"), &["std", "io", "Error"]),
                    plain(Some("location"), &["Location"]),
                ]),
            ),
        ],
    );
    assert_eq!(locate(&enums), Ok(vec![plan(Some(0), 0, 1), plan(Some(1), 0, 1)]));

    let structs = struct_def(
        "TestStruct",
        vec![src(Some("inner"), &["Inner"]), plain(Some("location"), &["Location"])],
    );
    assert_eq!(locate(&structs), Ok(vec![plan(None, 0, 1)]));
}

#[test]
fn struct_compile_failures() {
    let extra = struct_def(
        "ExtraFields",
        vec![
            src(Some("inner"), &["Inner"]),
            plain(Some("location"), &["Location"]),
            plain(Some("extra_field"), &["String"]),
        ],
    );
    fails(&extra, DiagnosticKind::StructFieldCount, Anchor::Type);

    let missing_location = struct_def(
        "MissingLocation",
        vec![src(Some("inner"), &["Inner"]), plain(Some("extra_field"), &["String"])],
    );
    fails(&missing_location, DiagnosticKind::StructLocationField, Anchor::Type);

    let missing_source = struct_def(
        "MissingSource",
        vec![plain(Some("location"), &["Location"]), plain(Some("extra_field"), &["String"])],
    );
    fails(&missing_source, DiagnosticKind::StructMarkedCount(0), Anchor::Type);

    let multiple = struct_def(
        "MultipleSourceFields",
        vec![
            src(Some("inner"), &["Inner"]),
            plain(Some("location"), &["Location"]),
            src(Some("extra_field"), &["String"]),
        ],
    );
    fails(&multiple, DiagnosticKind::StructMarkedCount(2), Anchor::Type);
}

#[test]
fn enum_compile_failures() {
    let too_many = enum_def(
        "TestEnum",
        vec![variant(
            "Variant1",
            Fields::Unnamed(vec![src(None, &["String"]), plain(None, &["Location"]), plain(None, &["String"])]),
        )],
    );
    fails(&too_many, DiagnosticKind::VariantFieldCount, Anchor::Variant(0));

    let no_location = enum_def("TestEnum2", vec![variant("Variant1", Fields::Unnamed(vec![src(None, &["String"])]))]);
    fails(&no_location, DiagnosticKind::VariantFieldCount, Anchor::Variant(0));

    let no_marker = enum_def(
        "TestEnum3",
        vec![
            variant("Variant1", Fields::Unnamed(vec![plain(None, &["String"]), plain(None, &["Location"])])),
            variant("Variant2", Fields::Unnamed(vec![plain(None, &["String"])])),
        ],
    );
    fails(&no_marker, DiagnosticKind::NoMarkedVariant, Anchor::Type);

    let two_markers = enum_def(
        "TestEnum4",
        vec![variant(
            "Variant1",
            Fields::Unnamed(vec![src(None, &["String"]), plain(None, &["Location"]), src(None, &["u32"])]),
        )],
    );
    fails(&two_markers, DiagnosticKind::VariantFieldCount, Anchor::Variant(0));

    let wrong_type = enum_def(
        "TestEnum5",
        vec![variant("Variant1", Fields::Unnamed(vec![src(None, &["String"]), plain(None, &["u32"])]))],
    );
    fails(&wrong_type, DiagnosticKind::VariantLocationType, Anchor::Field(0, 1));

    let named_too_many = enum_def(
        "TestEnum",
        vec![variant(
            "Variant1",
            Fields::Named(vec![
                src(Some("source"), &["String"]),
                plain(Some("location"), &["Location"]),
                plain(Some("extra"), &["String"]),
            ]),
        )],
    );
    fails(&named_too_many, DiagnosticKind::VariantFieldCount, Anchor::Variant(0));

    let named_no_location =
        enum_def("TestEnum2", vec![variant("Variant1", Fields::Named(vec![src(Some("source"), &["String"])]))]);
    fails(&named_no_location, DiagnosticKind::VariantLocationField, Anchor::Variant(0));

    let named_no_marker = enum_def(
        "TestEnum3",
        vec![
            variant(
                "Variant1",
                Fields::Named(vec![plain(Some("source"), &["String"]), plain(Some("location"), &["Location"])]),
            ),
            variant("Variant2", Fields::Named(vec![plain(Some("source"), &["String"])])),
        ],
    );
    fails(&named_no_marker, DiagnosticKind::NoMarkedVariant, Anchor::Type);

    let named_two_markers = enum_def(
        "TestEnum4",
        vec![variant(
            "Variant1",
            Fields::Named(vec![
                src(Some("source"), &["String"]),
                plain(Some("location"), &["Location"]),
                src(Some("extra"), &["u32"]),
            ]),
        )],
    );
    fails(&named_two_markers, DiagnosticKind::VariantFieldCount, Anchor::Variant(0));
}

#[test]
fn thiserror_integration() {
    let outer = enum_def(
        "OuterError",
        vec![
            variant("Inner", Fields::Unnamed(vec![src(None, &["InnerError"]), plain(None, &["Location"])])),
            variant(
                "Inner2",
                Fields::Named(vec![src(Some("inner"), &["InnerError2"]), plain(Some("location"), &["Location"])]),
            ),
            variant(
                "Transparent",
                Fields::Unnamed(vec![field(None, ty(&["TransparentError"]), vec![attr("from", MetaStyle::Path)])]),
            ),
            variant(
                "Source",
                Fields::Named(vec![field(Some("source"), ty(&["SourceError"]), vec![attr("source", MetaStyle::Path)])]),
            ),
        ],
    );
    assert_eq!(locate(&outer), Ok(vec![plan(Some(0), 0, 1), plan(Some(1), 0, 1)]));
}

#[test]
fn location_may_come_first() {
    let t = enum_def(
        "E",
        vec![
            variant("A", Fields::Unnamed(vec![plain(None, &["Location"]), src(None, &["String"])])),
            variant("B", Fields::Unit),
            variant(
                "C",
                Fields::Named(vec![plain(Some("location"), &["Location"]), src(Some("inner"), &["Inner"])]),
            ),
        ],
    );
    assert_eq!(locate(&t), Ok(vec![plan(Some(0), 1, 0), plan(Some(2), 1, 0)]));
}

#[test]
fn marked_field_of_other_type_form_plans_nothing() {
    let t = enum_def(
        "E",
        vec![
            variant("A", Fields::Unnamed(vec![field(None, TypeRef::Other, vec![marker()]), plain(None, &["Location"])])),
            variant("B", Fields::Unnamed(vec![src(None, &["u8"]), plain(None, &["Location"])])),
        ],
    );
    assert_eq!(locate(&t), Ok(vec![plan(Some(1), 0, 1)]));
    let s = struct_def("S", vec![field(Some("inner"), TypeRef::Other, vec![marker()]), plain(Some("location"), &["Location"])]);
    assert_eq!(locate(&s), Ok(vec![]));
}

#[test]
fn first_violation_is_reported() {
    let t = enum_def(
        "E",
        vec![
            variant("A", Fields::Unnamed(vec![src(None, &["String"]), plain(None, &["u8"])])),
            variant("B", Fields::Unnamed(vec![src(None, &["String"])])),
        ],
    );
    fails(&t, DiagnosticKind::VariantLocationType, Anchor::Field(0, 1));
}

#[test]
fn other_shapes_are_refused() {
    let empty = enum_def("Empty", vec![]);
    fails(&empty, DiagnosticKind::NoMarkedVariant, Anchor::Type);
    let union = TypeDef { name: "U".to_string(), data: Data::Union };
    fails(&union, DiagnosticKind::NotEnumOrStruct, Anchor::Type);
    let unit = TypeDef { name: "S".to_string(), data: Data::Struct(Fields::Unit) };
    fails(&unit, DiagnosticKind::StructMarkedCount(0), Anchor::Type);
    let tuple = TypeDef {
        name: "T".to_string(),
        data: Data::Struct(Fields::Unnamed(vec![src(None, &["Inner"]), plain(None, &["Location"])])),
    };
    fails(&tuple, DiagnosticKind::StructLocationField, Anchor::Type);
}

#[test]
fn diagnostic_messages() {
    let d = |kind| Diagnostic { kind, anchor: Anchor::Type }.message();
    assert!(d(DiagnosticKind::NoMarkedVariant).contains("(otherwise this macro is effectively a no-op)"));
    assert!(d(DiagnosticKind::VariantFieldCount).contains("exactly two fields, one for the source and one for the location"));
    assert!(d(DiagnosticKind::VariantLocationType).contains("must have a field of type"));
    assert!(d(DiagnosticKind::VariantLocationField).contains("must have a field named 'location'"));
    assert_eq!(
        d(DiagnosticKind::StructMarkedCount(2)),
        "Locate requires exactly one field marked with #[locate_from], found 2"
    );
    assert_eq!(
        d(DiagnosticKind::StructMarkedCount(0)),
        "Locate requires exactly one field marked with #[locate_from], found 0"
    );
    assert!(d(DiagnosticKind::StructFieldCount).contains("only a 'source' field"));
    assert!(d(DiagnosticKind::StructLocationField).contains("a field named 'location'"));
    assert_eq!(d(DiagnosticKind::NotEnumOrStruct), "Locate can only be derived for enums or structs");
}
