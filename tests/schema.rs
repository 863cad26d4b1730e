use collab::schema::{
    resolve, ASTContainer, ASTData, ASTResult, ASTStyle, AttrBody, Attribute, DataDecl, DeriveInput, ErrorKind,
    FieldDecl, FieldsDecl, Lit, Member, NestedMeta, Span, VariantDecl, YrsAttribute,
};

fn at(line: usize) -> Span {
    Span { line, column: 4 }
}

fn ty_item(value: &str, line: usize) -> NestedMeta {
    NestedMeta::NameValue { path: "ty".to_string(), lit: Lit::Str(value.to_string()), span: at(line) }
}

fn yrs_attr(items: Vec<NestedMeta>, line: usize) -> Attribute {
    Attribute { path: "yrs".to_string(), body: AttrBody::List(items), span: at(line) }
}

fn field(name: Option<&str>, attrs: Vec<Attribute>, line: usize) -> FieldDecl {
    FieldDecl { ident: name.map(|n| n.to_string()), ty: "String".to_string(), attrs, span: at(line) }
}

fn structure(fields: FieldsDecl) -> DeriveInput {
    DeriveInput { ident: "Doc".to_string(), data: DataDecl::Struct(fields), span: at(1) }
}

#[test]
fn two_malformed_fields_give_two_errors() {
    let fields = vec![
        field(Some("a"), vec![yrs_attr(vec![ty_item("u64", 2)], 2)], 2),
        field(Some("b"), vec![yrs_attr(vec![NestedMeta::Other { span: at(3) }], 3)], 3),
        field(
            Some("c"),
            vec![yrs_attr(
                vec![NestedMeta::NameValue { path: "name".to_string(), lit: Lit::Str("x".to_string()), span: at(4) }],
                4,
            )],
            4,
        ),
    ];
    let errors = match resolve(&structure(FieldsDecl::Named(fields))) {
        Err(e) => e,
        Ok(_) => panic!("a binding was produced"),
    };
    assert_eq!(errors.len(), 2);
    assert_eq!(errors[0].span, at(3));
    assert_eq!(errors[0].kind, ErrorKind::UnexpectedMeta);
    assert_eq!(errors[1].span, at(4));
    assert_eq!(errors[1].kind, ErrorKind::UnexpectedMeta);
}

#[test]
fn well_formed_struct_resolves() {
    let fields = vec![
        field(Some("a"), vec![yrs_attr(vec![ty_item("u64", 2)], 2)], 2),
        field(Some("b"), vec![Attribute { path: "serde".to_string(), body: AttrBody::Other, span: at(3) }], 3),
    ];
    let c = match resolve(&structure(FieldsDecl::Named(fields))) {
        Ok(c) => c,
        Err(_) => panic!("unexpected errors"),
    };
    assert_eq!(c.ident, "Doc");
    match &c.data {
        ASTData::Struct(style, fs) => {
            assert_eq!(*style, ASTStyle::Struct);
            assert_eq!(fs.len(), 2);
            assert!(matches!(&fs[0].member, Member::Named(n) if n == "a"));
            assert_eq!(fs[0].yrs_attr.ty.as_deref(), Some("u64"));
            assert_eq!(fs[1].yrs_attr.ty, None);
        },
        ASTData::Enum(_) => panic!("not a struct"),
    }
}

#[test]
fn non_string_type_tag_is_an_error() {
    let mut result = ASTResult::new();
    let f = field(
        Some("a"),
        vec![yrs_attr(vec![NestedMeta::NameValue { path: "ty".to_string(), lit: Lit::Other, span: at(7) }], 7)],
        7,
    );
    let attr = YrsAttribute::from_ast(&mut result, &f);
    assert_eq!(attr.ty, None);
    assert_eq!(result.errors.len(), 1);
    assert_eq!(result.errors[0].kind, ErrorKind::MalformedType);
    assert_eq!(result.errors[0].span, at(7));
}

#[test]
fn duplicate_type_tag_keeps_the_first() {
    let mut result = ASTResult::new();
    let f = field(Some("a"), vec![yrs_attr(vec![ty_item("u64", 2)], 2), yrs_attr(vec![ty_item("i32", 3)], 3)], 2);
    let attr = YrsAttribute::from_ast(&mut result, &f);
    assert_eq!(attr.ty.as_deref(), Some("u64"));
    assert_eq!(result.errors.len(), 1);
    assert_eq!(result.errors[0].kind, ErrorKind::DuplicateType);
    assert_eq!(result.errors[0].span, at(3));
    assert_eq!(result.errors[0].message(), "duplicate attribute `ty`");
}

#[test]
fn yrs_attribute_without_list_is_an_error() {
    let mut result = ASTResult::new();
    let f = field(Some("a"), vec![Attribute { path: "yrs".to_string(), body: AttrBody::Other, span: at(9) }], 9);
    let attr = YrsAttribute::from_ast(&mut result, &f);
    assert_eq!(attr.ty, None);
    assert_eq!(result.errors.len(), 1);
    assert_eq!(result.errors[0].kind, ErrorKind::ExpectedList);
}

#[test]
fn union_is_refused() {
    let input = DeriveInput { ident: "U".to_string(), data: DataDecl::Union, span: at(12) };
    let errors = match resolve(&input) {
        Err(e) => e,
        Ok(_) => panic!("a union was resolved"),
    };
    assert_eq!(errors.len(), 1);
    assert_eq!(errors[0].kind, ErrorKind::UnsupportedUnion);
    assert_eq!(errors[0].span, at(12));
    assert_eq!(errors[0].message(), "Does not support derive for unions");
}

#[test]
fn positional_styles() {
    let one = resolve(&structure(FieldsDecl::Unnamed(vec![field(None, vec![], 2)]))).ok().unwrap();
    match &one.data {
        ASTData::Struct(style, fs) => {
            assert_eq!(*style, ASTStyle::NewType);
            assert!(matches!(fs[0].member, Member::Unnamed(0)));
        },
        ASTData::Enum(_) => panic!("not a struct"),
    }
    let two = resolve(&structure(FieldsDecl::Unnamed(vec![field(None, vec![], 2), field(None, vec![], 3)]))).ok().unwrap();
    match &two.data {
        ASTData::Struct(style, fs) => {
            assert_eq!(*style, ASTStyle::Tuple);
            assert!(matches!(fs[1].member, Member::Unnamed(1)));
        },
        ASTData::Enum(_) => panic!("not a struct"),
    }
    let unit = resolve(&structure(FieldsDecl::Unit)).ok().unwrap();
    assert!(matches!(&unit.data, ASTData::Struct(ASTStyle::Unit, fs) if fs.is_empty()));
}

#[test]
fn enum_errors_gathered_over_variants() {
    let variants = vec![
        VariantDecl {
            ident: "A".to_string(),
            fields: FieldsDecl::Named(vec![field(Some("x"), vec![yrs_attr(vec![NestedMeta::Other { span: at(2) }], 2)], 2)]),
            span: at(2),
        },
        VariantDecl { ident: "B".to_string(), fields: FieldsDecl::Unit, span: at(3) },
        VariantDecl {
            ident: "C".to_string(),
            fields: FieldsDecl::Unnamed(vec![field(None, vec![yrs_attr(vec![NestedMeta::Other { span: at(4) }], 4)], 4)]),
            span: at(4),
        },
    ];
    let input = DeriveInput { ident: "E".to_string(), data: DataDecl::Enum(variants), span: at(1) };
    let errors = resolve(&input).err().unwrap();
    assert_eq!(errors.len(), 2);
    assert_eq!(errors[0].span, at(2));
    assert_eq!(errors[1].span, at(4));
}

#[test]
fn all_fields_of_an_enum() {
    let variants = vec![
        VariantDecl {
            ident: "A".to_string(),
            fields: FieldsDecl::Named(vec![field(Some("x"), vec![], 2), field(Some("y"), vec![], 3)]),
            span: at(2),
        },
        VariantDecl { ident: "B".to_string(), fields: FieldsDecl::Unit, span: at(4) },
        VariantDecl {
            ident: "C".to_string(),
            fields: FieldsDecl::Unnamed(vec![field(None, vec![yrs_attr(vec![ty_item("bool", 5)], 5)], 5)]),
            span: at(5),
        },
    ];
    let input = DeriveInput { ident: "E".to_string(), data: DataDecl::Enum(variants), span: at(1) };
    let c = resolve(&input).ok().unwrap();
    let all = c.data.all_fields();
    assert_eq!(all.len(), 3);
    assert!(matches!(&all[0].member, Member::Named(n) if n == "x"));
    assert!(matches!(&all[1].member, Member::Named(n) if n == "y"));
    assert!(matches!(all[2].member, Member::Unnamed(0)));
    assert_eq!(all[2].yrs_attr.ty.as_deref(), Some("bool"));
}

#[test]
fn from_ast_gives_no_container_when_fields_have_errors() {
    let mut result = ASTResult::new();
    let fields = vec![
        field(Some("a"), vec![yrs_attr(vec![NestedMeta::Other { span: at(2) }], 2)], 2),
        field(Some("b"), vec![], 3),
        field(Some("c"), vec![yrs_attr(vec![NestedMeta::Other { span: at(4) }], 4)], 4),
    ];
    let c = ASTContainer::from_ast(&mut result, &structure(FieldsDecl::Named(fields)));
    assert!(c.is_none());
    assert_eq!(result.errors.len(), 2);
    assert!(result.check().is_err());
}

#[test]
fn from_ast_gives_container_without_errors() {
    let mut result = ASTResult::new();
    let fields = vec![field(Some("a"), vec![yrs_attr(vec![ty_item("u8", 2)], 2)], 2)];
    let c = ASTContainer::from_ast(&mut result, &structure(FieldsDecl::Named(fields)));
    assert!(c.is_some());
    assert!(result.check().is_ok());
}
