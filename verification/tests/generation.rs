use derive_pinned::accessor::{
    build_tagged_field, resolve_method_name, resolve_visibility, synthesize_accessor,
};
use derive_pinned::generator::{assemble, assemble_with, collect_tagged_fields};
use derive_pinned::{
    pin_accessor, Argument, Attribute, FieldDescription, GenerateError, GeneratedAccessor,
    ImplBlock, Literal, RecordDescription, Shape, TaggedField, Visibility,
};

fn text(s: &str) -> String {
    s.to_string()
}

fn plain_marker() -> Attribute {
    Attribute { path: vec![text("pin_accessor")], arguments: None }
}

fn marker(pairs: &[(&str, &str)]) -> Attribute {
    Attribute {
        path: vec![text("pin_accessor")],
        arguments: Some(
            pairs
                .iter()
                .map(|(key, value)| Argument::NameValue(text(key), Literal::Str(text(value))))
                .collect(),
        ),
    }
}

fn other_attribute(name: &str) -> Attribute {
    Attribute { path: vec![text(name)], arguments: None }
}

fn field(name: &str, ty: &str, vis: Visibility, attrs: Vec<Attribute>) -> FieldDescription {
    FieldDescription { name: text(name), ty: text(ty), vis, attrs }
}

fn record(name: &str, fields: Vec<FieldDescription>) -> RecordDescription {
    RecordDescription {
        name: text(name),
        generics: String::new(),
        where_clause: String::new(),
        shape: Shape::NamedStruct(fields),
    }
}

fn shaped(shape: Shape) -> RecordDescription {
    RecordDescription {
        name: text("Foo"),
        generics: String::new(),
        where_clause: String::new(),
        shape,
    }
}

fn names(block: &ImplBlock) -> Vec<&str> {
    block.methods.iter().map(|method| method.name.as_str()).collect()
}

fn crate_visible() -> Visibility {
    Visibility::Restricted { explicit_in: false, path: text("crate") }
}

#[test]
fn a_struct_without_marked_fields_gets_an_empty_block() {
    let input = record(
        "Foo",
        vec![
            field("a", "i32", Visibility::Inherited, vec![]),
            field("b", "String", Visibility::Public, vec![other_attribute("doc")]),
        ],
    );
    let block = pin_accessor(&input).unwrap();
    assert_eq!(
        block,
        ImplBlock {
            impl_generics: String::new(),
            name: text("Foo"),
            type_generics: String::new(),
            where_clause: String::new(),
            methods: vec![],
        }
    );
    assert_eq!(block.render(), "impl Foo { }");
}

#[test]
fn a_struct_without_fields_gets_an_empty_block() {
    let block = pin_accessor(&record("Empty", vec![])).unwrap();
    assert!(block.methods.is_empty());
    assert_eq!(block.render(), "impl Empty { }");
}

#[test]
fn the_default_method_name_is_the_field_name_with_a_suffix() {
    for name in ["bar", "x", "_hidden", "already_pinned", "état"] {
        let input = record("Foo", vec![field(name, "u8", Visibility::Inherited, vec![plain_marker()])]);
        let block = pin_accessor(&input).unwrap();
        assert_eq!(names(&block), vec![format!("{}_pinned", name)]);
    }
}

#[test]
fn a_custom_method_name_is_used_as_it_is() {
    let input = record(
        "Foo",
        vec![field("bar", "u8", Visibility::Inherited, vec![marker(&[("name", "custom")])])],
    );
    assert_eq!(names(&pin_accessor(&input).unwrap()), vec!["custom"]);
}

#[test]
fn the_method_inherits_the_visibility_of_the_field() {
    for vis in [
        Visibility::Inherited,
        Visibility::Public,
        Visibility::Crate,
        crate_visible(),
        Visibility::Restricted { explicit_in: true, path: text("outer :: inner") },
    ] {
        let input = record("Foo", vec![field("bar", "u8", vis.clone(), vec![plain_marker()])]);
        let block = pin_accessor(&input).unwrap();
        assert_eq!(block.methods[0].vis, vis);

        let named = record(
            "Foo",
            vec![field("bar", "u8", vis.clone(), vec![marker(&[("name", "get")])])],
        );
        assert_eq!(pin_accessor(&named).unwrap().methods[0].vis, vis);
    }
}

#[test]
fn a_pub_override_makes_the_method_public() {
    for vis in [Visibility::Inherited, Visibility::Public, Visibility::Crate, crate_visible()] {
        let input = record("Foo", vec![field("bar", "u8", vis, vec![marker(&[("vis", "pub")])])]);
        let block = pin_accessor(&input).unwrap();
        assert_eq!(block.methods[0].vis, Visibility::Public);
        assert_eq!(block.methods[0].name, "bar_pinned");
    }
}

#[test]
fn a_vis_override_can_narrow_a_public_field() {
    let input = record(
        "Foo",
        vec![field("bar", "u8", Visibility::Public, vec![marker(&[("vis", "pub(crate)")])])],
    );
    assert_eq!(pin_accessor(&input).unwrap().methods[0].vis, crate_visible());

    let private = record(
        "Foo",
        vec![field("bar", "u8", Visibility::Public, vec![marker(&[("vis", "")])])],
    );
    assert_eq!(pin_accessor(&private).unwrap().methods[0].vis, Visibility::Inherited);
}

#[test]
fn accessors_come_in_declaration_order() {
    let input = record(
        "Foo",
        vec![
            field("zeta", "u8", Visibility::Inherited, vec![plain_marker()]),
            field("skipped", "u8", Visibility::Inherited, vec![]),
            field("alpha", "u8", Visibility::Inherited, vec![marker(&[("name", "first")])]),
            field("also_skipped", "u8", Visibility::Inherited, vec![other_attribute("doc")]),
            field("mid", "u8", Visibility::Inherited, vec![plain_marker()]),
            field("alpha2", "u8", Visibility::Inherited, vec![plain_marker()]),
        ],
    );
    let block = pin_accessor(&input).unwrap();
    assert_eq!(names(&block), vec!["zeta_pinned", "first", "mid_pinned", "alpha2_pinned"]);
}

#[test]
fn equal_method_names_are_all_kept() {
    let input = record(
        "Foo",
        vec![
            field("a", "u8", Visibility::Inherited, vec![marker(&[("name", "get")])]),
            field("b", "u16", Visibility::Inherited, vec![marker(&[("name", "get")])]),
        ],
    );
    let block = pin_accessor(&input).unwrap();
    assert_eq!(names(&block), vec!["get", "get"]);
    assert_eq!(block.methods[0].return_type, ":: std :: mem :: Pin < 'a , u8 >");
    assert_eq!(block.methods[1].return_type, ":: std :: mem :: Pin < 'a , u16 >");
}

#[test]
fn a_single_marked_field_yields_one_accessor() {
    let input = record("Foo", vec![field("bar", "i32", Visibility::Inherited, vec![plain_marker()])]);
    let block = pin_accessor(&input).unwrap();
    assert_eq!(
        block.methods,
        vec![GeneratedAccessor {
            vis: Visibility::Inherited,
            name: text("bar_pinned"),
            receiver: text("self : & 'a mut :: std :: mem :: Pin < Self >"),
            return_type: text(":: std :: mem :: Pin < 'a , i32 >"),
            body: text(
                "unsafe { :: std :: mem :: Pin :: map ( self , | this | & mut this . bar ) }"
            ),
        }]
    );
}

#[test]
fn name_and_vis_overrides_yield_a_public_named_accessor() {
    let input = record(
        "Foo",
        vec![field(
            "bar",
            "i32",
            Visibility::Inherited,
            vec![marker(&[("name", "get_bar"), ("vis", "pub")])],
        )],
    );
    let block = pin_accessor(&input).unwrap();
    assert_eq!(block.methods.len(), 1);
    assert_eq!(block.methods[0].name, "get_bar");
    assert_eq!(block.methods[0].vis, Visibility::Public);
    assert_eq!(block.methods[0].return_type, ":: std :: mem :: Pin < 'a , i32 >");
}

#[test]
fn a_tuple_struct_is_refused() {
    assert_eq!(pin_accessor(&shaped(Shape::TupleStruct)), Err(GenerateError::UnsupportedShape));
}

#[test]
fn unit_structs_enums_and_unions_are_refused() {
    assert_eq!(pin_accessor(&shaped(Shape::UnitStruct)), Err(GenerateError::UnsupportedShape));
    assert_eq!(pin_accessor(&shaped(Shape::Enum)), Err(GenerateError::UnsupportedShape));
    assert_eq!(pin_accessor(&shaped(Shape::Union)), Err(GenerateError::UnsupportedShape));
}

#[test]
fn an_invalid_name_aborts_the_pass() {
    let input = record(
        "Foo",
        vec![
            field("fine", "u8", Visibility::Inherited, vec![plain_marker()]),
            field("bar", "i32", Visibility::Inherited, vec![marker(&[("name", "123bad")])]),
        ],
    );
    let error = pin_accessor(&input).unwrap_err();
    assert_eq!(error, GenerateError::UnparsableName(text("error while lexing input string")));
    assert!(error.message().contains("`name`"));
}

#[test]
fn an_invalid_vis_aborts_the_pass() {
    let input = record(
        "Foo",
        vec![field("bar", "i32", Visibility::Inherited, vec![marker(&[("vis", "everyone")])])],
    );
    let error = pin_accessor(&input).unwrap_err();
    assert_eq!(
        error,
        GenerateError::UnparsableVis(text(
            "failed to parse visibility qualifier such as `pub`: failed to parse anything"
        ))
    );
    assert!(error.message().contains("`vis`"));
}

#[test]
fn a_value_that_is_no_string_aborts_the_pass() {
    let number = Attribute {
        path: vec![text("pin_accessor")],
        arguments: Some(vec![Argument::NameValue(text("name"), Literal::Other(text("7")))]),
    };
    let input = record("Foo", vec![field("bar", "i32", Visibility::Inherited, vec![number])]);
    assert_eq!(pin_accessor(&input), Err(GenerateError::InvalidLiteral(text("name"))));

    let flag = Attribute {
        path: vec![text("pin_accessor")],
        arguments: Some(vec![Argument::NameValue(text("vis"), Literal::Other(text("true")))]),
    };
    let input = record("Foo", vec![field("bar", "i32", Visibility::Inherited, vec![flag])]);
    assert_eq!(pin_accessor(&input), Err(GenerateError::InvalidLiteral(text("vis"))));
}

#[test]
fn the_name_is_resolved_before_the_visibility() {
    let both_bad = marker(&[("vis", "everyone"), ("name", "123bad")]);
    let input = record("Foo", vec![field("bar", "i32", Visibility::Inherited, vec![both_bad])]);
    assert_eq!(
        pin_accessor(&input),
        Err(GenerateError::UnparsableName(text("error while lexing input string")))
    );
}

#[test]
fn the_first_field_in_error_decides() {
    let input = record(
        "Foo",
        vec![
            field("a", "u8", Visibility::Inherited, vec![marker(&[("vis", "everyone")])]),
            field("b", "u8", Visibility::Inherited, vec![marker(&[("name", "123bad")])]),
        ],
    );
    assert_eq!(
        pin_accessor(&input),
        Err(GenerateError::UnparsableVis(text(
            "failed to parse visibility qualifier such as `pub`: failed to parse anything"
        )))
    );
}

#[test]
fn only_the_first_marker_of_a_field_counts() {
    let input = record(
        "Foo",
        vec![field(
            "bar",
            "i32",
            Visibility::Inherited,
            vec![
                other_attribute("doc"),
                marker(&[("name", "first")]),
                marker(&[("name", "second"), ("vis", "pub")]),
            ],
        )],
    );
    let block = pin_accessor(&input).unwrap();
    assert_eq!(names(&block), vec!["first"]);
    assert_eq!(block.methods[0].vis, Visibility::Inherited);
}

#[test]
fn an_error_in_a_later_marker_is_not_seen() {
    let input = record(
        "Foo",
        vec![field(
            "bar",
            "i32",
            Visibility::Inherited,
            vec![plain_marker(), marker(&[("name", "123bad")])],
        )],
    );
    assert_eq!(names(&pin_accessor(&input).unwrap()), vec!["bar_pinned"]);
}

#[test]
fn a_qualified_marker_marks_a_field() {
    let qualified =
        Attribute { path: vec![text("derive_pinned"), text("pin_accessor")], arguments: None };
    let input = record("Foo", vec![field("bar", "i32", Visibility::Inherited, vec![qualified])]);
    assert_eq!(names(&pin_accessor(&input).unwrap()), vec!["bar_pinned"]);
}

#[test]
fn unknown_arguments_do_not_change_the_accessor() {
    let noisy = Attribute {
        path: vec![text("pin_accessor")],
        arguments: Some(vec![
            Argument::Word(text("skip")),
            Argument::NameValue(text("rename"), Literal::Str(text("123bad"))),
            Argument::NameValue(text("name"), Literal::Str(text("get_bar"))),
            Argument::List(text("cfg")),
            Argument::Literal(Literal::Other(text("3"))),
        ]),
    };
    let quiet = marker(&[("name", "get_bar")]);
    let with = record("Foo", vec![field("bar", "i32", Visibility::Inherited, vec![noisy])]);
    let without = record("Foo", vec![field("bar", "i32", Visibility::Inherited, vec![quiet])]);
    assert_eq!(pin_accessor(&with), pin_accessor(&without));
}

#[test]
fn generic_parameters_are_split_for_the_header() {
    let mut input = record("Wrapper", vec![]);
    input.generics = text("< 'a , T : Clone + 'a = u8 , U >");
    input.where_clause = text("where U : Copy");
    let block = pin_accessor(&input).unwrap();
    assert_eq!(block.impl_generics, "< 'a , T : Clone + 'a , U >");
    assert_eq!(block.type_generics, "< 'a , T , U >");
    assert_eq!(block.where_clause, "where U : Copy");
    assert_eq!(block.name, "Wrapper");
}

#[test]
fn generic_parameters_are_read_as_tokens() {
    let mut input = record("Wrapper", vec![]);
    input.generics = text("<T:Clone>");
    let block = pin_accessor(&input).unwrap();
    assert_eq!(block.impl_generics, "< T : Clone >");
    assert_eq!(block.type_generics, "< T >");
}

#[test]
fn generic_parameters_that_do_not_parse_abort_the_pass() {
    let mut input = record(
        "Foo",
        vec![field("bar", "i32", Visibility::Inherited, vec![marker(&[("name", "123bad")])])],
    );
    input.generics = text("< T");
    assert_eq!(
        pin_accessor(&input),
        Err(GenerateError::UnparsableGenerics(text(
            "failed to parse generic parameters in declaration: failed to parse anything"
        )))
    );
}

#[test]
fn the_shape_is_looked_at_before_the_generic_parameters() {
    for shape in [Shape::TupleStruct, Shape::UnitStruct, Shape::Enum, Shape::Union] {
        let mut input = shaped(shape);
        input.generics = text("< T");
        assert_eq!(pin_accessor(&input), Err(GenerateError::UnsupportedShape));
    }
}

#[test]
fn a_type_without_generic_parameters_gets_a_bare_header() {
    let block = pin_accessor(&record("Foo", vec![])).unwrap();
    assert_eq!(block.impl_generics, "");
    assert_eq!(block.type_generics, "");
}

#[test]
fn an_untagged_field_settles_to_nothing() {
    let plain = field("bar", "i32", Visibility::Public, vec![other_attribute("doc")]);
    assert_eq!(build_tagged_field(&plain), Ok(None));
}

#[test]
fn a_tagged_field_settles_to_its_parts() {
    let tagged = field("bar", "Vec < u8 >", Visibility::Crate, vec![marker(&[("name", "bytes")])]);
    assert_eq!(
        build_tagged_field(&tagged),
        Ok(Some(TaggedField {
            field: text("bar"),
            ty: text("Vec < u8 >"),
            method: text("bytes"),
            vis: Visibility::Crate,
        }))
    );
}

#[test]
fn the_method_name_is_resolved_from_the_marker_or_the_field() {
    let subject = field("bar", "i32", Visibility::Inherited, vec![]);
    assert_eq!(resolve_method_name(&subject, &plain_marker()), Ok(text("bar_pinned")));
    assert_eq!(resolve_method_name(&subject, &marker(&[("name", "get")])), Ok(text("get")));
    assert_eq!(
        resolve_method_name(&subject, &marker(&[("name", "a b")])),
        Err(GenerateError::UnparsableName(text(
            "failed to parse identifier: failed to parse all tokens"
        )))
    );
}

#[test]
fn the_visibility_is_resolved_from_the_marker_or_the_field() {
    let subject = field("bar", "i32", Visibility::Crate, vec![]);
    assert_eq!(resolve_visibility(&subject, &plain_marker()), Ok(Visibility::Crate));
    assert_eq!(resolve_visibility(&subject, &marker(&[("vis", "pub")])), Ok(Visibility::Public));
    assert_eq!(
        resolve_visibility(&subject, &marker(&[("vis", "pub pub")])),
        Err(GenerateError::UnparsableVis(text(
            "failed to parse visibility qualifier such as `pub`: failed to parse all tokens"
        )))
    );
}

#[test]
fn an_accessor_is_written_from_a_tagged_field() {
    let tagged = TaggedField {
        field: text("inner"),
        ty: text("Box < T >"),
        method: text("inner_mut"),
        vis: crate_visible(),
    };
    assert_eq!(
        synthesize_accessor(&tagged),
        GeneratedAccessor {
            vis: crate_visible(),
            name: text("inner_mut"),
            receiver: text("self : & 'a mut :: std :: mem :: Pin < Self >"),
            return_type: text(":: std :: mem :: Pin < 'a , Box < T > >"),
            body: text(
                "unsafe { :: std :: mem :: Pin :: map ( self , | this | & mut this . inner ) }"
            ),
        }
    );
}

#[test]
fn tagged_fields_are_collected_in_order() {
    let fields = vec![
        field("a", "u8", Visibility::Inherited, vec![plain_marker()]),
        field("b", "u8", Visibility::Inherited, vec![]),
        field("c", "u16", Visibility::Public, vec![plain_marker()]),
    ];
    assert_eq!(
        collect_tagged_fields(&fields),
        Ok(vec![
            TaggedField {
                field: text("a"),
                ty: text("u8"),
                method: text("a_pinned"),
                vis: Visibility::Inherited,
            },
            TaggedField {
                field: text("c"),
                ty: text("u16"),
                method: text("c_pinned"),
                vis: Visibility::Public,
            },
        ])
    );
    assert_eq!(collect_tagged_fields(&Vec::new()), Ok(vec![]));
}

#[test]
fn a_block_is_assembled_around_the_given_generics() {
    let input = record("Foo", vec![field("bar", "T", Visibility::Inherited, vec![plain_marker()])]);
    let block = assemble(&input, text("< T : Clone >"), text("< T >")).unwrap();
    assert_eq!(block.impl_generics, "< T : Clone >");
    assert_eq!(block.type_generics, "< T >");
    assert_eq!(names(&block), vec!["bar_pinned"]);
    assert_eq!(
        assemble(&shaped(Shape::Enum), String::new(), String::new()),
        Err(GenerateError::UnsupportedShape)
    );
}

#[test]
fn the_parsers_answer_on_the_generics_is_passed_on() {
    let input = record("Foo", vec![]);
    let block = assemble_with(&input, Ok((text("< T >"), text("< T >")))).unwrap();
    assert_eq!(block.render(), "impl < T > Foo < T > { }");
    assert_eq!(
        assemble_with(&input, Err(text("no generics"))),
        Err(GenerateError::UnparsableGenerics(text("no generics")))
    );
    assert_eq!(
        assemble_with(&shaped(Shape::TupleStruct), Err(text("no generics"))),
        Err(GenerateError::UnsupportedShape)
    );
    assert_eq!(
        assemble_with(&shaped(Shape::Enum), Ok((text("< T >"), text("< T >")))),
        Err(GenerateError::UnsupportedShape)
    );
}
