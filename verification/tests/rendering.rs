use derive_pinned::text::{push_fragment, same_text, spaced_text};
use derive_pinned::{
    pin_accessor, Argument, Attribute, FieldDescription, GenerateError, GeneratedAccessor,
    ImplBlock, Literal, RecordDescription, Shape, Visibility,
};

fn text(s: &str) -> String {
    s.to_string()
}

fn marker(pairs: &[(&str, &str)]) -> Attribute {
    Attribute {
        path: vec![text("pin_accessor")],
        arguments: Some(
            pairs
                .iter()
                .map(|(key, value)| Argument::NameValue(text(key), Literal::Str(text(value))))
                .collect(),
        ),
    }
}

fn foo_with(marker: Attribute) -> RecordDescription {
    RecordDescription {
        name: text("Foo"),
        generics: String::new(),
        where_clause: String::new(),
        shape: Shape::NamedStruct(vec![FieldDescription {
            name: text("bar"),
            ty: text("i32"),
            vis: Visibility::Inherited,
            attrs: vec![marker],
        }]),
    }
}

fn accessor(vis: Visibility) -> GeneratedAccessor {
    GeneratedAccessor {
        vis,
        name: text("get"),
        receiver: text("self"),
        return_type: text("T"),
        body: text("body"),
    }
}

#[test]
fn fragments_are_joined_by_single_spaces() {
    assert_eq!(spaced_text(&vec!["impl", "Foo", "{", "}"]), "impl Foo { }");
    assert_eq!(spaced_text(&vec!["one"]), "one");
}

#[test]
fn empty_fragments_add_nothing() {
    assert_eq!(spaced_text(&vec!["", "fn", "", "", "get", ""]), "fn get");
    assert_eq!(spaced_text(&vec!["", ""]), "");
    assert_eq!(spaced_text(&Vec::new()), "");
}

#[test]
fn a_fragment_is_appended_after_a_space() {
    let mut out = text("pub");
    push_fragment(&mut out, "fn");
    assert_eq!(out, "pub fn");
    push_fragment(&mut out, "");
    assert_eq!(out, "pub fn");

    let mut empty = String::new();
    push_fragment(&mut empty, "fn");
    assert_eq!(empty, "fn");
}

#[test]
fn texts_are_compared_by_content() {
    assert!(same_text(&text("pin_accessor"), &text("pin_accessor")));
    assert!(!same_text(&text("pin_accessor"), &text("pin_accessors")));
    assert!(!same_text(&text(""), &text(" ")));
    assert!(same_text(&String::new(), &String::new()));
}

#[test]
fn visibilities_are_written_as_in_source() {
    assert_eq!(Visibility::Public.text(), "pub");
    assert_eq!(Visibility::Crate.text(), "crate");
    assert_eq!(Visibility::Inherited.text(), "");
    assert_eq!(
        Visibility::Restricted { explicit_in: false, path: text("crate") }.text(),
        "pub ( crate )"
    );
    assert_eq!(
        Visibility::Restricted { explicit_in: true, path: text("outer :: inner") }.text(),
        "pub ( in outer :: inner )"
    );
}

#[test]
fn a_method_is_written_with_its_visibility_first() {
    assert_eq!(accessor(Visibility::Public).text(), "pub fn get < 'a > ( self ) -> T { body }");
    assert_eq!(
        accessor(Visibility::Restricted { explicit_in: false, path: text("super") }).text(),
        "pub ( super ) fn get < 'a > ( self ) -> T { body }"
    );
}

#[test]
fn a_private_method_starts_with_fn() {
    assert_eq!(accessor(Visibility::Inherited).text(), "fn get < 'a > ( self ) -> T { body }");
}

#[test]
fn the_default_accessor_is_rendered_in_full() {
    let plain = Attribute { path: vec![text("pin_accessor")], arguments: None };
    let block = pin_accessor(&foo_with(plain)).unwrap();
    assert_eq!(
        block.render(),
        "impl Foo { \
         fn bar_pinned < 'a > ( self : & 'a mut :: std :: mem :: Pin < Self > ) \
         -> :: std :: mem :: Pin < 'a , i32 > \
         { unsafe { :: std :: mem :: Pin :: map ( self , | this | & mut this . bar ) } } \
         }"
    );
}

#[test]
fn the_overridden_accessor_is_rendered_in_full() {
    let block = pin_accessor(&foo_with(marker(&[("name", "get_bar"), ("vis", "pub")]))).unwrap();
    assert_eq!(
        block.render(),
        "impl Foo { \
         pub fn get_bar < 'a > ( self : & 'a mut :: std :: mem :: Pin < Self > ) \
         -> :: std :: mem :: Pin < 'a , i32 > \
         { unsafe { :: std :: mem :: Pin :: map ( self , | this | & mut this . bar ) } } \
         }"
    );
}

#[test]
fn a_generic_block_is_rendered_with_its_header() {
    let block = ImplBlock {
        impl_generics: text("< 'a , T : Clone >"),
        name: text("Wrapper"),
        type_generics: text("< 'a , T >"),
        where_clause: text("where T : 'a"),
        methods: vec![accessor(Visibility::Public), accessor(Visibility::Inherited)],
    };
    assert_eq!(
        block.render(),
        "impl < 'a , T : Clone > Wrapper < 'a , T > where T : 'a { \
         pub fn get < 'a > ( self ) -> T { body } \
         fn get < 'a > ( self ) -> T { body } \
         }"
    );
}

#[test]
fn every_error_has_its_message() {
    assert_eq!(
        GenerateError::UnsupportedShape.message(),
        "PinAccessor can only be derived for structs with named fields."
    );
    assert_eq!(
        GenerateError::InvalidLiteral(text("name")).message(),
        "Invalid literal for `name` argument to `pin_accessor` attribute."
    );
    assert_eq!(
        GenerateError::InvalidLiteral(text("vis")).message(),
        "Invalid literal for `vis` argument to `pin_accessor` attribute."
    );
    assert_eq!(
        GenerateError::UnparsableName(text("failed to parse")).message(),
        "Could not parse `name` argument as a method name: failed to parse"
    );
    assert_eq!(
        GenerateError::UnparsableVis(text("failed to parse")).message(),
        "Could not parse `vis` argument as a visibility: failed to parse"
    );
    assert_eq!(
        GenerateError::UnparsableGenerics(text("failed to parse")).message(),
        "Could not parse the generic parameters: failed to parse"
    );
}

#[test]
fn the_message_for_an_invalid_name_names_the_argument() {
    let error = pin_accessor(&foo_with(marker(&[("name", "123bad")]))).unwrap_err();
    assert_eq!(
        error.message(),
        "Could not parse `name` argument as a method name: error while lexing input string"
    );
}

#[test]
fn copies_are_equal_to_their_source() {
    let input = foo_with(marker(&[("name", "get_bar"), ("vis", "pub(crate)")]));
    assert_eq!(input.clone(), input);
    let block = pin_accessor(&input).unwrap();
    assert_eq!(block.clone(), block);
    let error = GenerateError::UnparsableName(text("x"));
    assert_eq!(error.clone(), error);
}

#[test]
fn rendered_text_is_what_its_tokens_print_as() {
    let mut input = foo_with(marker(&[("name", "get_bar"), ("vis", "pub(in outer::inner)")]));
    input.generics = text("<'a, T: Clone + 'a = u8>");
    input.where_clause = text("where T : Copy");
    if let Shape::NamedStruct(fields) = &mut input.shape {
        fields.push(FieldDescription {
            name: text("baz"),
            ty: text("Vec < & 'a T >"),
            vis: Visibility::Crate,
            attrs: vec![Attribute { path: vec![text("pin_accessor")], arguments: None }],
        });
    }
    let rendered = pin_accessor(&input).unwrap().render();
    let tokens: proc_macro2::TokenStream = rendered.parse().unwrap();
    assert_eq!(tokens.to_string(), rendered);
    assert_eq!(
        rendered,
        "impl < 'a , T : Clone + 'a > Foo < 'a , T > where T : Copy { \
         pub ( in outer :: inner ) fn get_bar < 'a > \
         ( self : & 'a mut :: std :: mem :: Pin < Self > ) \
         -> :: std :: mem :: Pin < 'a , i32 > \
         { unsafe { :: std :: mem :: Pin :: map ( self , | this | & mut this . bar ) } } \
         crate fn baz_pinned < 'a > \
         ( self : & 'a mut :: std :: mem :: Pin < Self > ) \
         -> :: std :: mem :: Pin < 'a , Vec < & 'a T > > \
         { unsafe { :: std :: mem :: Pin :: map ( self , | this | & mut this . baz ) } } \
         }"
    );
}

#[test]
fn an_empty_block_is_what_its_tokens_print_as() {
    let input = RecordDescription {
        name: text("Foo"),
        generics: String::new(),
        where_clause: String::new(),
        shape: Shape::NamedStruct(vec![]),
    };
    let rendered = pin_accessor(&input).unwrap().render();
    let tokens: proc_macro2::TokenStream = rendered.parse().unwrap();
    assert_eq!(tokens.to_string(), rendered);
}
