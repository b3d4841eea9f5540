//! The structural description of a record type, as plain values.
//!
//! Everything that is only carried through to the generated code (types,
//! generic parameters, where-clauses, restricted-visibility paths) is kept as
//! token text: the tokens of the fragment, printed with single spaces between
//! them. Everything that generation decides on (attribute paths, attribute
//! arguments, field names, visibilities) is structured.
//!
//! Every type has a view over `Seq<char>` in which the contracts of the crate
//! are stated.

use vstd::prelude::*;

verus! {

/// The text of each element of `texts`, in order.
pub open spec fn texts_view(texts: Seq<String>) -> Seq<Seq<char>> {
    texts.map_values(|text: String| text@)
}

/// A literal that stands as a value in an attribute's argument list.
#[derive(Debug, PartialEq, Eq)]
pub enum Literal {
    /// A string literal, held as its unescaped value.
    Str(String),
    /// Any other literal (number, character, byte string, boolean), held as
    /// its token text.
    Other(String),
}

/// What a literal holds, with every text as a sequence of characters.
pub enum LiteralView {
    Str(Seq<char>),
    Other(Seq<char>),
}

impl View for Literal {
    type V = LiteralView;

    open spec fn view(&self) -> LiteralView {
        match self {
            Literal::Str(value) => LiteralView::Str(value@),
            Literal::Other(text) => LiteralView::Other(text@),
        }
    }
}

impl Clone for Literal {
    fn clone(&self) -> (copy: Self)
        ensures
            copy == *self,
    {
        match self {
            Literal::Str(value) => Literal::Str(value.clone()),
            Literal::Other(text) => Literal::Other(text.clone()),
        }
    }
}

/// One item of an attribute's parenthesised argument list.
#[derive(Debug, PartialEq, Eq)]
pub enum Argument {
    /// A bare key, as `skip` in `#[attr(skip)]`.
    Word(String),
    /// A key with a parenthesised list of its own, as `any` in
    /// `#[attr(any(a, b))]`. The items inside are not kept.
    List(String),
    /// A key with a literal value, as `name = "get"` in `#[attr(name = "get")]`.
    NameValue(String, Literal),
    /// A literal without a key, as `"x"` in `#[attr("x")]`.
    Literal(Literal),
}

/// What an argument holds, with every text as a sequence of characters.
pub enum ArgumentView {
    Word(Seq<char>),
    List(Seq<char>),
    NameValue(Seq<char>, LiteralView),
    Literal(LiteralView),
}

impl View for Argument {
    type V = ArgumentView;

    open spec fn view(&self) -> ArgumentView {
        match self {
            Argument::Word(key) => ArgumentView::Word(key@),
            Argument::List(key) => ArgumentView::List(key@),
            Argument::NameValue(key, value) => ArgumentView::NameValue(key@, value@),
            Argument::Literal(value) => ArgumentView::Literal(value@),
        }
    }
}

impl Clone for Argument {
    fn clone(&self) -> (copy: Self)
        ensures
            copy == *self,
    {
        match self {
            Argument::Word(key) => Argument::Word(key.clone()),
            Argument::List(key) => Argument::List(key.clone()),
            Argument::NameValue(key, value) => Argument::NameValue(key.clone(), value.clone()),
            Argument::Literal(value) => Argument::Literal(value.clone()),
        }
    }
}

/// The views of the elements of `arguments`, in order.
pub open spec fn arguments_view(arguments: Seq<Argument>) -> Seq<ArgumentView> {
    arguments.map_values(|argument: Argument| argument@)
}

/// An attribute attached to a field, as `#[path(arguments)]`.
#[derive(Debug, PartialEq, Eq)]
pub struct Attribute {
    /// The identifiers of the attribute's path, in order: `a` and `b` for
    /// `#[a::b]`.
    pub path: Vec<String>,
    /// The items of the argument list, where what follows the path reads as
    /// a parenthesised, comma-separated list of keys, `key = literal` pairs,
    /// nested lists and literals. `None` where the attribute has no such
    /// list: nothing follows the path, something else does, or the path has
    /// more than one segment.
    pub arguments: Option<Vec<Argument>>,
}

/// What an attribute holds, with every text as a sequence of characters.
pub struct AttributeView {
    pub path: Seq<Seq<char>>,
    pub arguments: Option<Seq<ArgumentView>>,
}

impl View for Attribute {
    type V = AttributeView;

    open spec fn view(&self) -> AttributeView {
        AttributeView {
            path: texts_view(self.path@),
            arguments: match self.arguments {
                Some(arguments) => Some(arguments_view(arguments@)),
                None => None,
            },
        }
    }
}

impl Clone for Attribute {
    fn clone(&self) -> (copy: Self)
        ensures
            copy@ == self@,
    {
        let copy = Attribute { path: self.path.clone(), arguments: self.arguments.clone() };
        assert(texts_view(copy.path@) =~= texts_view(self.path@));
        assert(self.arguments matches Some(arguments) ==> arguments_view(
            copy.arguments.unwrap()@,
        ) =~= arguments_view(arguments@));
        copy
    }
}

/// The views of the elements of `attrs`, in order.
pub open spec fn attributes_view(attrs: Seq<Attribute>) -> Seq<AttributeView> {
    attrs.map_values(|attr: Attribute| attr@)
}

/// The visibility of a field or of a generated method.
#[derive(Debug, PartialEq, Eq)]
pub enum Visibility {
    /// `pub`
    Public,
    /// `crate`
    Crate,
    /// `pub(path)`, or `pub(in path)` where `explicit_in` is set. The path
    /// is token text.
    Restricted { explicit_in: bool, path: String },
    /// No qualifier.
    Inherited,
}

/// What a visibility holds, with every text as a sequence of characters.
pub enum VisibilityView {
    Public,
    Crate,
    Restricted { explicit_in: bool, path: Seq<char> },
    Inherited,
}

impl View for Visibility {
    type V = VisibilityView;

    open spec fn view(&self) -> VisibilityView {
        match self {
            Visibility::Public => VisibilityView::Public,
            Visibility::Crate => VisibilityView::Crate,
            Visibility::Restricted { explicit_in, path } => VisibilityView::Restricted {
                explicit_in: *explicit_in,
                path: path@,
            },
            Visibility::Inherited => VisibilityView::Inherited,
        }
    }
}

impl Clone for Visibility {
    fn clone(&self) -> (copy: Self)
        ensures
            copy == *self,
    {
        match self {
            Visibility::Public => Visibility::Public,
            Visibility::Crate => Visibility::Crate,
            Visibility::Restricted { explicit_in, path } => Visibility::Restricted {
                explicit_in: *explicit_in,
                path: path.clone(),
            },
            Visibility::Inherited => Visibility::Inherited,
        }
    }
}

/// One named field of a record.
#[derive(Debug, PartialEq, Eq)]
pub struct FieldDescription {
    /// The field's identifier.
    pub name: String,
    /// The field's declared type, as token text.
    pub ty: String,
    /// The field's declared visibility.
    pub vis: Visibility,
    /// The attributes on the field, in source order.
    pub attrs: Vec<Attribute>,
}

/// What a field holds, with every text as a sequence of characters.
pub struct FieldView {
    pub name: Seq<char>,
    pub ty: Seq<char>,
    pub vis: VisibilityView,
    pub attrs: Seq<AttributeView>,
}

impl View for FieldDescription {
    type V = FieldView;

    open spec fn view(&self) -> FieldView {
        FieldView {
            name: self.name@,
            ty: self.ty@,
            vis: self.vis@,
            attrs: attributes_view(self.attrs@),
        }
    }
}

impl Clone for FieldDescription {
    fn clone(&self) -> (copy: Self)
        ensures
            copy@ == self@,
    {
        let copy = FieldDescription {
            name: self.name.clone(),
            ty: self.ty.clone(),
            vis: self.vis.clone(),
            attrs: self.attrs.clone(),
        };
        assert(attributes_view(copy.attrs@) =~= attributes_view(self.attrs@));
        copy
    }
}

/// The views of the elements of `fields`, in order.
pub open spec fn fields_view(fields: Seq<FieldDescription>) -> Seq<FieldView> {
    fields.map_values(|field: FieldDescription| field@)
}

/// What kind of type a description is of.
#[derive(Debug, PartialEq, Eq)]
pub enum Shape {
    /// A struct with named fields, in declaration order.
    NamedStruct(Vec<FieldDescription>),
    /// A struct with unnamed fields, as `struct P(i32, i32);`.
    TupleStruct,
    /// A struct without fields, as `struct U;`.
    UnitStruct,
    /// An enum.
    Enum,
    /// A union.
    Union,
}

/// What a shape holds, with every text as a sequence of characters.
pub enum ShapeView {
    NamedStruct(Seq<FieldView>),
    TupleStruct,
    UnitStruct,
    Enum,
    Union,
}

impl View for Shape {
    type V = ShapeView;

    open spec fn view(&self) -> ShapeView {
        match self {
            Shape::NamedStruct(fields) => ShapeView::NamedStruct(fields_view(fields@)),
            Shape::TupleStruct => ShapeView::TupleStruct,
            Shape::UnitStruct => ShapeView::UnitStruct,
            Shape::Enum => ShapeView::Enum,
            Shape::Union => ShapeView::Union,
        }
    }
}

impl Clone for Shape {
    fn clone(&self) -> (copy: Self)
        ensures
            copy@ == self@,
    {
        match self {
            Shape::NamedStruct(fields) => {
                let copy = fields.clone();
                assert(fields_view(copy@) =~= fields_view(fields@));
                Shape::NamedStruct(copy)
            },
            Shape::TupleStruct => Shape::TupleStruct,
            Shape::UnitStruct => Shape::UnitStruct,
            Shape::Enum => Shape::Enum,
            Shape::Union => Shape::Union,
        }
    }
}

/// A type definition as the generator sees it.
#[derive(Debug, PartialEq, Eq)]
pub struct RecordDescription {
    /// The type's identifier.
    pub name: String,
    /// The generic parameters as declared, angle brackets included, as token
    /// text; empty where the type has none.
    pub generics: String,
    /// The where-clause, `where` included, as token text; empty where the
    /// type has none.
    pub where_clause: String,
    /// The kind of type, with its fields where it is a struct with named
    /// fields.
    pub shape: Shape,
}

/// What a record holds, with every text as a sequence of characters.
pub struct RecordView {
    pub name: Seq<char>,
    pub generics: Seq<char>,
    pub where_clause: Seq<char>,
    pub shape: ShapeView,
}

impl View for RecordDescription {
    type V = RecordView;

    open spec fn view(&self) -> RecordView {
        RecordView {
            name: self.name@,
            generics: self.generics@,
            where_clause: self.where_clause@,
            shape: self.shape@,
        }
    }
}

impl Clone for RecordDescription {
    fn clone(&self) -> (copy: Self)
        ensures
            copy@ == self@,
    {
        RecordDescription {
            name: self.name.clone(),
            generics: self.generics.clone(),
            where_clause: self.where_clause.clone(),
            shape: self.shape.clone(),
        }
    }
}

} // verus!
