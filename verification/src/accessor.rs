//! From a marked field to the accessor method that is generated for it.

use vstd::prelude::*;
use crate::description::{Attribute, AttributeView, FieldDescription, FieldView};
use crate::description::{Visibility, VisibilityView};
use crate::error::{ErrorView, GenerateError};
use crate::marker::{first_marker, method_override, visibility_override};
use crate::marker::{get_method_name, get_visibility, locate_marker};
use crate::text::{fragments_view, spaced, spaced_text};
use crate::views::{optional_result_view, result_view};

verus! {

/// What is settled about a marked field before its accessor is written.
#[derive(Debug, PartialEq, Eq)]
pub struct TaggedField {
    /// The field's identifier.
    pub field: String,
    /// The field's declared type, as token text.
    pub ty: String,
    /// The identifier of the method to generate.
    pub method: String,
    /// The visibility of the method to generate.
    pub vis: Visibility,
}

/// What a settled field holds, with every text as a sequence of characters.
pub struct TaggedFieldView {
    pub field: Seq<char>,
    pub ty: Seq<char>,
    pub method: Seq<char>,
    pub vis: VisibilityView,
}

impl View for TaggedField {
    type V = TaggedFieldView;

    open spec fn view(&self) -> TaggedFieldView {
        TaggedFieldView { field: self.field@, ty: self.ty@, method: self.method@, vis: self.vis@ }
    }
}

impl Clone for TaggedField {
    fn clone(&self) -> (copy: Self)
        ensures
            copy == *self,
    {
        TaggedField {
            field: self.field.clone(),
            ty: self.ty.clone(),
            method: self.method.clone(),
            vis: self.vis.clone(),
        }
    }
}

/// A generated method: `vis fn name < 'a > ( receiver ) -> return_type { body }`.
/// All parts but the visibility are token text.
#[derive(Debug, PartialEq, Eq)]
pub struct GeneratedAccessor {
    /// The method's visibility.
    pub vis: Visibility,
    /// The method's identifier.
    pub name: String,
    /// The method's only parameter: an exclusive reference, of lifetime
    /// `'a`, to the pinned enclosing type.
    pub receiver: String,
    /// The pinned type of the field, of lifetime `'a`.
    pub return_type: String,
    /// The projection from the pinned enclosing value to the field.
    pub body: String,
}

/// What a generated method holds, with every text as a sequence of characters.
pub struct AccessorView {
    pub vis: VisibilityView,
    pub name: Seq<char>,
    pub receiver: Seq<char>,
    pub return_type: Seq<char>,
    pub body: Seq<char>,
}

impl View for GeneratedAccessor {
    type V = AccessorView;

    open spec fn view(&self) -> AccessorView {
        AccessorView {
            vis: self.vis@,
            name: self.name@,
            receiver: self.receiver@,
            return_type: self.return_type@,
            body: self.body@,
        }
    }
}

impl Clone for GeneratedAccessor {
    fn clone(&self) -> (copy: Self)
        ensures
            copy == *self,
    {
        GeneratedAccessor {
            vis: self.vis.clone(),
            name: self.name.clone(),
            receiver: self.receiver.clone(),
            return_type: self.return_type.clone(),
            body: self.body.clone(),
        }
    }
}

/// The method name for a field whose marker gives none: the field's name
/// followed by `_pinned`.
pub open spec fn default_method_name(field: Seq<char>) -> Seq<char> {
    field + "_pinned"@
}

/// The name of the method generated for `field`, marked by `marker`: the
/// name that the marker asks for, else the default.
pub open spec fn method_name_of(field: FieldView, marker: AttributeView) -> Result<
    Seq<char>,
    ErrorView,
> {
    match method_override(marker) {
        Ok(Some(name)) => Ok(name),
        Ok(None) => Ok(default_method_name(field.name)),
        Err(error) => Err(error),
    }
}

/// The visibility of the method generated for `field`, marked by `marker`:
/// the visibility that the marker asks for, else the field's own.
pub open spec fn visibility_of(field: FieldView, marker: AttributeView) -> Result<
    VisibilityView,
    ErrorView,
> {
    match visibility_override(marker) {
        Ok(Some(vis)) => Ok(vis),
        Ok(None) => Ok(field.vis),
        Err(error) => Err(error),
    }
}

/// What generation settles for one field: nothing for a field without a
/// marker; for a marked field its name and type with the method's name and
/// visibility, resolved from its first marker. The name is resolved before
/// the visibility, so where both fail the error is about the name.
pub open spec fn tagged_field_of(field: FieldView) -> Result<Option<TaggedFieldView>, ErrorView> {
    match first_marker(field.attrs) {
        None => Ok(None),
        Some(marker) => match method_name_of(field, marker) {
            Err(error) => Err(error),
            Ok(method) => match visibility_of(field, marker) {
                Err(error) => Err(error),
                Ok(vis) => Ok(
                    Some(TaggedFieldView { field: field.name, ty: field.ty, method, vis }),
                ),
            },
        },
    }
}

/// A visibility as it is written in source.
pub open spec fn visibility_text(vis: VisibilityView) -> Seq<char> {
    match vis {
        VisibilityView::Public => "pub"@,
        VisibilityView::Crate => "crate"@,
        VisibilityView::Restricted { explicit_in, path } => spaced(
            seq!["pub"@, "("@, if explicit_in { "in"@ } else { Seq::empty() }, path, ")"@],
        ),
        VisibilityView::Inherited => Seq::empty(),
    }
}

/// The receiver of every generated method.
pub open spec fn receiver_text() -> Seq<char> {
    "self : & 'a mut :: std :: mem :: Pin < Self >"@
}

/// The return type of the accessor of a field of type `ty`.
pub open spec fn return_type_text(ty: Seq<char>) -> Seq<char> {
    spaced(seq![":: std :: mem :: Pin < 'a ,"@, ty, ">"@])
}

/// The body of the accessor of the field `field`.
///
/// This is the one place where generated code steps outside what the
/// compiler checks: the pinned reference to the struct is turned into a
/// pinned reference to one of its fields inside an `unsafe` block. It is
/// sound only as long as the field is never moved out of, or replaced
/// apart from, the struct that owns it while the struct is pinned. The
/// author who puts the marker on a field vouches for that.
pub open spec fn projection_text(field: Seq<char>) -> Seq<char> {
    spaced(
        seq![
            "unsafe { :: std :: mem :: Pin :: map ( self , | this | & mut this ."@,
            field,
            ") }"@,
        ],
    )
}

/// The accessor generated for a marked field.
pub open spec fn accessor_of(tagged: TaggedFieldView) -> AccessorView {
    AccessorView {
        vis: tagged.vis,
        name: tagged.method,
        receiver: receiver_text(),
        return_type: return_type_text(tagged.ty),
        body: projection_text(tagged.field),
    }
}

/// A generated method as source text.
pub open spec fn method_text(accessor: AccessorView) -> Seq<char> {
    spaced(
        seq![
            visibility_text(accessor.vis),
            "fn"@,
            accessor.name,
            "< 'a >"@,
            "("@,
            accessor.receiver,
            ")"@,
            "->"@,
            accessor.return_type,
            "{"@,
            accessor.body,
            "}"@,
        ],
    )
}

impl Visibility {
    /// The visibility as it is written in source; empty for the inherited
    /// one.
    pub fn text(&self) -> (text: String)
        ensures
            text@ == visibility_text(self@),
    {
        match self {
            Visibility::Public => String::from_str("pub"),
            Visibility::Crate => String::from_str("crate"),
            Visibility::Restricted { explicit_in, path } => {
                let keyword = if *explicit_in {
                    "in"
                } else {
                    ""
                };
                let parts = vec!["pub", "(", keyword, path.as_str(), ")"];
                proof {
                    reveal_strlit("");
                    assert(""@ =~= Seq::<char>::empty());
                    assert(fragments_view(parts@) =~= seq![
                        "pub"@,
                        "("@,
                        if *explicit_in {
                            "in"@
                        } else {
                            Seq::empty()
                        },
                        path@,
                        ")"@,
                    ]);
                }
                spaced_text(&parts)
            },
            Visibility::Inherited => String::new(),
        }
    }
}

impl GeneratedAccessor {
    /// The method as source text.
    pub fn text(&self) -> (text: String)
        ensures
            text@ == method_text(self@),
    {
        let vis = self.vis.text();
        let parts = vec![
            vis.as_str(),
            "fn",
            self.name.as_str(),
            "< 'a >",
            "(",
            self.receiver.as_str(),
            ")",
            "->",
            self.return_type.as_str(),
            "{",
            self.body.as_str(),
            "}",
        ];
        proof {
            assert(fragments_view(parts@) =~= seq![
                visibility_text(self@.vis),
                "fn"@,
                self@.name,
                "< 'a >"@,
                "("@,
                self@.receiver,
                ")"@,
                "->"@,
                self@.return_type,
                "{"@,
                self@.body,
                "}"@,
            ]);
        }
        spaced_text(&parts)
    }
}

/// The name of the method to generate for `field`, which `marker` marks.
pub fn resolve_method_name(field: &FieldDescription, marker: &Attribute) -> (name: Result<
    String,
    GenerateError,
>)
    ensures
        result_view(name) == method_name_of(field@, marker@),
{
    match get_method_name(marker) {
        Ok(Some(name)) => Ok(name),
        Ok(None) => Ok(field.name.clone().concat("_pinned")),
        Err(error) => Err(error),
    }
}

/// The visibility of the method to generate for `field`, which `marker`
/// marks.
pub fn resolve_visibility(field: &FieldDescription, marker: &Attribute) -> (vis: Result<
    Visibility,
    GenerateError,
>)
    ensures
        result_view(vis) == visibility_of(field@, marker@),
{
    match get_visibility(marker) {
        Ok(Some(vis)) => Ok(vis),
        Ok(None) => Ok(field.vis.clone()),
        Err(error) => Err(error),
    }
}

/// Settles what to generate for one field.
pub fn build_tagged_field(field: &FieldDescription) -> (tagged: Result<
    Option<TaggedField>,
    GenerateError,
>)
    ensures
        optional_result_view(tagged) == tagged_field_of(field@),
{
    match locate_marker(field) {
        None => Ok(None),
        Some(marker) => {
            let method = match resolve_method_name(field, marker) {
                Ok(method) => method,
                Err(error) => { return Err(error); },
            };
            let vis = match resolve_visibility(field, marker) {
                Ok(vis) => vis,
                Err(error) => { return Err(error); },
            };
            Ok(Some(TaggedField { field: field.name.clone(), ty: field.ty.clone(), method, vis }))
        },
    }
}

/// Writes the accessor for a marked field.
pub fn synthesize_accessor(tagged: &TaggedField) -> (accessor: GeneratedAccessor)
    ensures
        accessor@ == accessor_of(tagged@),
{
    let return_parts = vec![":: std :: mem :: Pin < 'a ,", tagged.ty.as_str(), ">"];
    let body_parts = vec![
        "unsafe { :: std :: mem :: Pin :: map ( self , | this | & mut this .",
        tagged.field.as_str(),
        ") }",
    ];
    proof {
        assert(fragments_view(return_parts@) =~= seq![
            ":: std :: mem :: Pin < 'a ,"@,
            tagged.ty@,
            ">"@,
        ]);
        assert(fragments_view(body_parts@) =~= seq![
            "unsafe { :: std :: mem :: Pin :: map ( self , | this | & mut this ."@,
            tagged.field@,
            ") }"@,
        ]);
    }
    GeneratedAccessor {
        vis: tagged.vis.clone(),
        name: tagged.method.clone(),
        receiver: String::from_str("self : & 'a mut :: std :: mem :: Pin < Self >"),
        return_type: spaced_text(&return_parts),
        body: spaced_text(&body_parts),
    }
}

} // verus!
