//! One generation pass: from the description of a type to the implementation
//! block that holds its accessors.

use vstd::prelude::*;
use crate::accessor::{accessor_of, method_text, tagged_field_of};
use crate::accessor::{build_tagged_field, synthesize_accessor};
use crate::accessor::{AccessorView, GeneratedAccessor, TaggedField, TaggedFieldView};
use crate::description::{fields_view, texts_view, FieldDescription, FieldView};
use crate::description::{RecordDescription, RecordView, Shape, ShapeView};
use crate::error::{ErrorView, GenerateError};
use crate::syntax::{generics_of_text, split_generics};
use crate::text::{fragments_view, spaced, spaced_text};
use crate::views::result_view;

verus! {

/// The generated code: `impl impl_generics name type_generics where_clause
/// { methods }`. All parts but the methods are token text.
#[derive(Debug, PartialEq, Eq)]
pub struct ImplBlock {
    /// The generic parameters as they stand behind `impl`: with their
    /// bounds, without their defaults.
    pub impl_generics: String,
    /// The identifier of the type that the block is for.
    pub name: String,
    /// The generic parameters as they stand behind the type's name: their
    /// names alone.
    pub type_generics: String,
    /// The where-clause of the type.
    pub where_clause: String,
    /// The accessors, in the order in which their fields are declared.
    pub methods: Vec<GeneratedAccessor>,
}

/// What an implementation block holds, with every text as a sequence of characters.
pub struct ImplBlockView {
    pub impl_generics: Seq<char>,
    pub name: Seq<char>,
    pub type_generics: Seq<char>,
    pub where_clause: Seq<char>,
    pub methods: Seq<AccessorView>,
}

/// The views of the elements of `methods`, in order.
pub open spec fn accessors_view(methods: Seq<GeneratedAccessor>) -> Seq<AccessorView> {
    methods.map_values(|method: GeneratedAccessor| method@)
}

impl View for ImplBlock {
    type V = ImplBlockView;

    open spec fn view(&self) -> ImplBlockView {
        ImplBlockView {
            impl_generics: self.impl_generics@,
            name: self.name@,
            type_generics: self.type_generics@,
            where_clause: self.where_clause@,
            methods: accessors_view(self.methods@),
        }
    }
}

impl Clone for ImplBlock {
    fn clone(&self) -> (copy: Self)
        ensures
            copy@ == self@,
    {
        let copy = ImplBlock {
            impl_generics: self.impl_generics.clone(),
            name: self.name.clone(),
            type_generics: self.type_generics.clone(),
            where_clause: self.where_clause.clone(),
            methods: self.methods.clone(),
        };
        assert(accessors_view(copy.methods@) =~= accessors_view(self.methods@));
        copy
    }
}

/// What generation settles for the fields of a struct, taken in the order
/// of their declaration: the marked fields among them, in that order; or
/// the error of the first field that has one.
pub open spec fn tagged_fields_of(fields: Seq<FieldView>) -> Result<
    Seq<TaggedFieldView>,
    ErrorView,
>
    decreases fields.len(),
{
    if fields.len() == 0 {
        Ok(Seq::empty())
    } else {
        match tagged_fields_of(fields.drop_last()) {
            Err(error) => Err(error),
            Ok(before) => match tagged_field_of(fields.last()) {
                Err(error) => Err(error),
                Ok(None) => Ok(before),
                Ok(Some(tagged)) => Ok(before.push(tagged)),
            },
        }
    }
}

/// The accessor of each marked field, in order.
pub open spec fn accessors_of(tagged: Seq<TaggedFieldView>) -> Seq<AccessorView> {
    tagged.map_values(|field: TaggedFieldView| accessor_of(field))
}

/// The implementation block for `record`, given its generic parameters as
/// split for the `impl` keyword and for the type's name. A type that is
/// not a struct with named fields is refused before any field is looked at.
pub open spec fn assembled(record: RecordView, for_impl: Seq<char>, for_type: Seq<char>) -> Result<
    ImplBlockView,
    ErrorView,
> {
    match record.shape {
        ShapeView::NamedStruct(fields) => match tagged_fields_of(fields) {
            Err(error) => Err(error),
            Ok(tagged) => Ok(
                ImplBlockView {
                    impl_generics: for_impl,
                    name: record.name,
                    type_generics: for_type,
                    where_clause: record.where_clause,
                    methods: accessors_of(tagged),
                },
            ),
        },
        _ => Err(ErrorView::UnsupportedShape),
    }
}

/// The outcome of a generation pass over `record`, given the parser's
/// answer on its generic parameters. The shape of the type is looked at
/// first: a type that is not a struct with named fields is refused whatever
/// its generic parameters are. Generic parameters that do not parse are
/// reported next, before any field is looked at.
pub open spec fn generated_with(
    record: RecordView,
    parts: Result<(Seq<char>, Seq<char>), Seq<char>>,
) -> Result<ImplBlockView, ErrorView> {
    if record.shape is NamedStruct {
        match parts {
            Err(message) => Err(ErrorView::UnparsableGenerics(message)),
            Ok((for_impl, for_type)) => assembled(record, for_impl, for_type),
        }
    } else {
        Err(ErrorView::UnsupportedShape)
    }
}

/// The outcome of a generation pass over `record`.
pub open spec fn generated(record: RecordView) -> Result<ImplBlockView, ErrorView> {
    generated_with(record, generics_of_text(record.generics))
}

/// The text of each method, in order.
pub open spec fn method_texts(methods: Seq<AccessorView>) -> Seq<Seq<char>> {
    methods.map_values(|method: AccessorView| method_text(method))
}

/// An implementation block as source text.
pub open spec fn block_text(block: ImplBlockView) -> Seq<char> {
    spaced(
        seq![
            "impl"@,
            block.impl_generics,
            block.name,
            block.type_generics,
            block.where_clause,
            "{"@,
        ] + method_texts(block.methods) + seq!["}"@],
    )
}

/// The views of the elements of `tagged`, in order.
pub open spec fn tagged_view(tagged: Seq<TaggedField>) -> Seq<TaggedFieldView> {
    tagged.map_values(|field: TaggedField| field@)
}

/// The views of the settled fields, or of the error.
pub open spec fn tagged_result_view(tagged: Result<Vec<TaggedField>, GenerateError>) -> Result<
    Seq<TaggedFieldView>,
    ErrorView,
> {
    match tagged {
        Ok(found) => Ok(tagged_view(found@)),
        Err(error) => Err(error@),
    }
}

/// Settles what to generate for each field, in the order of declaration,
/// and stops at the first error.
pub fn collect_tagged_fields(fields: &Vec<FieldDescription>) -> (tagged: Result<
    Vec<TaggedField>,
    GenerateError,
>)
    ensures
        tagged_result_view(tagged) == tagged_fields_of(fields_view(fields@)),
{
    let ghost views = fields_view(fields@);
    let mut found: Vec<TaggedField> = Vec::new();
    let mut i: usize = 0;
    assert(tagged_view(found@) =~= Seq::empty());
    while i < fields.len()
        invariant
            i <= fields.len(),
            views == fields_view(fields@),
            tagged_fields_of(views.take(i as int)) == Ok::<Seq<TaggedFieldView>, ErrorView>(
                tagged_view(found@),
            ),
        decreases fields.len() - i,
    {
        proof {
            assert(views.take(i + 1).drop_last() =~= views.take(i as int));
            assert(views.take(i + 1).last() == fields[i as int]@);
        }
        let ghost before = tagged_view(found@);
        match build_tagged_field(&fields[i]) {
            Err(error) => {
                proof {
                    lemma_tagged_fields_error(views, i as int);
                }
                return Err(error);
            },
            Ok(None) => {},
            Ok(Some(tagged)) => {
                found.push(tagged);
                assert(tagged_view(found@) =~= before.push(tagged@));
            },
        }
        i += 1;
    }
    assert(views.take(i as int) =~= views);
    Ok(found)
}

/// An error at position `n`, with none before it, is the error of the whole
/// sequence.
pub proof fn lemma_tagged_fields_error(fields: Seq<FieldView>, n: int)
    requires
        0 <= n < fields.len(),
        tagged_fields_of(fields.take(n)) is Ok,
        tagged_field_of(fields[n]) is Err,
    ensures
        tagged_fields_of(fields) == Err::<Seq<TaggedFieldView>, ErrorView>(
            tagged_field_of(fields[n])->Err_0,
        ),
    decreases fields.len(),
{
    if n == fields.len() - 1 {
        assert(fields.drop_last() =~= fields.take(n));
    } else {
        assert(fields.drop_last().take(n) =~= fields.take(n));
        lemma_tagged_fields_error(fields.drop_last(), n);
    }
}

/// Generates the accessors of `record`, whose generic parameters have been
/// split into `for_impl` and `for_type`.
pub fn assemble(record: &RecordDescription, for_impl: String, for_type: String) -> (block: Result<
    ImplBlock,
    GenerateError,
>)
    ensures
        result_view(block) == assembled(record@, for_impl@, for_type@),
{
    match &record.shape {
        Shape::NamedStruct(fields) => {
            let tagged = match collect_tagged_fields(fields) {
                Ok(tagged) => tagged,
                Err(error) => { return Err(error); },
            };
            let mut methods: Vec<GeneratedAccessor> = Vec::new();
            let mut i: usize = 0;
            assert(accessors_view(methods@) =~= accessors_of(tagged_view(tagged@).take(0)));
            while i < tagged.len()
                invariant
                    i <= tagged.len(),
                    accessors_view(methods@) == accessors_of(tagged_view(tagged@).take(i as int)),
                decreases tagged.len() - i,
            {
                let ghost before = accessors_view(methods@);
                let ghost settled = tagged_view(tagged@);
                methods.push(synthesize_accessor(&tagged[i]));
                proof {
                    assert(accessors_view(methods@) =~= before.push(accessor_of(settled[i as int])));
                    assert(settled.take(i + 1) =~= settled.take(i as int).push(settled[i as int]));
                    assert(accessors_of(settled.take(i + 1)) =~= accessors_of(
                        settled.take(i as int),
                    ).push(accessor_of(settled[i as int])));
                }
                i += 1;
            }
            assert(tagged_view(tagged@).take(i as int) =~= tagged_view(tagged@));
            Ok(
                ImplBlock {
                    impl_generics: for_impl,
                    name: record.name.clone(),
                    type_generics: for_type,
                    where_clause: record.where_clause.clone(),
                    methods,
                },
            )
        },
        _ => Err(GenerateError::UnsupportedShape),
    }
}

/// Continues a generation pass with the parser's answer on the generic
/// parameters.
pub fn assemble_with(record: &RecordDescription, parts: Result<(String, String), String>) -> (block:
    Result<ImplBlock, GenerateError>)
    ensures
        result_view(block) == generated_with(record@, result_view(parts)),
{
    match &record.shape {
        Shape::NamedStruct(_) => match parts {
            Ok((for_impl, for_type)) => assemble(record, for_impl, for_type),
            Err(message) => Err(GenerateError::UnparsableGenerics(message)),
        },
        _ => Err(GenerateError::UnsupportedShape),
    }
}

/// Runs one generation pass over `record`: one accessor for each field
/// that carries the marker, in the order of declaration, inside an
/// implementation block for the type. Any error ends the pass without
/// output. The parser is not asked about the generic parameters of a type
/// that is refused for its shape.
pub fn pin_accessor(record: &RecordDescription) -> (block: Result<ImplBlock, GenerateError>)
    ensures
        result_view(block) == generated(record@),
{
    match &record.shape {
        Shape::NamedStruct(_) => assemble_with(record, split_generics(record.generics.as_str())),
        _ => Err(GenerateError::UnsupportedShape),
    }
}

impl ImplBlock {
    /// The block as source text.
    pub fn render(&self) -> (text: String)
        ensures
            text@ == block_text(self@),
    {
        let ghost wanted = method_texts(self@.methods);
        let mut methods: Vec<String> = Vec::new();
        let mut i: usize = 0;
        while i < self.methods.len()
            invariant
                i <= self.methods.len(),
                wanted == method_texts(self@.methods),
                texts_view(methods@) =~= wanted.take(i as int),
            decreases self.methods.len() - i,
        {
            let ghost before = texts_view(methods@);
            let method = self.methods[i].text();
            assert(method@ == wanted[i as int]);
            methods.push(method);
            assert(texts_view(methods@) =~= before.push(wanted[i as int]));
            i += 1;
        }
        assert(texts_view(methods@) =~= wanted);
        let mut parts: Vec<&str> = vec![
            "impl",
            self.impl_generics.as_str(),
            self.name.as_str(),
            self.type_generics.as_str(),
            self.where_clause.as_str(),
            "{",
        ];
        let ghost head = seq![
            "impl"@,
            self@.impl_generics,
            self@.name,
            self@.type_generics,
            self@.where_clause,
            "{"@,
        ];
        assert(fragments_view(parts@) =~= head);
        let mut j: usize = 0;
        while j < methods.len()
            invariant
                j <= methods.len(),
                fragments_view(parts@) =~= head + texts_view(methods@).take(j as int),
            decreases methods.len() - j,
        {
            let ghost before = fragments_view(parts@);
            parts.push(methods[j].as_str());
            assert(fragments_view(parts@) =~= before.push(texts_view(methods@)[j as int]));
            j += 1;
        }
        assert(texts_view(methods@).take(j as int) =~= wanted);
        let ghost before = fragments_view(parts@);
        parts.push("}");
        assert(fragments_view(parts@) =~= before.push("}"@));
        assert(fragments_view(parts@) =~= head + wanted + seq!["}"@]);
        spaced_text(&parts)
    }
}

} // verus!
