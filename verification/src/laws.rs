//! What holds of every generation pass.
//!
//! The laws speak of the functions in which the contracts of the crate are
//! stated: `tagged_field_of` for one field, `tagged_fields_of` for the
//! fields of a struct, `generated` for a whole pass.

use vstd::prelude::*;
use crate::accessor::{accessor_of, method_name_of, tagged_field_of};
use crate::accessor::{visibility_of, TaggedFieldView};
use crate::description::{ArgumentView, AttributeView, FieldView, LiteralView};
use crate::description::{RecordView, ShapeView, VisibilityView};
use crate::error::{message_text, ErrorView};
use crate::generator::{block_text, generated, method_texts};
use crate::generator::{lemma_tagged_fields_error, tagged_fields_of, ImplBlockView};
use crate::marker::{argument_key, first_keyed, first_marker, is_marker, member_value};
use crate::syntax::{generics_of_text, parsed_ident};
use crate::text::spaced;

verus! {

/// Whether `field` carries the marker.
pub open spec fn is_tagged(field: FieldView) -> bool {
    exists|j: int| 0 <= j < field.attrs.len() && is_marker(#[trigger] field.attrs[j])
}

/// Only the first marker on a field is honoured: `first_marker` is the
/// marker at the least position that holds one, and there is none exactly
/// when no attribute is a marker.
pub proof fn law_first_marker_wins(attrs: Seq<AttributeView>)
    ensures
        match first_marker(attrs) {
            Some(marker) => exists|i: int|
                0 <= i < attrs.len() && #[trigger] attrs[i] == marker && is_marker(marker)
                    && forall|j: int| 0 <= j < i ==> !is_marker(#[trigger] attrs[j]),
            None => forall|j: int| 0 <= j < attrs.len() ==> !is_marker(#[trigger] attrs[j]),
        },
    decreases attrs.len(),
{
    if attrs.len() > 0 && !is_marker(attrs[0]) {
        let rest = attrs.drop_first();
        law_first_marker_wins(rest);
        match first_marker(rest) {
            Some(marker) => {
                let i = choose|i: int|
                    0 <= i < rest.len() && #[trigger] rest[i] == marker && is_marker(marker)
                        && forall|j: int| 0 <= j < i ==> !is_marker(#[trigger] rest[j]);
                assert(attrs[i + 1] == marker);
                assert forall|j: int| 0 <= j < i + 1 implies !is_marker(#[trigger] attrs[j]) by {
                    if j > 0 {
                        assert(attrs[j] == rest[j - 1]);
                    }
                }
            },
            None => {
                assert forall|j: int| 0 <= j < attrs.len() implies !is_marker(
                    #[trigger] attrs[j],
                ) by {
                    if j > 0 {
                        assert(attrs[j] == rest[j - 1]);
                    }
                }
            },
        }
    } else if attrs.len() > 0 {
        assert(attrs[0] == first_marker(attrs)->Some_0);
    }
}

/// Among the arguments of a marker the first with a given key decides:
/// `first_keyed` is the argument at the least position that has the key,
/// and there is none exactly when no argument has it.
pub proof fn law_first_key_wins(arguments: Seq<ArgumentView>, key: Seq<char>)
    ensures
        match first_keyed(arguments, key) {
            Some(found) => exists|i: int|
                0 <= i < arguments.len() && #[trigger] arguments[i] == found && argument_key(found)
                    == Some(key) && forall|j: int|
                    0 <= j < i ==> argument_key(#[trigger] arguments[j]) != Some(key),
            None => forall|j: int|
                0 <= j < arguments.len() ==> argument_key(#[trigger] arguments[j]) != Some(key),
        },
    decreases arguments.len(),
{
    if arguments.len() > 0 && argument_key(arguments[0]) != Some(key) {
        let rest = arguments.drop_first();
        law_first_key_wins(rest, key);
        match first_keyed(rest, key) {
            Some(found) => {
                let i = choose|i: int|
                    0 <= i < rest.len() && #[trigger] rest[i] == found && argument_key(found)
                        == Some(key) && forall|j: int|
                        0 <= j < i ==> argument_key(#[trigger] rest[j]) != Some(key);
                assert(arguments[i + 1] == found);
                assert forall|j: int| 0 <= j < i + 1 implies argument_key(
                    #[trigger] arguments[j],
                ) != Some(key) by {
                    if j > 0 {
                        assert(arguments[j] == rest[j - 1]);
                    }
                }
            },
            None => {
                assert forall|j: int| 0 <= j < arguments.len() implies argument_key(
                    #[trigger] arguments[j],
                ) != Some(key) by {
                    if j > 0 {
                        assert(arguments[j] == rest[j - 1]);
                    }
                }
            },
        }
    } else if arguments.len() > 0 {
        assert(arguments[0] == first_keyed(arguments, key)->Some_0);
    }
}

/// A field is settled as marked exactly when it carries the marker, unless
/// an argument of its marker is in error.
pub proof fn law_one_accessor_per_tagged_field(field: FieldView)
    ensures
        !is_tagged(field) ==> tagged_field_of(field) == Ok::<Option<TaggedFieldView>, ErrorView>(
            None,
        ),
        is_tagged(field) ==> !(tagged_field_of(field) matches Ok(None)),
{
    law_first_marker_wins(field.attrs);
}

/// A marked field whose marker gives no `name` gets a method named after
/// the field, with `_pinned` appended.
pub proof fn law_default_method_name(field: FieldView, marker: AttributeView)
    requires
        first_marker(field.attrs) == Some(marker),
        member_value(marker, "name"@) == Ok::<Option<Seq<char>>, ErrorView>(None),
    ensures
        method_name_of(field, marker) == Ok::<Seq<char>, ErrorView>(field.name + "_pinned"@),
        tagged_field_of(field) matches Ok(Some(tagged)) ==> accessor_of(tagged).name == field.name
            + "_pinned"@,
{
}

/// A marked field whose marker gives `name = "custom"` gets the method
/// name that the parser reads out of `custom`, whatever the field is
/// called: `custom` itself wherever `custom` is an identifier as it stands.
/// Where the parser reads no identifier, no method is generated.
pub proof fn law_custom_method_name(field: FieldView, marker: AttributeView, custom: Seq<char>)
    requires
        first_marker(field.attrs) == Some(marker),
        member_value(marker, "name"@) == Ok::<Option<Seq<char>>, ErrorView>(Some(custom)),
    ensures
        match parsed_ident(custom) {
            Ok(ident) => {
                &&& method_name_of(field, marker) == Ok::<Seq<char>, ErrorView>(ident)
                &&& tagged_field_of(field) matches Ok(Some(tagged)) ==> accessor_of(tagged).name
                    == ident
            },
            Err(message) => tagged_field_of(field) == Err::<Option<TaggedFieldView>, ErrorView>(
                ErrorView::UnparsableName(message),
            ),
        },
        parsed_ident(custom) == Ok::<Seq<char>, Seq<char>>(custom) ==> method_name_of(
            field,
            marker,
        ) == Ok::<Seq<char>, ErrorView>(custom),
{
}

/// A marked field whose marker gives no `vis` gets a method of the field's
/// own visibility.
pub proof fn law_inherited_visibility(field: FieldView, marker: AttributeView)
    requires
        first_marker(field.attrs) == Some(marker),
        member_value(marker, "vis"@) == Ok::<Option<Seq<char>>, ErrorView>(None),
    ensures
        visibility_of(field, marker) == Ok::<VisibilityView, ErrorView>(field.vis),
        tagged_field_of(field) matches Ok(Some(tagged)) ==> accessor_of(tagged).vis == field.vis,
{
}

/// A marked field whose marker gives `vis = "pub"` gets a public method,
/// whatever the field's own visibility.
pub proof fn law_public_override(field: FieldView, marker: AttributeView)
    requires
        first_marker(field.attrs) == Some(marker),
        member_value(marker, "vis"@) == Ok::<Option<Seq<char>>, ErrorView>(Some("pub"@)),
    ensures
        visibility_of(field, marker) == Ok::<VisibilityView, ErrorView>(VisibilityView::Public),
        tagged_field_of(field) matches Ok(Some(tagged)) ==> accessor_of(tagged).vis
            == VisibilityView::Public,
{
}

/// The marked fields come out in the order of declaration, each once:
/// `sources[k]` is the position of the field that the `k`-th settled field
/// stands for, the positions rise with `k`, and every field that is
/// settled as marked has its position among them.
pub proof fn law_declaration_order(fields: Seq<FieldView>) -> (sources: Seq<int>)
    requires
        tagged_fields_of(fields) is Ok,
    ensures
        sources.len() == tagged_fields_of(fields)->Ok_0.len(),
        forall|k: int|
            0 <= k < sources.len() ==> 0 <= #[trigger] sources[k] < fields.len()
                && tagged_field_of(fields[sources[k]]) == Ok::<Option<TaggedFieldView>, ErrorView>(
                Some(tagged_fields_of(fields)->Ok_0[k]),
            ),
        forall|k: int, l: int|
            0 <= k < l < sources.len() ==> #[trigger] sources[k] < #[trigger] sources[l],
        forall|i: int|
            0 <= i < fields.len() ==> (#[trigger] tagged_field_of(fields[i])) is Ok && (
            tagged_field_of(fields[i]) matches Ok(Some(_)) ==> exists|k: int|
                0 <= k < sources.len() && #[trigger] sources[k] == i),
    decreases fields.len(),
{
    if fields.len() == 0 {
        Seq::empty()
    } else {
        let before = fields.drop_last();
        let last = fields.len() - 1;
        let inner = law_declaration_order(before);
        assert forall|i: int| 0 <= i < before.len() implies before[i] == fields[i] by {}
        let sources = match tagged_field_of(fields.last()) {
            Ok(Some(_)) => inner.push(last),
            _ => inner,
        };
        assert forall|i: int| 0 <= i < fields.len() implies (#[trigger] tagged_field_of(
            fields[i],
        )) is Ok && (tagged_field_of(fields[i]) matches Ok(Some(_)) ==> exists|k: int|
            0 <= k < sources.len() && #[trigger] sources[k] == i) by {
            if i < last {
                assert(before[i] == fields[i]);
                assert(tagged_field_of(before[i]) is Ok);
                if tagged_field_of(fields[i]) matches Ok(Some(_)) {
                    let k = choose|k: int| 0 <= k < inner.len() && #[trigger] inner[k] == i;
                    assert(sources[k] == i);
                }
            } else {
                if tagged_field_of(fields[i]) matches Ok(Some(_)) {
                    assert(sources[inner.len() as int] == i);
                }
            }
        }
        sources
    }
}

/// Field declaration order is preserved in the generated block: the
/// methods are the accessors of the marked fields, in the order in which
/// the fields are declared, one for each.
pub proof fn law_accessor_order(record: RecordView, block: ImplBlockView) -> (sources: Seq<int>)
    requires
        generated(record) == Ok::<ImplBlockView, ErrorView>(block),
    ensures
        record.shape is NamedStruct,
        sources.len() == block.methods.len(),
        forall|k: int|
            0 <= k < sources.len() ==> 0 <= #[trigger] sources[k] < record.shape->NamedStruct_0.len()
                && (tagged_field_of(record.shape->NamedStruct_0[sources[k]]) matches Ok(
                Some(tagged),
            ) && block.methods[k] == accessor_of(tagged)),
        forall|k: int, l: int|
            0 <= k < l < sources.len() ==> #[trigger] sources[k] < #[trigger] sources[l],
        forall|i: int|
            0 <= i < record.shape->NamedStruct_0.len() && is_tagged(
                #[trigger] record.shape->NamedStruct_0[i],
            ) ==> exists|k: int| 0 <= k < sources.len() && #[trigger] sources[k] == i,
{
    let fields = record.shape->NamedStruct_0;
    let sources = law_declaration_order(fields);
    assert forall|i: int| 0 <= i < fields.len() && is_tagged(#[trigger] fields[i]) implies exists|
        k: int,
    |
        0 <= k < sources.len() && #[trigger] sources[k] == i by {
        law_one_accessor_per_tagged_field(fields[i]);
        assert(tagged_field_of(fields[i]) is Ok);
    }
    sources
}

/// A struct with named fields of which none carries the marker gets an
/// implementation block without methods: `impl` with the generic
/// parameters, the name and the where-clause of the type, and an empty
/// pair of braces. Only generic parameters that do not parse stand in the
/// way; a type without generic parameters has none that could.
pub proof fn law_no_marker_no_method(record: RecordView)
    requires
        record.shape is NamedStruct,
        forall|i: int|
            0 <= i < record.shape->NamedStruct_0.len() ==> !is_tagged(
                #[trigger] record.shape->NamedStruct_0[i],
            ),
    ensures
        match generics_of_text(record.generics) {
            Ok((for_impl, for_type)) => {
                &&& generated(record) matches Ok(block)
                &&& block.methods.len() == 0
                &&& block_text(block) == spaced(
                    seq![
                        "impl"@,
                        for_impl,
                        record.name,
                        for_type,
                        record.where_clause,
                        "{"@,
                        "}"@,
                    ],
                )
            },
            Err(message) => generated(record) == Err::<ImplBlockView, ErrorView>(
                ErrorView::UnparsableGenerics(message),
            ),
        },
        record.generics.len() == 0 ==> generated(record) == Ok::<ImplBlockView, ErrorView>(
            ImplBlockView {
                impl_generics: Seq::empty(),
                name: record.name,
                type_generics: Seq::empty(),
                where_clause: record.where_clause,
                methods: Seq::empty(),
            },
        ),
{
    let fields = record.shape->NamedStruct_0;
    lemma_untagged_fields(fields);
    if let Ok((for_impl, for_type)) = generics_of_text(record.generics) {
        let block = generated(record)->Ok_0;
        assert(block.methods =~= Seq::empty());
        assert(method_texts(block.methods) =~= Seq::empty());
        assert(seq![
            "impl"@,
            for_impl,
            record.name,
            for_type,
            record.where_clause,
            "{"@,
        ] + method_texts(block.methods) + seq!["}"@] =~= seq![
            "impl"@,
            for_impl,
            record.name,
            for_type,
            record.where_clause,
            "{"@,
            "}"@,
        ]);
    }
}

/// Fields of which none carries the marker settle to nothing.
proof fn lemma_untagged_fields(fields: Seq<FieldView>)
    requires
        forall|i: int| 0 <= i < fields.len() ==> !is_tagged(#[trigger] fields[i]),
    ensures
        tagged_fields_of(fields) == Ok::<Seq<TaggedFieldView>, ErrorView>(Seq::empty()),
    decreases fields.len(),
{
    if fields.len() > 0 {
        let before = fields.drop_last();
        assert forall|i: int| 0 <= i < before.len() implies !is_tagged(#[trigger] before[i]) by {
            assert(before[i] == fields[i]);
        }
        lemma_untagged_fields(before);
        assert(!is_tagged(fields[fields.len() - 1]));
        law_one_accessor_per_tagged_field(fields.last());
    }
}

/// Where every field settles without error, so do the fields together.
proof fn lemma_all_fields_settle(fields: Seq<FieldView>)
    requires
        forall|i: int| 0 <= i < fields.len() ==> (#[trigger] tagged_field_of(fields[i])) is Ok,
    ensures
        tagged_fields_of(fields) is Ok,
    decreases fields.len(),
{
    if fields.len() > 0 {
        let before = fields.drop_last();
        assert forall|i: int| 0 <= i < before.len() implies (#[trigger] tagged_field_of(
            before[i],
        )) is Ok by {
            assert(before[i] == fields[i]);
        }
        lemma_all_fields_settle(before);
        assert(tagged_field_of(fields[fields.len() - 1]) is Ok);
    }
}

/// The fields of a struct settle together exactly when each of them does.
/// Where one does not, the error is that of the first such field in the
/// order of declaration.
pub proof fn law_first_error_wins(fields: Seq<FieldView>)
    ensures
        tagged_fields_of(fields) is Ok <==> forall|i: int|
            0 <= i < fields.len() ==> (#[trigger] tagged_field_of(fields[i])) is Ok,
        forall|n: int|
            0 <= n < fields.len() && (#[trigger] tagged_field_of(fields[n])) is Err && (forall|
                i: int,
            |
                0 <= i < n ==> (#[trigger] tagged_field_of(fields[i])) is Ok)
                ==> tagged_fields_of(fields) == Err::<Seq<TaggedFieldView>, ErrorView>(
                tagged_field_of(fields[n])->Err_0,
            ),
{
    if tagged_fields_of(fields) is Ok {
        let sources = law_declaration_order(fields);
    }
    if forall|i: int| 0 <= i < fields.len() ==> (#[trigger] tagged_field_of(fields[i])) is Ok {
        lemma_all_fields_settle(fields);
    }
    assert forall|n: int|
        0 <= n < fields.len() && (#[trigger] tagged_field_of(fields[n])) is Err && (forall|i: int|
            0 <= i < n ==> (#[trigger] tagged_field_of(fields[i])) is Ok) implies tagged_fields_of(
        fields,
    ) == Err::<Seq<TaggedFieldView>, ErrorView>(tagged_field_of(fields[n])->Err_0) by {
        let before = fields.take(n);
        assert forall|i: int| 0 <= i < before.len() implies (#[trigger] tagged_field_of(
            before[i],
        )) is Ok by {
            assert(before[i] == fields[i]);
        }
        lemma_all_fields_settle(before);
        lemma_tagged_fields_error(fields, n);
    }
}

/// A pass succeeds exactly when the type is a struct with named fields,
/// its generic parameters parse, and every field settles without error.
/// The three are tried in this order, and the first that fails gives the
/// error.
pub proof fn law_success(record: RecordView)
    ensures
        generated(record) is Ok <==> {
            &&& record.shape matches ShapeView::NamedStruct(fields)
            &&& generics_of_text(record.generics) is Ok
            &&& forall|i: int|
                0 <= i < fields.len() ==> (#[trigger] tagged_field_of(fields[i])) is Ok
        },
        !(record.shape is NamedStruct) ==> generated(record) == Err::<ImplBlockView, ErrorView>(
            ErrorView::UnsupportedShape,
        ),
        record.shape is NamedStruct ==> (generics_of_text(record.generics) matches Err(message)
            ==> generated(record) == Err::<ImplBlockView, ErrorView>(
            ErrorView::UnparsableGenerics(message),
        )),
{
    if let ShapeView::NamedStruct(fields) = record.shape {
        law_first_error_wins(fields);
    }
}

/// A value that is no string literal, under a key that is looked up, is an
/// error of the lookup, and the error's message names the key.
pub proof fn law_other_literals_are_refused(
    path: Seq<Seq<char>>,
    arguments: Seq<ArgumentView>,
    at: int,
    key: Seq<char>,
    literal: Seq<char>,
)
    requires
        0 <= at < arguments.len(),
        arguments[at] == ArgumentView::NameValue(key, LiteralView::Other(literal)),
        forall|j: int| 0 <= j < at ==> argument_key(#[trigger] arguments[j]) != Some(key),
    ensures
        member_value(AttributeView { path, arguments: Some(arguments) }, key) == Err::<
            Option<Seq<char>>,
            ErrorView,
        >(ErrorView::InvalidLiteral(key)),
        message_text(ErrorView::InvalidLiteral(key)) == "Invalid literal for `"@ + key
            + "` argument to `pin_accessor` attribute."@,
{
    law_first_key_wins(arguments, key);
    assert(argument_key(arguments[at]) == Some(key));
    let found = first_keyed(arguments, key)->Some_0;
    let i = choose|i: int|
        0 <= i < arguments.len() && #[trigger] arguments[i] == found && argument_key(found)
            == Some(key) && forall|j: int|
            0 <= j < i ==> argument_key(#[trigger] arguments[j]) != Some(key);
    assert(i == at);
}

/// An argument whose key is not the one asked for does not change what is
/// found: with or without it, the marker gives the same value for `key`.
pub proof fn law_other_keys_are_ignored(
    path: Seq<Seq<char>>,
    arguments: Seq<ArgumentView>,
    at: int,
    key: Seq<char>,
)
    requires
        0 <= at < arguments.len(),
        argument_key(arguments[at]) != Some(key),
    ensures
        member_value(AttributeView { path, arguments: Some(arguments.remove(at)) }, key)
            == member_value(AttributeView { path, arguments: Some(arguments) }, key),
{
    lemma_first_keyed_remove(arguments, at, key);
}

/// Taking out an argument with another key leaves the first argument with
/// the key in place.
proof fn lemma_first_keyed_remove(arguments: Seq<ArgumentView>, at: int, key: Seq<char>)
    requires
        0 <= at < arguments.len(),
        argument_key(arguments[at]) != Some(key),
    ensures
        first_keyed(arguments.remove(at), key) == first_keyed(arguments, key),
    decreases arguments.len(),
{
    if at == 0 {
        assert(arguments.remove(0) =~= arguments.drop_first());
    } else {
        assert(arguments.remove(at)[0] == arguments[0]);
        if argument_key(arguments[0]) != Some(key) {
            assert(arguments.remove(at).drop_first() =~= arguments.drop_first().remove(at - 1));
            lemma_first_keyed_remove(arguments.drop_first(), at - 1, key);
        }
    }
}

} // verus!
