//! The marker attribute and its arguments.
//!
//! A field opts into accessor generation by carrying an attribute whose path
//! ends in `pin_accessor`. The marker may give two arguments, each as
//! `key = "value"`: `name`, the identifier of the generated method, and
//! `vis`, its visibility. Any other key is passed over.

use vstd::prelude::*;
use crate::description::{Argument, ArgumentView, Attribute, AttributeView, Literal, LiteralView};
use crate::description::{arguments_view, attributes_view, FieldDescription};
use crate::description::{Visibility, VisibilityView};
use crate::error::{ErrorView, GenerateError};
use crate::syntax::{parse_ident, parse_visibility, parsed_ident, visibility_of_text};
use crate::text::same_text;
use crate::views::{option_view, optional_result_view, result_view};

verus! {

/// The identifier that marks a field.
pub open spec fn marker_name() -> Seq<char> {
    "pin_accessor"@
}

/// Whether `attr` is the marker: its path ends in the marker's name. The
/// segments before the last are not looked at, so a qualified path marks a
/// field as well.
pub open spec fn is_marker(attr: AttributeView) -> bool {
    attr.path.len() > 0 && attr.path.last() == marker_name()
}

/// The first marker among `attrs`, if there is one.
pub open spec fn first_marker(attrs: Seq<AttributeView>) -> Option<AttributeView>
    decreases attrs.len(),
{
    if attrs.len() == 0 {
        None
    } else if is_marker(attrs[0]) {
        Some(attrs[0])
    } else {
        first_marker(attrs.drop_first())
    }
}

/// The key of an argument; a literal without a key has none.
pub open spec fn argument_key(argument: ArgumentView) -> Option<Seq<char>> {
    match argument {
        ArgumentView::Word(key) => Some(key),
        ArgumentView::List(key) => Some(key),
        ArgumentView::NameValue(key, _) => Some(key),
        ArgumentView::Literal(_) => None,
    }
}

/// The first argument among `arguments` whose key is `key`, if there is one.
pub open spec fn first_keyed(arguments: Seq<ArgumentView>, key: Seq<char>) -> Option<
    ArgumentView,
>
    decreases arguments.len(),
{
    if arguments.len() == 0 {
        None
    } else if argument_key(arguments[0]) == Some(key) {
        Some(arguments[0])
    } else {
        first_keyed(arguments.drop_first(), key)
    }
}

/// The string that `attr` gives for `key`, taken from the first argument
/// with that key: the string where that argument is `key = "string"`, an
/// error that names the key where it is `key = literal` with any other
/// literal. There is none where the attribute has no argument list, where
/// no argument has the key, and where the first argument with the key is a
/// bare word or a list.
pub open spec fn member_value(attr: AttributeView, key: Seq<char>) -> Result<
    Option<Seq<char>>,
    ErrorView,
> {
    match attr.arguments {
        None => Ok(None),
        Some(arguments) => match first_keyed(arguments, key) {
            Some(ArgumentView::NameValue(_, LiteralView::Str(value))) => Ok(Some(value)),
            Some(ArgumentView::NameValue(_, LiteralView::Other(_))) => Err(
                ErrorView::InvalidLiteral(key),
            ),
            _ => Ok(None),
        },
    }
}

/// The method name that a marker asks for: none where it has no `name`
/// argument, the identifier that the argument's string holds where it has
/// one. A value that is no string literal, or a string that holds no
/// identifier, is an error.
pub open spec fn method_override(marker: AttributeView) -> Result<Option<Seq<char>>, ErrorView> {
    match member_value(marker, "name"@) {
        Ok(None) => Ok(None),
        Ok(Some(value)) => method_name_outcome(parsed_ident(value)),
        Err(error) => Err(error),
    }
}

/// What the parser's answer on a `name` argument means for the method name.
pub open spec fn method_name_outcome(parsed: Result<Seq<char>, Seq<char>>) -> Result<
    Option<Seq<char>>,
    ErrorView,
> {
    match parsed {
        Ok(ident) => Ok(Some(ident)),
        Err(message) => Err(ErrorView::UnparsableName(message)),
    }
}

/// The visibility that a marker asks for: none where it has no `vis`
/// argument, the visibility that the argument's string spells where it has
/// one. A value that is no string literal, or a string that spells no
/// visibility, is an error.
pub open spec fn visibility_override(marker: AttributeView) -> Result<
    Option<VisibilityView>,
    ErrorView,
> {
    match member_value(marker, "vis"@) {
        Ok(None) => Ok(None),
        Ok(Some(value)) => visibility_outcome(visibility_of_text(value)),
        Err(error) => Err(error),
    }
}

/// What the parser's answer on a `vis` argument means for the visibility.
pub open spec fn visibility_outcome(parsed: Result<VisibilityView, Seq<char>>) -> Result<
    Option<VisibilityView>,
    ErrorView,
> {
    match parsed {
        Ok(vis) => Ok(Some(vis)),
        Err(message) => Err(ErrorView::UnparsableVis(message)),
    }
}

/// Where no attribute before position `n` is a marker, the first marker is
/// the first one from `n` on.
proof fn lemma_first_marker_skip(attrs: Seq<AttributeView>, n: int)
    requires
        0 <= n <= attrs.len(),
        forall|j: int| 0 <= j < n ==> !is_marker(#[trigger] attrs[j]),
    ensures
        first_marker(attrs) == first_marker(attrs.skip(n)),
    decreases n,
{
    if n == 0 {
        assert(attrs.skip(0) =~= attrs);
    } else {
        let rest = attrs.drop_first();
        assert(!is_marker(attrs[0]));
        assert forall|j: int| 0 <= j < n - 1 implies !is_marker(#[trigger] rest[j]) by {
            assert(rest[j] == attrs[j + 1]);
        }
        lemma_first_marker_skip(rest, n - 1);
        assert(rest.skip(n - 1) =~= attrs.skip(n));
    }
}

/// Where no argument before position `n` has the key, the first argument
/// with the key is the first one from `n` on.
proof fn lemma_first_keyed_skip(arguments: Seq<ArgumentView>, key: Seq<char>, n: int)
    requires
        0 <= n <= arguments.len(),
        forall|j: int| 0 <= j < n ==> argument_key(#[trigger] arguments[j]) != Some(key),
    ensures
        first_keyed(arguments, key) == first_keyed(arguments.skip(n), key),
    decreases n,
{
    if n == 0 {
        assert(arguments.skip(0) =~= arguments);
    } else {
        let rest = arguments.drop_first();
        assert(argument_key(arguments[0]) != Some(key));
        assert forall|j: int| 0 <= j < n - 1 implies argument_key(#[trigger] rest[j]) != Some(
            key,
        ) by {
            assert(rest[j] == arguments[j + 1]);
        }
        lemma_first_keyed_skip(rest, key, n - 1);
        assert(rest.skip(n - 1) =~= arguments.skip(n));
    }
}

/// Whether `attr` is the marker attribute.
pub fn is_pin_accessor_attr(attr: &Attribute) -> (marked: bool)
    ensures
        marked == is_marker(attr@),
{
    let n = attr.path.len();
    if n == 0 {
        false
    } else {
        let name = String::from_str("pin_accessor");
        same_text(&attr.path[n - 1], &name)
    }
}

/// The marker of a field: the first of its attributes that is one. Further
/// markers on the same field are not looked at.
pub fn locate_marker(field: &FieldDescription) -> (marker: Option<&Attribute>)
    ensures
        option_view(marker) == first_marker(field@.attrs),
{
    let attrs = &field.attrs;
    let ghost views = attributes_view(attrs@);
    let mut i: usize = 0;
    while i < attrs.len()
        invariant
            i <= attrs.len(),
            views == attributes_view(attrs@),
            views == field@.attrs,
            forall|j: int| 0 <= j < i ==> !is_marker(#[trigger] views[j]),
        decreases attrs.len() - i,
    {
        if is_pin_accessor_attr(&attrs[i]) {
            proof {
                lemma_first_marker_skip(views, i as int);
                assert(views.skip(i as int)[0] == attrs[i as int]@);
            }
            return Some(&attrs[i]);
        }
        i += 1;
    }
    proof {
        lemma_first_marker_skip(views, i as int);
    }
    None
}

/// Whether `argument` has the key `key`.
fn has_key(argument: &Argument, key: &String) -> (keyed: bool)
    ensures
        keyed == (argument_key(argument@) == Some(key@)),
{
    match argument {
        Argument::Word(own) => same_text(own, key),
        Argument::List(own) => same_text(own, key),
        Argument::NameValue(own, _) => same_text(own, key),
        Argument::Literal(_) => false,
    }
}

/// Looks up the string that `attr` gives for the key `name`: for
/// `#[foo(bar = "baz")]` and `bar`, the string `baz`. A value under the key
/// that is no string literal, as in `#[foo(bar = 5)]`, is an error.
pub fn find_attribute_member(attr: &Attribute, name: &str) -> (value: Result<
    Option<String>,
    GenerateError,
>)
    ensures
        optional_result_view(value) == member_value(attr@, name@),
{
    match &attr.arguments {
        None => Ok(None),
        Some(arguments) => {
            let key = String::from_str(name);
            let ghost views = arguments_view(arguments@);
            let mut i: usize = 0;
            while i < arguments.len()
                invariant
                    i <= arguments.len(),
                    views == arguments_view(arguments@),
                    attr@.arguments == Some(views),
                    key@ == name@,
                    forall|j: int| 0 <= j < i ==> argument_key(#[trigger] views[j]) != Some(key@),
                decreases arguments.len() - i,
            {
                if has_key(&arguments[i], &key) {
                    proof {
                        lemma_first_keyed_skip(views, key@, i as int);
                        assert(views.skip(i as int)[0] == arguments[i as int]@);
                    }
                    return match &arguments[i] {
                        Argument::NameValue(_, Literal::Str(value)) => Ok(Some(value.clone())),
                        Argument::NameValue(_, Literal::Other(_)) => Err(
                            GenerateError::InvalidLiteral(key),
                        ),
                        _ => Ok(None),
                    };
                }
                i += 1;
            }
            proof {
                lemma_first_keyed_skip(views, key@, i as int);
            }
            Ok(None)
        },
    }
}

/// Turns the parser's answer on a `name` argument into the method name or
/// the error to report.
pub fn method_name_from(parsed: Result<String, String>) -> (name: Result<
    Option<String>,
    GenerateError,
>)
    ensures
        optional_result_view(name) == method_name_outcome(result_view(parsed)),
{
    match parsed {
        Ok(ident) => Ok(Some(ident)),
        Err(message) => Err(GenerateError::UnparsableName(message)),
    }
}

/// Turns the parser's answer on a `vis` argument into the visibility or the
/// error to report.
pub fn visibility_from(parsed: Result<Visibility, String>) -> (vis: Result<
    Option<Visibility>,
    GenerateError,
>)
    ensures
        optional_result_view(vis) == visibility_outcome(result_view(parsed)),
{
    match parsed {
        Ok(vis) => Ok(Some(vis)),
        Err(message) => Err(GenerateError::UnparsableVis(message)),
    }
}

/// The method name that the marker asks for, if it asks for one.
pub fn get_method_name(attr: &Attribute) -> (name: Result<Option<String>, GenerateError>)
    ensures
        optional_result_view(name) == method_override(attr@),
{
    match find_attribute_member(attr, "name") {
        Ok(None) => Ok(None),
        Ok(Some(value)) => method_name_from(parse_ident(value.as_str())),
        Err(error) => Err(error),
    }
}

/// The visibility that the marker asks for, if it asks for one.
pub fn get_visibility(attr: &Attribute) -> (vis: Result<Option<Visibility>, GenerateError>)
    ensures
        optional_result_view(vis) == visibility_override(attr@),
{
    match find_attribute_member(attr, "vis") {
        Ok(None) => Ok(None),
        Ok(Some(value)) => visibility_from(parse_visibility(value.as_str())),
        Err(error) => Err(error),
    }
}

} // verus!
