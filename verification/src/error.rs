//! Why a generation pass was abandoned.

use vstd::prelude::*;

verus! {

/// The reason a generation pass produced no code. Every error ends the pass:
/// no accessor is generated for any field of the type.
#[derive(Debug, PartialEq, Eq)]
pub enum GenerateError {
    /// The type is not a struct with named fields.
    UnsupportedShape,
    /// The generic parameters of the type do not read as generic parameters.
    /// Holds the parser's message.
    UnparsableGenerics(String),
    /// An argument of the marker that was looked up has a value that is not
    /// a string literal. Holds the argument's key.
    InvalidLiteral(String),
    /// The marker's `name` argument does not read as an identifier. Holds
    /// the parser's message.
    UnparsableName(String),
    /// The marker's `vis` argument does not read as a visibility. Holds the
    /// parser's message.
    UnparsableVis(String),
}

/// What an error holds, with every text as a sequence of characters.
pub enum ErrorView {
    UnsupportedShape,
    UnparsableGenerics(Seq<char>),
    InvalidLiteral(Seq<char>),
    UnparsableName(Seq<char>),
    UnparsableVis(Seq<char>),
}

impl View for GenerateError {
    type V = ErrorView;

    open spec fn view(&self) -> ErrorView {
        match self {
            GenerateError::UnparsableGenerics(detail) => ErrorView::UnparsableGenerics(detail@),
            GenerateError::UnsupportedShape => ErrorView::UnsupportedShape,
            GenerateError::InvalidLiteral(key) => ErrorView::InvalidLiteral(key@),
            GenerateError::UnparsableName(detail) => ErrorView::UnparsableName(detail@),
            GenerateError::UnparsableVis(detail) => ErrorView::UnparsableVis(detail@),
        }
    }
}

impl Clone for GenerateError {
    fn clone(&self) -> (copy: Self)
        ensures
            copy == *self,
    {
        match self {
            GenerateError::UnparsableGenerics(detail) => GenerateError::UnparsableGenerics(
                detail.clone(),
            ),
            GenerateError::UnsupportedShape => GenerateError::UnsupportedShape,
            GenerateError::InvalidLiteral(key) => GenerateError::InvalidLiteral(key.clone()),
            GenerateError::UnparsableName(detail) => GenerateError::UnparsableName(detail.clone()),
            GenerateError::UnparsableVis(detail) => GenerateError::UnparsableVis(detail.clone()),
        }
    }
}

/// The message that describes `error`. A message about an argument names
/// the argument; a message about unparsable text ends with the parser's own
/// message.
pub open spec fn message_text(error: ErrorView) -> Seq<char> {
    match error {
        ErrorView::UnparsableGenerics(detail) => "Could not parse the generic parameters: "@
            + detail,
        ErrorView::UnsupportedShape =>
            "PinAccessor can only be derived for structs with named fields."@,
        ErrorView::InvalidLiteral(key) => "Invalid literal for `"@ + key
            + "` argument to `pin_accessor` attribute."@,
        ErrorView::UnparsableName(detail) =>
            "Could not parse `name` argument as a method name: "@ + detail,
        ErrorView::UnparsableVis(detail) => "Could not parse `vis` argument as a visibility: "@
            + detail,
    }
}

impl GenerateError {
    /// The message to abort the compilation with.
    pub fn message(&self) -> (text: String)
        ensures
            text@ == message_text(self@),
    {
        match self {
            GenerateError::UnparsableGenerics(detail) => String::from_str(
                "Could not parse the generic parameters: ",
            ).concat(detail.as_str()),
            GenerateError::UnsupportedShape => String::from_str(
                "PinAccessor can only be derived for structs with named fields.",
            ),
            GenerateError::InvalidLiteral(key) => String::from_str("Invalid literal for `").concat(
                key.as_str(),
            ).concat("` argument to `pin_accessor` attribute."),
            GenerateError::UnparsableName(detail) => String::from_str(
                "Could not parse `name` argument as a method name: ",
            ).concat(detail.as_str()),
            GenerateError::UnparsableVis(detail) => String::from_str(
                "Could not parse `vis` argument as a visibility: ",
            ).concat(detail.as_str()),
        }
    }
}

} // verus!
