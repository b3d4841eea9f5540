//! Accessor generation for pinned structs.
//!
//! A struct opts single fields into pin projection by marking them:
//!
//! ```text
//! struct Foo {
//!     #[pin_accessor(name = "get_bar", vis = "pub")]
//!     bar: i32,
//! }
//! ```
//!
//! Given the description of such a struct, [`pin_accessor`] produces the
//! implementation block that holds one accessor method per marked field.
//! Each accessor takes the pinned struct and hands out the pinned field.
//!
//! - [`description`]: the struct, its fields and their attributes as plain
//!   values.
//! - [`marker`]: the marker attribute and the arguments it may give.
//! - [`accessor`]: from one marked field to its method.
//! - [`generator`]: a whole pass, and the generated block as text.
//! - [`syntax`]: what is asked of the `syn` parser.
//! - [`text`]: how token text is put together.
//! - [`error`]: why a pass was abandoned.
//! - [`laws`]: what holds of every pass.
//! - [`views`]: the views of options and results.

pub mod accessor;
pub mod description;
pub mod error;
pub mod generator;
pub mod laws;
pub mod marker;
pub mod syntax;
pub mod text;
pub mod views;

pub use accessor::{GeneratedAccessor, TaggedField};
pub use description::{
    Argument, Attribute, FieldDescription, Literal, RecordDescription, Shape, Visibility,
};
pub use error::GenerateError;
pub use generator::{pin_accessor, ImplBlock};
