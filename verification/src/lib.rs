//! Typed-value marshalling for NetCDF-style array files.
//!
//! The crate holds the decisions of a reader of self-describing array files:
//! the value model, the mapping from on-disk element types to loaders and
//! type tags, the conversion of attributes, and the protocol by which a
//! variable is looked up and loaded. It performs no I/O itself: a driver
//! carries out the reads that the protocol asks for and hands back what the
//! format library returned.
//!
//! An operation runs like this. The driver enumerates the variables of the
//! open file and starts the operation with [`variable_values`],
//! [`variable_attributes`] or [`variable_load`]. It gets a [`Step`]: either
//! the end of the operation, or one read to perform. It performs the read
//! and hands the reply to the function that the step names, which gives the
//! next step, until the operation has ended.

pub mod attributes;
pub mod catalog;
pub mod contents;
pub mod dispatch;
pub mod error;
pub mod file;
pub mod loader;
pub mod text;
pub mod value;
pub mod variable;

pub use attributes::{
    get_variable_attributes, parse_variable_attribute, same_entries, Attribute, AttributeView,
};
pub use catalog::{variable_attributes, variable_load, variable_values};
pub use dispatch::{as_type_atom, dispatch, ElementKind, VariableType, VariableTypeView};
pub use error::{BackendError, BackendErrorView, NetCDFError, NetCDFErrorView};
pub use file::{
    file_open, file_open_with_variables, file_variables, get_variable, list_variables, NetCDFFile,
    NetCDFFileView,
};
pub use loader::{
    get_variable_values, load_numeric_variable_values, load_string_variable_values,
    load_variable_attributes, AttributeRead, AttributeReadView, BufferRead, BufferReadView,
    Outcome, OutcomeView, Step, StepView, TextRead, TextReadView,
};
pub use text::same_text;
pub use value::{AttrValue, F32Bits, F64Bits, TypeTag, Value, ValueView};
pub use variable::{NetCDFVariable, NetCDFVariableView, Variable, VariableView};
