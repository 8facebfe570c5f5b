//! The loading of one variable as a protocol without I/O. Each step either
//! asks for one read of the format library or ends the operation; whoever
//! drives the protocol performs the read and hands back what it gave.
//!
//! A numeric variable is read in one piece, flattened to one dimension in
//! the order of the file. A text variable is read element by element, by
//! position. Either the whole value is produced or the operation fails as a
//! unit: nothing partial is ever returned.

use vstd::prelude::*;
use vstd::std_specs::cmp::PartialEqSpecImpl;
use crate::attributes::{
    attributes_spec, get_variable_attributes, same_entries, Attribute, AttributeView,
};
use crate::dispatch::{dispatch, dispatch_spec, ElementKind};
use crate::error::{reply_view, BackendError, BackendErrorView, NetCDFError, NetCDFErrorView};
use crate::value::{TypeTag, Value, ValueView};
use crate::variable::{NetCDFVariable, NetCDFVariableView, Variable, VariableView};

verus! {

/// A pending read of a whole numeric variable: the variable `name` is to be
/// read in full as elements of `kind`, and `len` elements are expected.
#[derive(Debug, PartialEq, Eq)]
pub struct BufferRead {
    pub name: String,
    pub kind: ElementKind,
    pub len: usize,
    /// Whether the variable's attributes are read once its values are there.
    pub then_attributes: bool,
}

/// The mathematical content of a [`BufferRead`].
pub struct BufferReadView {
    pub name: Seq<char>,
    pub kind: ElementKind,
    pub len: nat,
    pub then_attributes: bool,
}

impl View for BufferRead {
    type V = BufferReadView;

    open spec fn view(&self) -> BufferReadView {
        BufferReadView {
            name: self.name@,
            kind: self.kind,
            len: self.len as nat,
            then_attributes: self.then_attributes,
        }
    }
}

/// A pending read of one element of a text variable: the elements before
/// position `values.len()` of the variable `name` have been read, and the
/// element at that position is to be read next, of `len` in all.
#[derive(Debug, PartialEq, Eq)]
pub struct TextRead {
    pub name: String,
    pub len: usize,
    pub values: Vec<String>,
    /// Whether the variable's attributes are read once its values are there.
    pub then_attributes: bool,
}

/// The mathematical content of a [`TextRead`].
pub struct TextReadView {
    pub name: Seq<char>,
    pub len: nat,
    pub values: Seq<Seq<char>>,
    pub then_attributes: bool,
}

impl View for TextRead {
    type V = TextReadView;

    open spec fn view(&self) -> TextReadView {
        TextReadView {
            name: self.name@,
            len: self.len as nat,
            values: self.values.deep_view(),
            then_attributes: self.then_attributes,
        }
    }
}

impl TextRead {
    /// The position of the element to read next.
    pub fn index(&self) -> (index: usize)
        ensures
            index == self@.values.len(),
    {
        self.values.len()
    }
}

/// A pending read of the attributes of the variable `name`. Where the
/// variable's values were loaded before, they wait here for the attributes.
#[derive(Debug, PartialEq, Eq)]
pub struct AttributeRead {
    pub name: String,
    pub loaded: Option<(Value, TypeTag)>,
}

/// The mathematical content of an [`AttributeRead`].
pub struct AttributeReadView {
    pub name: Seq<char>,
    pub loaded: Option<(ValueView, TypeTag)>,
}

impl View for AttributeRead {
    type V = AttributeReadView;

    open spec fn view(&self) -> AttributeReadView {
        AttributeReadView {
            name: self.name@,
            loaded: match self.loaded {
                Some((value, tag)) => Some((value@, tag)),
                None => None,
            },
        }
    }
}

/// What a finished operation returns.
#[derive(Debug)]
pub enum Outcome {
    /// The values of a variable and the tag of their element kind.
    Values(Value, TypeTag),
    /// The attributes of a variable, in the order of the file.
    Attributes(Vec<(String, Value)>),
    /// Everything about a variable.
    Variable(NetCDFVariable),
}

/// The mathematical content of an [`Outcome`].
pub enum OutcomeView {
    Values(ValueView, TypeTag),
    Attributes(Seq<(Seq<char>, ValueView)>),
    Variable(NetCDFVariableView),
}

impl View for Outcome {
    type V = OutcomeView;

    open spec fn view(&self) -> OutcomeView {
        match self {
            Outcome::Values(value, tag) => OutcomeView::Values(value@, *tag),
            Outcome::Attributes(entries) => OutcomeView::Attributes(entries.deep_view()),
            Outcome::Variable(variable) => OutcomeView::Variable(variable@),
        }
    }
}

impl PartialEqSpecImpl for Outcome {
    open spec fn obeys_eq_spec() -> bool {
        true
    }

    open spec fn eq_spec(&self, other: &Outcome) -> bool {
        self@ == other@
    }
}

impl PartialEq for Outcome {
    /// Equality is structural: results of the same operation that hold the
    /// same values, tags, names and attributes.
    fn eq(&self, other: &Outcome) -> (equal: bool) {
        match (self, other) {
            (Outcome::Values(a, s), Outcome::Values(b, t)) => *a == *b && *s == *t,
            (Outcome::Attributes(a), Outcome::Attributes(b)) => same_entries(a, b),
            (Outcome::Variable(a), Outcome::Variable(b)) => *a == *b,
            _ => false,
        }
    }
}

impl Eq for Outcome {

}

/// One step of an operation: a read to perform, or the end.
#[derive(Debug, PartialEq, Eq)]
pub enum Step {
    /// Read the whole variable as a buffer of the given element kind, then
    /// continue with [`load_numeric_variable_values`].
    ReadBuffer(BufferRead),
    /// Read one element of text, then continue with
    /// [`load_string_variable_values`].
    ReadText(TextRead),
    /// Enumerate the variable's attributes, then continue with
    /// [`load_variable_attributes`].
    ReadAttributes(AttributeRead),
    /// The operation has ended, with its result or its failure.
    Done(Result<Outcome, NetCDFError>),
}

/// The mathematical content of a [`Step`].
pub enum StepView {
    ReadBuffer(BufferReadView),
    ReadText(TextReadView),
    ReadAttributes(AttributeReadView),
    Done(Result<OutcomeView, NetCDFErrorView>),
}

impl View for Step {
    type V = StepView;

    open spec fn view(&self) -> StepView {
        match self {
            Step::ReadBuffer(read) => StepView::ReadBuffer(read@),
            Step::ReadText(read) => StepView::ReadText(read@),
            Step::ReadAttributes(read) => StepView::ReadAttributes(read@),
            Step::Done(Ok(outcome)) => StepView::Done(Ok(outcome@)),
            Step::Done(Err(error)) => StepView::Done(Err(error@)),
        }
    }
}

/// The step that follows once a variable's values are there: the end of the
/// operation with the values and their tag, or the reading of the
/// attributes where they were asked for too.
pub open spec fn after_values(
    then_attributes: bool,
    name: Seq<char>,
    value: ValueView,
    tag: TypeTag,
) -> StepView {
    if then_attributes {
        StepView::ReadAttributes(AttributeReadView { name, loaded: Some((value, tag)) })
    } else {
        StepView::Done(Ok(OutcomeView::Values(value, tag)))
    }
}

/// The first step of loading a variable's values. An element type without
/// a loader ends the operation with `UnsupportedType` and the type's name.
/// A numeric variable asks for one read of the whole buffer at the width
/// and signedness that the dispatcher selects. A text variable asks for its
/// first element, and has its values at once where it holds none.
pub open spec fn get_variable_values_spec(variable: VariableView, then_attributes: bool)
    -> StepView {
    match dispatch_spec(variable.vartype) {
        Err(error) => StepView::Done(Err(error)),
        Ok((kind, tag)) => if kind != ElementKind::Text {
            StepView::ReadBuffer(
                BufferReadView { name: variable.name, kind, len: variable.len, then_attributes },
            )
        } else if variable.len == 0 {
            after_values(
                then_attributes,
                variable.name,
                ValueView::Strs(Seq::empty()),
                TypeTag::Text,
            )
        } else {
            StepView::ReadText(
                TextReadView {
                    name: variable.name,
                    len: variable.len,
                    values: Seq::empty(),
                    then_attributes,
                },
            )
        },
    }
}

/// The step after a whole-buffer read. A failed read ends the operation
/// with the failure of the format library. A buffer that is not an array of
/// the kind asked for, or not of the expected length, ends it with
/// `TypeMismatch` or `BufferLen`. Any other buffer is the variable's value,
/// tagged by the loader's tag.
pub open spec fn load_numeric_spec(
    read: BufferReadView,
    reply: Result<ValueView, BackendErrorView>,
) -> StepView {
    match reply {
        Err(cause) => StepView::Done(Err(NetCDFErrorView::NetCDF(cause))),
        Ok(value) => if !value.is_array() || value.type_tag() != read.kind.spec_type_tag() {
            StepView::Done(Err(NetCDFErrorView::NetCDF(BackendErrorView::TypeMismatch)))
        } else if value.len() != read.len {
            StepView::Done(
                Err(
                    NetCDFErrorView::NetCDF(
                        BackendErrorView::BufferLen { wanted: read.len, actual: value.len() },
                    ),
                ),
            )
        } else {
            after_values(read.then_attributes, read.name, value, read.kind.spec_type_tag())
        },
    }
}

/// The step after the read of one text element. A failed read ends the
/// operation with the failure of the format library, and what was read
/// before is dropped. An element is appended to those read before; with it
/// the values are complete, or the next element is asked for.
pub open spec fn load_string_spec(read: TextReadView, reply: Result<Seq<char>, BackendErrorView>)
    -> StepView {
    match reply {
        Err(cause) => StepView::Done(Err(NetCDFErrorView::NetCDF(cause))),
        Ok(text) => {
            let values = read.values.push(text);
            if values.len() >= read.len {
                after_values(
                    read.then_attributes,
                    read.name,
                    ValueView::Strs(values),
                    TypeTag::Text,
                )
            } else {
                StepView::ReadText(
                    TextReadView {
                        name: read.name,
                        len: read.len,
                        values,
                        then_attributes: read.then_attributes,
                    },
                )
            }
        },
    }
}

/// The step after the enumeration of a variable's attributes, which always
/// ends the operation with success: with the converted attributes alone, or
/// with the whole variable where its values were loaded before.
pub open spec fn load_attributes_spec(read: AttributeReadView, attributes: Seq<AttributeView>)
    -> StepView {
    let entries = attributes_spec(attributes);
    match read.loaded {
        None => StepView::Done(Ok(OutcomeView::Attributes(entries))),
        Some((value, tag)) => StepView::Done(
            Ok(
                OutcomeView::Variable(
                    NetCDFVariableView { name: read.name, value, type_tag: tag, attributes: entries },
                ),
            ),
        ),
    }
}

/// Continues once a variable's values are there.
fn finish_values(then_attributes: bool, name: String, value: Value, tag: TypeTag) -> (step: Step)
    ensures
        step@ == after_values(then_attributes, name@, value@, tag),
{
    if then_attributes {
        Step::ReadAttributes(AttributeRead { name, loaded: Some((value, tag)) })
    } else {
        Step::Done(Ok(Outcome::Values(value, tag)))
    }
}

/// Starts loading the values of a variable: selects the loader for its
/// element type and asks for the first read. With `then_attributes` the
/// operation goes on to the variable's attributes once its values are
/// there, and ends with the whole record instead of the values alone.
pub fn get_variable_values(variable: &Variable, then_attributes: bool) -> (step: Step)
    ensures
        step@ == get_variable_values_spec(variable@, then_attributes),
{
    match dispatch(&variable.vartype) {
        Err(error) => Step::Done(Err(error)),
        Ok((kind, _)) => {
            let name = variable.name.clone();
            if kind.is_numeric() {
                Step::ReadBuffer(BufferRead { name, kind, len: variable.len, then_attributes })
            } else if variable.len == 0 {
                let values: Vec<String> = Vec::new();
                proof {
                    assert(values.deep_view() =~= Seq::<Seq<char>>::empty());
                }
                finish_values(then_attributes, name, Value::from(values), TypeTag::Text)
            } else {
                let values: Vec<String> = Vec::new();
                proof {
                    assert(values.deep_view() =~= Seq::<Seq<char>>::empty());
                }
                Step::ReadText(TextRead { name, len: variable.len, values, then_attributes })
            }
        },
    }
}

/// Continues after the read of a whole numeric variable.
pub fn load_numeric_variable_values(read: BufferRead, reply: Result<Value, BackendError>) -> (step:
    Step)
    ensures
        step@ == load_numeric_spec(read@, reply_view(reply)),
{
    match reply {
        Err(cause) => Step::Done(Err(NetCDFError::from(cause))),
        Ok(value) => {
            let tag = read.kind.type_tag();
            if !value.is_array() || value.type_tag() != tag {
                Step::Done(Err(NetCDFError::from(BackendError::TypeMismatch)))
            } else if value.len() != read.len {
                let actual = value.len();
                Step::Done(
                    Err(NetCDFError::from(BackendError::BufferLen { wanted: read.len, actual })),
                )
            } else {
                finish_values(read.then_attributes, read.name, value, tag)
            }
        },
    }
}

/// Continues after the read of one element of a text variable.
pub fn load_string_variable_values(read: TextRead, reply: Result<String, BackendError>) -> (step:
    Step)
    ensures
        step@ == load_string_spec(read@, reply_view(reply)),
{
    match reply {
        Err(cause) => Step::Done(Err(NetCDFError::from(cause))),
        Ok(text) => {
            let TextRead { name, len, values, then_attributes } = read;
            let ghost before = values.deep_view();
            let mut values = values;
            values.push(text);
            proof {
                assert(values.deep_view() =~= before.push(text@));
            }
            if values.len() >= len {
                finish_values(then_attributes, name, Value::from(values), TypeTag::Text)
            } else {
                Step::ReadText(TextRead { name, len, values, then_attributes })
            }
        },
    }
}

/// Continues after the enumeration of a variable's attributes.
pub fn load_variable_attributes(read: AttributeRead, attributes: Vec<Attribute>) -> (step: Step)
    ensures
        step@ == load_attributes_spec(read@, attributes.deep_view()),
{
    let entries = get_variable_attributes(attributes);
    let AttributeRead { name, loaded } = read;
    match loaded {
        None => Step::Done(Ok(Outcome::Attributes(entries))),
        Some((value, tag)) => Step::Done(
            Ok(Outcome::Variable(NetCDFVariable::new(name, value, tag, entries))),
        ),
    }
}

} // verus!
