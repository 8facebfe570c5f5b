//! The operations on an open file: the values of a variable, its
//! attributes, or both at once. Each starts with the lookup of the variable
//! in an enumeration of the file's variables and goes on as the protocol of
//! the loader prescribes.

use vstd::prelude::*;
use crate::error::NetCDFErrorView;
use crate::file::{find_variable, get_variable};
use crate::loader::{
    get_variable_values, get_variable_values_spec, AttributeRead, AttributeReadView, Step,
    StepView,
};
use crate::variable::{Variable, VariableView};

verus! {

/// The first step of loading the values of the variable called `name`:
/// `NotFound` where the enumeration holds no such variable, and otherwise
/// the first step of loading the first variable of that name.
pub open spec fn variable_values_spec(variables: Seq<VariableView>, name: Seq<char>) -> StepView {
    match find_variable(variables, name) {
        None => StepView::Done(Err(NetCDFErrorView::NotFound)),
        Some(i) => get_variable_values_spec(variables[i], false),
    }
}

/// The first step of reading the attributes of the variable called `name`:
/// `NotFound` where the enumeration holds no such variable, and otherwise
/// the request for its attributes.
pub open spec fn variable_attributes_spec(variables: Seq<VariableView>, name: Seq<char>)
    -> StepView {
    match find_variable(variables, name) {
        None => StepView::Done(Err(NetCDFErrorView::NotFound)),
        Some(i) => StepView::ReadAttributes(
            AttributeReadView { name: variables[i].name, loaded: None },
        ),
    }
}

/// The first step of loading everything about the variable called `name`:
/// `NotFound` where the enumeration holds no such variable, and otherwise
/// the first step of loading its values, with its attributes to follow.
pub open spec fn variable_load_spec(variables: Seq<VariableView>, name: Seq<char>) -> StepView {
    match find_variable(variables, name) {
        None => StepView::Done(Err(NetCDFErrorView::NotFound)),
        Some(i) => get_variable_values_spec(variables[i], true),
    }
}

/// Starts loading the values of the variable called `name`. The operation
/// ends with the values and the tag of their element kind.
pub fn variable_values(variables: &Vec<Variable>, name: &str) -> (step: Step)
    ensures
        step@ == variable_values_spec(variables.deep_view(), name@),
{
    match get_variable(variables, name) {
        Err(error) => Step::Done(Err(error)),
        Ok(variable) => get_variable_values(variable, false),
    }
}

/// Starts reading the attributes of the variable called `name`. The
/// operation ends with the attributes in the order of the file.
pub fn variable_attributes(variables: &Vec<Variable>, name: &str) -> (step: Step)
    ensures
        step@ == variable_attributes_spec(variables.deep_view(), name@),
{
    match get_variable(variables, name) {
        Err(error) => Step::Done(Err(error)),
        Ok(variable) => Step::ReadAttributes(
            AttributeRead { name: variable.name.clone(), loaded: None },
        ),
    }
}

/// Starts loading everything about the variable called `name`: its values
/// first, then its attributes. The operation ends with one record that
/// holds the name, the values, their tag and the attributes.
pub fn variable_load(variables: &Vec<Variable>, name: &str) -> (step: Step)
    ensures
        step@ == variable_load_spec(variables.deep_view(), name@),
{
    match get_variable(variables, name) {
        Err(error) => Step::Done(Err(error)),
        Ok(variable) => get_variable_values(variable, true),
    }
}

} // verus!
