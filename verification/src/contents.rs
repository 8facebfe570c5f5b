//! What the operations return for given contents of a file.
//!
//! The module describes a file by what its reads give, says in one piece
//! what loading the values, the attributes or the whole of a variable
//! returns for such a file, proves that the protocol returns just that when
//! each of its reads is answered from the file, and states what holds of
//! every file.

use vstd::prelude::*;
use crate::attributes::{attributes_spec, AttributeView};
use crate::catalog::{variable_attributes_spec, variable_load_spec, variable_values_spec};
use crate::dispatch::{dispatch_spec, ElementKind};
use crate::error::{BackendErrorView, NetCDFErrorView};
use crate::file::{
    file_variables_spec, find_variable, lemma_find_from, lemma_find_variable_listed,
    NetCDFFileView,
};
use crate::loader::{
    after_values, get_variable_values_spec, load_attributes_spec, load_numeric_spec,
    load_string_spec, OutcomeView, StepView, TextReadView,
};
use crate::value::{TypeTag, ValueView};
use crate::variable::{NetCDFVariableView, VariableView};

verus! {

/// The contents of a file as far as the operations can observe them: the
/// variables that an enumeration gives, and what the format library answers
/// to each read that an operation can ask for: the buffer of a variable at
/// an element kind, the text element of a variable at a position, and the
/// attributes of a variable.
pub struct Contents {
    pub variables: Seq<VariableView>,
    pub buffer: spec_fn(Seq<char>, ElementKind) -> Result<ValueView, BackendErrorView>,
    pub text: spec_fn(Seq<char>, nat) -> Result<Seq<char>, BackendErrorView>,
    pub attributes: spec_fn(Seq<char>) -> Seq<AttributeView>,
}

/// Whether `value` is what a loader of `kind` produces for a variable of
/// `len` elements: an array of that kind's elements, `len` of them.
pub open spec fn fits(value: ValueView, kind: ElementKind, len: nat) -> bool {
    &&& value.is_array()
    &&& value.type_tag() == kind.spec_type_tag()
    &&& value.len() == len
}

/// The failure of the first text element of the variable `name`, at or
/// after position `from` and before `len`, whose read fails.
pub open spec fn first_text_failure(contents: Contents, name: Seq<char>, from: nat, len: nat)
    -> Option<BackendErrorView>
    decreases len - from,
{
    if from >= len {
        None
    } else {
        match (contents.text)(name, from) {
            Err(cause) => Some(cause),
            Ok(_) => first_text_failure(contents, name, from + 1, len),
        }
    }
}

/// The first `len` text elements of the variable `name`, in their order. An
/// element whose read fails stands as the empty text; the run is made use of
/// only where none of them fails.
pub open spec fn text_elements(contents: Contents, name: Seq<char>, len: nat) -> Seq<Seq<char>> {
    Seq::new(
        len,
        |i: int|
            match (contents.text)(name, i as nat) {
                Ok(text) => text,
                Err(_) => Seq::empty(),
            },
    )
}

/// The values of a variable and their tag, as the file holds them.
///
/// A variable whose type has no loader fails with `UnsupportedType` and the
/// type's name. A numeric variable is the buffer that the format library
/// gives at the dispatched element kind, in the order of the file: a failed
/// read fails with the library's own failure, and a buffer of another kind
/// or length with `TypeMismatch` or `BufferLen`. A text variable is the run
/// of its elements by position: the first element whose read fails fails the
/// whole load with that failure.
pub open spec fn loaded_values(contents: Contents, variable: VariableView) -> Result<
    (ValueView, TypeTag),
    NetCDFErrorView,
> {
    match dispatch_spec(variable.vartype) {
        Err(error) => Err(error),
        Ok((kind, tag)) => if kind != ElementKind::Text {
            match (contents.buffer)(variable.name, kind) {
                Err(cause) => Err(NetCDFErrorView::NetCDF(cause)),
                Ok(value) => if !value.is_array() || value.type_tag() != tag {
                    Err(NetCDFErrorView::NetCDF(BackendErrorView::TypeMismatch))
                } else if value.len() != variable.len {
                    Err(
                        NetCDFErrorView::NetCDF(
                            BackendErrorView::BufferLen {
                                wanted: variable.len,
                                actual: value.len(),
                            },
                        ),
                    )
                } else {
                    Ok((value, tag))
                },
            }
        } else {
            match first_text_failure(contents, variable.name, 0, variable.len) {
                Some(cause) => Err(NetCDFErrorView::NetCDF(cause)),
                None => Ok(
                    (ValueView::Strs(text_elements(contents, variable.name, variable.len)), tag),
                ),
            }
        },
    }
}

/// What loading the values of the variable called `name` returns: `NotFound`
/// where the file has no such variable, and otherwise its values and their
/// tag.
pub open spec fn load_values(contents: Contents, name: Seq<char>) -> Result<
    (ValueView, TypeTag),
    NetCDFErrorView,
> {
    match find_variable(contents.variables, name) {
        None => Err(NetCDFErrorView::NotFound),
        Some(i) => loaded_values(contents, contents.variables[i]),
    }
}

/// What reading the attributes of the variable called `name` returns:
/// `NotFound` where the file has no such variable, and otherwise one entry
/// for each attribute, in the order of the file, with `Absent` for a value
/// that could not be decoded.
pub open spec fn load_attributes(contents: Contents, name: Seq<char>) -> Result<
    Seq<(Seq<char>, ValueView)>,
    NetCDFErrorView,
> {
    match find_variable(contents.variables, name) {
        None => Err(NetCDFErrorView::NotFound),
        Some(_) => Ok(attributes_spec((contents.attributes)(name))),
    }
}

/// What loading everything about the variable called `name` returns: the
/// failure of loading its values where that fails, and otherwise one record
/// of its name, values, tag and attributes.
pub open spec fn load_variable(contents: Contents, name: Seq<char>) -> Result<
    NetCDFVariableView,
    NetCDFErrorView,
> {
    match load_values(contents, name) {
        Err(error) => Err(error),
        Ok((value, tag)) => Ok(
            NetCDFVariableView {
                name,
                value,
                type_tag: tag,
                attributes: attributes_spec((contents.attributes)(name)),
            },
        ),
    }
}

/// The step that follows `step` when its read is answered from `contents`.
pub open spec fn advance(contents: Contents, step: StepView) -> StepView {
    match step {
        StepView::ReadBuffer(read) => load_numeric_spec(
            read,
            (contents.buffer)(read.name, read.kind),
        ),
        StepView::ReadText(read) => load_string_spec(
            read,
            (contents.text)(read.name, read.values.len()),
        ),
        StepView::ReadAttributes(read) => load_attributes_spec(
            read,
            (contents.attributes)(read.name),
        ),
        StepView::Done(_) => step,
    }
}

/// A bound on the number of reads that an operation still asks for.
pub open spec fn reads_left(step: StepView) -> nat {
    match step {
        StepView::ReadBuffer(_) => 2,
        StepView::ReadText(read) => if read.values.len() < read.len {
            (read.len - read.values.len() + 1) as nat
        } else {
            2
        },
        StepView::ReadAttributes(_) => 1,
        StepView::Done(_) => 0,
    }
}

/// What an operation ends with when every read from `step` on is answered
/// from `contents`.
pub open spec fn run(contents: Contents, step: StepView) -> Result<OutcomeView, NetCDFErrorView>
    decreases reads_left(step),
{
    match step {
        StepView::Done(result) => result,
        _ => run(contents, advance(contents, step)),
    }
}

/// Every answer brings an operation nearer its end: whatever a read is
/// answered with, the step that follows has fewer reads left than the step
/// before. An operation on a variable of `len` elements starts with no more
/// than `len + 2` reads left, so whoever drives it is done after that many
/// answers at most.
pub proof fn lemma_reads_left_decrease(
    step: StepView,
    buffer: Result<ValueView, BackendErrorView>,
    text: Result<Seq<char>, BackendErrorView>,
    attributes: Seq<AttributeView>,
)
    ensures
        step matches StepView::ReadBuffer(read) ==> reads_left(load_numeric_spec(read, buffer))
            < reads_left(step),
        step matches StepView::ReadText(read) ==> reads_left(load_string_spec(read, text))
            < reads_left(step),
        step matches StepView::ReadAttributes(read) ==> reads_left(
            load_attributes_spec(read, attributes),
        ) < reads_left(step),
{
}

/// The first step of an operation on a variable of `len` elements has no
/// more than `len + 2` reads left.
pub proof fn lemma_reads_left_at_start(variables: Seq<VariableView>, name: Seq<char>)
    ensures
        find_variable(variables, name) matches Some(i) ==> {
            &&& reads_left(variable_values_spec(variables, name)) <= variables[i].len + 2
            &&& reads_left(variable_load_spec(variables, name)) <= variables[i].len + 2
            &&& reads_left(variable_attributes_spec(variables, name)) == 1
        },
        find_variable(variables, name) is None ==> {
            &&& reads_left(variable_values_spec(variables, name)) == 0
            &&& reads_left(variable_load_spec(variables, name)) == 0
            &&& reads_left(variable_attributes_spec(variables, name)) == 0
        },
{
}

/// What the protocol ends with once the values of the variable `name` are
/// there.
spec fn finished(contents: Contents, then_attributes: bool, name: Seq<char>, value: ValueView, tag: TypeTag)
    -> Result<OutcomeView, NetCDFErrorView> {
    if then_attributes {
        Ok(
            OutcomeView::Variable(
                NetCDFVariableView {
                    name,
                    value,
                    type_tag: tag,
                    attributes: attributes_spec((contents.attributes)(name)),
                },
            ),
        )
    } else {
        Ok(OutcomeView::Values(value, tag))
    }
}

proof fn lemma_run_after_values(
    contents: Contents,
    then_attributes: bool,
    name: Seq<char>,
    value: ValueView,
    tag: TypeTag,
)
    ensures
        run(contents, after_values(then_attributes, name, value, tag)) == finished(
            contents,
            then_attributes,
            name,
            value,
            tag,
        ),
{
    let step = after_values(then_attributes, name, value, tag);
    if then_attributes {
        assert(run(contents, step) == run(contents, advance(contents, step)));
    }
}

/// Reading a text variable on from any position before the last, with the
/// elements before that position read, ends with the first failure from
/// there on, or with all the elements.
proof fn lemma_run_text(contents: Contents, read: TextReadView)
    requires
        read.values.len() < read.len,
        read.values == text_elements(contents, read.name, read.values.len()),
    ensures
        run(contents, StepView::ReadText(read)) == match first_text_failure(
            contents,
            read.name,
            read.values.len(),
            read.len,
        ) {
            Some(cause) => Err(NetCDFErrorView::NetCDF(cause)),
            None => finished(
                contents,
                read.then_attributes,
                read.name,
                ValueView::Strs(text_elements(contents, read.name, read.len)),
                TypeTag::Text,
            ),
        },
    decreases read.len - read.values.len(),
{
    let step = StepView::ReadText(read);
    assert(run(contents, step) == run(contents, advance(contents, step)));
    let at = read.values.len();
    match (contents.text)(read.name, at) {
        Err(_) => {},
        Ok(text) => {
            let values = read.values.push(text);
            assert(values =~= text_elements(contents, read.name, at + 1));
            if values.len() >= read.len {
                assert(first_text_failure(contents, read.name, at + 1, read.len) is None);
                lemma_run_after_values(
                    contents,
                    read.then_attributes,
                    read.name,
                    ValueView::Strs(values),
                    TypeTag::Text,
                );
            } else {
                lemma_run_text(
                    contents,
                    TextReadView {
                        name: read.name,
                        len: read.len,
                        values,
                        then_attributes: read.then_attributes,
                    },
                );
            }
        },
    }
}

/// Loading one variable by the protocol ends with its values as the file
/// holds them, together with its attributes where they were asked for.
proof fn lemma_run_variable(contents: Contents, variable: VariableView, then_attributes: bool)
    ensures
        run(contents, get_variable_values_spec(variable, then_attributes)) == match loaded_values(
            contents,
            variable,
        ) {
            Err(error) => Err(error),
            Ok((value, tag)) => finished(contents, then_attributes, variable.name, value, tag),
        },
{
    let step = get_variable_values_spec(variable, then_attributes);
    match dispatch_spec(variable.vartype) {
        Err(_) => {},
        Ok((kind, tag)) => {
            if kind != ElementKind::Text {
                assert(run(contents, step) == run(contents, advance(contents, step)));
                match (contents.buffer)(variable.name, kind) {
                    Err(_) => {},
                    Ok(value) => {
                        if fits(value, kind, variable.len) {
                            lemma_run_after_values(
                                contents,
                                then_attributes,
                                variable.name,
                                value,
                                tag,
                            );
                        }
                    },
                }
            } else if variable.len == 0 {
                assert(text_elements(contents, variable.name, 0) =~= Seq::empty());
                lemma_run_after_values(
                    contents,
                    then_attributes,
                    variable.name,
                    ValueView::Strs(Seq::empty()),
                    tag,
                );
            } else {
                assert(text_elements(contents, variable.name, 0) =~= Seq::empty());
                lemma_run_text(
                    contents,
                    TextReadView {
                        name: variable.name,
                        len: variable.len,
                        values: Seq::empty(),
                        then_attributes,
                    },
                );
            }
        },
    }
}

/// The protocol returns what the file holds: when every read that an
/// operation asks for is answered from the contents of a file, the
/// operation ends with what `load_values`, `load_attributes` or
/// `load_variable` says of those contents, whatever they are.
pub proof fn lemma_operations_return_contents(contents: Contents, name: Seq<char>)
    ensures
        run(contents, variable_values_spec(contents.variables, name)) == match load_values(
            contents,
            name,
        ) {
            Ok((value, tag)) => Ok(OutcomeView::Values(value, tag)),
            Err(error) => Err(error),
        },
        run(contents, variable_attributes_spec(contents.variables, name)) == match load_attributes(
            contents,
            name,
        ) {
            Ok(entries) => Ok(OutcomeView::Attributes(entries)),
            Err(error) => Err(error),
        },
        run(contents, variable_load_spec(contents.variables, name)) == match load_variable(
            contents,
            name,
        ) {
            Ok(variable) => Ok(OutcomeView::Variable(variable)),
            Err(error) => Err(error),
        },
{
    lemma_find_from(contents.variables, name, 0);
    if let Some(i) = find_variable(contents.variables, name) {
        let variable = contents.variables[i];
        lemma_run_variable(contents, variable, false);
        lemma_run_variable(contents, variable, true);
        let step = variable_attributes_spec(contents.variables, name);
        assert(run(contents, step) == run(contents, advance(contents, step)));
    }
}

/// For every supported element type and whatever the file holds, values
/// that are loaded are an array of the element kind that the dispatcher
/// selects for the variable's type, they carry that kind's tag, and they are
/// as many as the variable declares. A record that is loaded holds such
/// values, so its tag is that of its data, and its data is never `Absent`.
pub proof fn lemma_loaded_value_matches_tag(contents: Contents, name: Seq<char>)
    ensures
        load_values(contents, name) matches Ok((value, tag)) ==> {
            &&& find_variable(contents.variables, name) matches Some(i)
            &&& dispatch_spec(contents.variables[i].vartype) matches Ok((kind, selected))
            &&& tag == selected
            &&& tag == kind.spec_type_tag()
            &&& value.type_tag() == tag
            &&& value.is_array()
            &&& value.len() == contents.variables[i].len
        },
        load_variable(contents, name) matches Ok(variable) ==> {
            &&& load_values(contents, name) == Ok::<(ValueView, TypeTag), NetCDFErrorView>(
                (variable.value, variable.type_tag),
            )
            &&& variable.well_formed()
            &&& variable.name == name
        },
{
    if let Some(i) = find_variable(contents.variables, name) {
        let variable = contents.variables[i];
        if let Ok((kind, tag)) = dispatch_spec(variable.vartype) {
            if kind == ElementKind::Text {
                assert(text_elements(contents, variable.name, variable.len).len() == variable.len);
            }
        }
    }
}

/// A name that the listing of a handle's variables does not hold is never
/// loaded: whatever the file holds, each operation on it returns `NotFound`,
/// and never a failure of the format library. The protocol ends at once for
/// such a name, before any read. The handle must agree with the enumeration,
/// which is to say that the file has not changed since it was opened.
pub proof fn lemma_unlisted_name_not_found<R>(
    contents: Contents,
    file: NetCDFFileView<R>,
    name: Seq<char>,
)
    requires
        file.agrees_with(contents.variables),
        !file_variables_spec(file, contents.variables).contains(name),
    ensures
        load_values(contents, name) == Err::<(ValueView, TypeTag), NetCDFErrorView>(
            NetCDFErrorView::NotFound,
        ),
        load_attributes(contents, name) == Err::<Seq<(Seq<char>, ValueView)>, NetCDFErrorView>(
            NetCDFErrorView::NotFound,
        ),
        load_variable(contents, name) == Err::<NetCDFVariableView, NetCDFErrorView>(
            NetCDFErrorView::NotFound,
        ),
        variable_values_spec(contents.variables, name) == StepView::Done(
            Err(NetCDFErrorView::NotFound),
        ),
        variable_attributes_spec(contents.variables, name) == StepView::Done(
            Err(NetCDFErrorView::NotFound),
        ),
        variable_load_spec(contents.variables, name) == StepView::Done(
            Err(NetCDFErrorView::NotFound),
        ),
{
    lemma_find_variable_listed(contents.variables, name);
}

/// `NotFound` tells of the name and of nothing else: whatever the file
/// holds, an operation returns it exactly when the listing of the handle's
/// variables does not hold the name.
pub proof fn lemma_not_found_iff_unlisted<R>(
    contents: Contents,
    file: NetCDFFileView<R>,
    name: Seq<char>,
)
    requires
        file.agrees_with(contents.variables),
    ensures
        load_values(contents, name) == Err::<(ValueView, TypeTag), NetCDFErrorView>(
            NetCDFErrorView::NotFound,
        ) <==> !file_variables_spec(file, contents.variables).contains(name),
        load_attributes(contents, name) == Err::<Seq<(Seq<char>, ValueView)>, NetCDFErrorView>(
            NetCDFErrorView::NotFound,
        ) <==> !file_variables_spec(file, contents.variables).contains(name),
        load_variable(contents, name) == Err::<NetCDFVariableView, NetCDFErrorView>(
            NetCDFErrorView::NotFound,
        ) <==> !file_variables_spec(file, contents.variables).contains(name),
{
    lemma_find_variable_listed(contents.variables, name);
}

/// Reading the attributes of a variable that exists never fails, whatever
/// the file holds: there is one entry for each attribute of the file, in
/// the same order and under the same name, and an attribute whose value
/// could not be decoded is there with the value `Absent`.
pub proof fn lemma_attributes_never_fail(contents: Contents, name: Seq<char>)
    requires
        find_variable(contents.variables, name) is Some,
    ensures
        load_attributes(contents, name) matches Ok(entries) && {
            let attributes = (contents.attributes)(name);
            &&& entries.len() == attributes.len()
            &&& forall|i: int|
                0 <= i < entries.len() ==> {
                    &&& (#[trigger] entries[i]).0 == attributes[i].name
                    &&& attributes[i].value is Err ==> entries[i].1 == ValueView::Absent
                    &&& attributes[i].value matches Ok(value) ==> entries[i].1 == value
                }
        },
{
}

/// Whether two files answer alike every read that loading `variable` can
/// ask for: the buffer at each element kind, each text element that the
/// variable declares, and the attributes.
pub open spec fn same_answers(first: Contents, second: Contents, variable: VariableView) -> bool {
    &&& forall|kind: ElementKind|
        #[trigger] (first.buffer)(variable.name, kind) == (second.buffer)(variable.name, kind)
    &&& forall|i: nat|
        i < variable.len ==> #[trigger] (first.text)(variable.name, i) == (second.text)(
            variable.name,
            i,
        )
    &&& (first.attributes)(variable.name) == (second.attributes)(variable.name)
}

proof fn lemma_same_text(first: Contents, second: Contents, variable: VariableView, from: nat)
    requires
        same_answers(first, second, variable),
    ensures
        first_text_failure(first, variable.name, from, variable.len) == first_text_failure(
            second,
            variable.name,
            from,
            variable.len,
        ),
    decreases variable.len - from,
{
    if from < variable.len {
        assert((first.text)(variable.name, from) == (second.text)(variable.name, from));
        lemma_same_text(first, second, variable, from + 1);
    }
}

/// Loading is repeatable: two loads of the same name return the same
/// result, be it the record or the failure, when the file has the same
/// variables both times and answers alike the reads of the variable that is
/// loaded. What the file holds elsewhere does not enter into the result.
pub proof fn lemma_load_repeatable(first: Contents, second: Contents, name: Seq<char>)
    requires
        first.variables == second.variables,
        find_variable(first.variables, name) matches Some(i) ==> same_answers(
            first,
            second,
            first.variables[i],
        ),
    ensures
        load_values(first, name) == load_values(second, name),
        load_attributes(first, name) == load_attributes(second, name),
        load_variable(first, name) == load_variable(second, name),
{
    lemma_find_from(first.variables, name, 0);
    if let Some(i) = find_variable(first.variables, name) {
        let variable = first.variables[i];
        lemma_same_text(first, second, variable, 0);
        let one = text_elements(first, variable.name, variable.len);
        let other = text_elements(second, variable.name, variable.len);
        assert(one =~= other) by {
            assert forall|k: int| 0 <= k < variable.len implies one[k] == other[k] by {
                let at = k as nat;
                assert((first.text)(variable.name, at) == (second.text)(variable.name, at));
            }
        }
    }
}

} // verus!
