//! The handle of an open file, the listing of a file's variables, and the
//! lookup of a variable by name.

use vstd::prelude::*;
use crate::error::{BackendError, NetCDFError, NetCDFErrorView};
use crate::text::same_text;
use crate::variable::{Variable, VariableView};

verus! {

/// The handle of an open file. It owns the native resource of the format
/// library, which it carries without looking into it, and holds the path
/// that the file was opened from and, where the file was opened with its
/// variables, the list of their names as it stood at that moment.
#[derive(Debug, PartialEq, Eq)]
pub struct NetCDFFile<R> {
    pub resource: R,
    pub filename: String,
    pub variables: Option<Vec<String>>,
}

/// The mathematical content of a [`NetCDFFile`].
pub struct NetCDFFileView<R> {
    pub resource: R,
    pub filename: Seq<char>,
    pub variables: Option<Seq<Seq<char>>>,
}

impl<R> NetCDFFileView<R> {
    /// Whether the handle agrees with an enumeration of the file's variables:
    /// a list of names that was taken at opening is the list of their names.
    /// This is what it means for the file not to have changed under the
    /// handle.
    pub open spec fn agrees_with(self, variables: Seq<VariableView>) -> bool {
        self.variables matches Some(names) ==> names == names_of(variables)
    }
}

impl<R> View for NetCDFFile<R> {
    type V = NetCDFFileView<R>;

    open spec fn view(&self) -> NetCDFFileView<R> {
        NetCDFFileView {
            resource: self.resource,
            filename: self.filename@,
            variables: self.variables.deep_view(),
        }
    }
}

impl<R> NetCDFFile<R> {
    /// A handle that owns `file`, opened from `filename`, with the names of
    /// its variables where they were enumerated at opening.
    pub fn new(file: R, filename: &str, variables: Option<Vec<String>>) -> (handle: NetCDFFile<R>)
        ensures
            handle.resource == file,
            handle.filename@ == filename@,
            handle.variables == variables,
    {
        NetCDFFile { resource: file, filename: filename.to_owned(), variables }
    }
}

/// The names of the variables of an enumeration, in its order.
pub open spec fn names_of(variables: Seq<VariableView>) -> Seq<Seq<char>> {
    Seq::new(variables.len(), |i: int| variables[i].name)
}

/// The position of the first variable called `name` at or after `start`.
pub open spec fn find_from(variables: Seq<VariableView>, name: Seq<char>, start: int) -> Option<
    int,
>
    decreases variables.len() - start,
{
    if start < 0 || start >= variables.len() {
        None
    } else if variables[start].name == name {
        Some(start)
    } else {
        find_from(variables, name, start + 1)
    }
}

/// The position of the first variable called `name`, if there is one.
pub open spec fn find_variable(variables: Seq<VariableView>, name: Seq<char>) -> Option<int> {
    find_from(variables, name, 0)
}

/// A search from `start` finds the first variable of that name at or after
/// `start`, and finds none exactly when no variable from `start` on has it.
pub proof fn lemma_find_from(variables: Seq<VariableView>, name: Seq<char>, start: int)
    requires
        0 <= start,
    ensures
        match find_from(variables, name, start) {
            Some(i) => {
                &&& start <= i < variables.len()
                &&& variables[i].name == name
                &&& forall|j: int| start <= j < i ==> variables[j].name != name
            },
            None => forall|j: int| start <= j < variables.len() ==> variables[j].name != name,
        },
    decreases variables.len() - start,
{
    if start < variables.len() && variables[start].name != name {
        lemma_find_from(variables, name, start + 1);
    }
}

/// A variable is found exactly when the list of names holds its name.
pub proof fn lemma_find_variable_listed(variables: Seq<VariableView>, name: Seq<char>)
    ensures
        find_variable(variables, name) is Some <==> names_of(variables).contains(name),
{
    lemma_find_from(variables, name, 0);
    if let Some(i) = find_variable(variables, name) {
        assert(names_of(variables)[i] == name);
    }
    if names_of(variables).contains(name) {
        let j = choose|j: int| 0 <= j < names_of(variables).len() && names_of(variables)[j] == name;
        assert(variables[j].name == name);
    }
}

/// Lists the names of the variables of an enumeration, in its order.
pub fn list_variables(variables: &Vec<Variable>) -> (names: Vec<String>)
    ensures
        names.deep_view() == names_of(variables.deep_view()),
{
    let mut names: Vec<String> = Vec::new();
    let mut i: usize = 0;
    while i < variables.len()
        invariant
            i <= variables.len(),
            names.len() == i,
            forall|j: int| 0 <= j < i ==> names@[j]@ == variables@[j].name@,
        decreases variables.len() - i,
    {
        names.push(variables[i].name.clone());
        i = i + 1;
    }
    proof {
        assert(names.deep_view() =~= names_of(variables.deep_view()));
    }
    names
}

/// Looks a variable up by name in an enumeration of the file's variables.
/// This is the only path to a variable: `NotFound` is returned exactly when
/// the enumeration holds no variable of that name.
pub fn get_variable<'a>(variables: &'a Vec<Variable>, name: &str) -> (found: Result<
    &'a Variable,
    NetCDFError,
>)
    ensures
        match found {
            Ok(variable) => find_variable(variables.deep_view(), name@) matches Some(i) && 0 <= i
                < variables.len() && *variable == variables@[i],
            Err(error) => find_variable(variables.deep_view(), name@) is None && error@
                == NetCDFErrorView::NotFound,
        },
{
    let mut i: usize = 0;
    while i < variables.len()
        invariant
            i <= variables.len(),
            find_variable(variables.deep_view(), name@) == find_from(
                variables.deep_view(),
                name@,
                i as int,
            ),
        decreases variables.len() - i,
    {
        if same_text(variables[i].name.as_str(), name) {
            return Ok(&variables[i]);
        }
        i = i + 1;
    }
    Err(NetCDFError::NotFound)
}

/// The names that listing a handle's variables gives: the list taken at
/// opening where there is one, word for word, and otherwise the names of a
/// fresh enumeration.
pub open spec fn file_variables_spec<R>(file: NetCDFFileView<R>, enumerated: Seq<VariableView>)
    -> Seq<Seq<char>> {
    match file.variables {
        Some(names) => names,
        None => names_of(enumerated),
    }
}

/// Makes the handle for a file that the format library was asked to open.
/// A failure to open is returned as it is. On success the handle owns the
/// resource that was opened and holds no list of variables: they are
/// enumerated when they are asked for.
pub fn file_open<R>(filename: &str, opened: Result<R, BackendError>) -> (file: Result<
    NetCDFFile<R>,
    NetCDFError,
>)
    ensures
        match opened {
            Ok(resource) => file matches Ok(handle) && handle@ == (NetCDFFileView {
                resource,
                filename: filename@,
                variables: None,
            }),
            Err(cause) => file matches Err(error) && error@ == NetCDFErrorView::NetCDF(cause@),
        },
{
    match opened {
        Ok(resource) => Ok(NetCDFFile::new(resource, filename, None)),
        Err(cause) => Err(NetCDFError::from(cause)),
    }
}

/// Makes the handle for a file that the format library was asked to open
/// and whose variables were enumerated at once. A failure is returned as it
/// is. On success the handle owns the resource that was opened and keeps
/// the names of the variables in their order.
pub fn file_open_with_variables<R>(
    filename: &str,
    opened: Result<(R, Vec<Variable>), BackendError>,
) -> (file: Result<NetCDFFile<R>, NetCDFError>)
    ensures
        match opened {
            Ok((resource, variables)) => file matches Ok(handle) && handle@ == (NetCDFFileView {
                resource,
                filename: filename@,
                variables: Some(names_of(variables.deep_view())),
            }),
            Err(cause) => file matches Err(error) && error@ == NetCDFErrorView::NetCDF(cause@),
        },
{
    match opened {
        Ok((resource, variables)) => {
            let names = list_variables(&variables);
            Ok(NetCDFFile::new(resource, filename, Some(names)))
        },
        Err(cause) => Err(NetCDFError::from(cause)),
    }
}

/// Lists the names of a file's variables. A handle that was opened with its
/// variables answers from its own list; any other handle answers from the
/// fresh enumeration that is handed in.
pub fn file_variables<R>(file: &NetCDFFile<R>, enumerated: &Vec<Variable>) -> (names: Vec<String>)
    ensures
        names.deep_view() == file_variables_spec(file@, enumerated.deep_view()),
{
    match &file.variables {
        Some(cached) => {
            let mut names: Vec<String> = Vec::new();
            let mut i: usize = 0;
            while i < cached.len()
                invariant
                    i <= cached.len(),
                    names.len() == i,
                    forall|j: int| 0 <= j < i ==> names@[j]@ == cached@[j]@,
                decreases cached.len() - i,
            {
                names.push(cached[i].clone());
                i = i + 1;
            }
            proof {
                assert(names.deep_view() =~= cached.deep_view());
            }
            names
        },
        None => list_variables(enumerated),
    }
}

} // verus!
