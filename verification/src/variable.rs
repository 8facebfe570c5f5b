//! What is known of a variable before it is read, and what is returned once
//! it has been loaded in full.

use vstd::prelude::*;
use vstd::std_specs::cmp::PartialEqSpecImpl;
use crate::attributes::same_entries;
use crate::dispatch::{VariableType, VariableTypeView};
use crate::value::{TypeTag, Value, ValueView};

verus! {

/// A variable as the file declares it: its name, its element type and the
/// number of elements it holds. A descriptor is fetched for each operation
/// and holds none of the variable's data.
#[derive(Clone, Debug, PartialEq, Eq)]
pub struct Variable {
    pub name: String,
    pub vartype: VariableType,
    pub len: usize,
}

/// The mathematical content of a [`Variable`].
pub struct VariableView {
    pub name: Seq<char>,
    pub vartype: VariableTypeView,
    pub len: nat,
}

impl View for Variable {
    type V = VariableView;

    open spec fn view(&self) -> VariableView {
        VariableView { name: self.name@, vartype: self.vartype@, len: self.len as nat }
    }
}

impl DeepView for Variable {
    type V = VariableView;

    open spec fn deep_view(&self) -> VariableView {
        self@
    }
}

impl Variable {
    /// Describes a variable by its name, element type and element count.
    pub fn new(name: String, vartype: VariableType, len: usize) -> (variable: Variable)
        ensures
            variable == (Variable { name, vartype, len }),
    {
        Variable { name, vartype, len }
    }
}

/// Everything about one variable, detached from the file it was read from:
/// its name, its data, the tag of its element kind and its attributes in the
/// order of the file.
#[derive(Clone, Debug)]
pub struct NetCDFVariable {
    pub name: String,
    pub value: Value,
    pub type_tag: TypeTag,
    pub attributes: Vec<(String, Value)>,
}

/// The mathematical content of a [`NetCDFVariable`].
pub struct NetCDFVariableView {
    pub name: Seq<char>,
    pub value: ValueView,
    pub type_tag: TypeTag,
    pub attributes: Seq<(Seq<char>, ValueView)>,
}

impl NetCDFVariableView {
    /// The tag is that of the data's element kind, and the data is present.
    pub open spec fn well_formed(self) -> bool {
        &&& self.value != ValueView::Absent
        &&& self.value.type_tag() == self.type_tag
    }
}

impl View for NetCDFVariable {
    type V = NetCDFVariableView;

    open spec fn view(&self) -> NetCDFVariableView {
        NetCDFVariableView {
            name: self.name@,
            value: self.value@,
            type_tag: self.type_tag,
            attributes: self.attributes.deep_view(),
        }
    }
}

impl DeepView for NetCDFVariable {
    type V = NetCDFVariableView;

    open spec fn deep_view(&self) -> NetCDFVariableView {
        self@
    }
}

impl PartialEqSpecImpl for NetCDFVariable {
    open spec fn obeys_eq_spec() -> bool {
        true
    }

    open spec fn eq_spec(&self, other: &NetCDFVariable) -> bool {
        self@ == other@
    }
}

impl PartialEq for NetCDFVariable {
    /// Equality is structural: the same name, the same data under the same
    /// tag, and the same attributes in the same order.
    fn eq(&self, other: &NetCDFVariable) -> (equal: bool) {
        self.name == other.name && self.value == other.value && self.type_tag == other.type_tag
            && same_entries(&self.attributes, &other.attributes)
    }
}

impl Eq for NetCDFVariable {

}

impl NetCDFVariable {
    /// Puts the parts of a loaded variable together.
    pub fn new(
        name: String,
        value: Value,
        type_tag: TypeTag,
        attributes: Vec<(String, Value)>,
    ) -> (variable: NetCDFVariable)
        ensures
            variable == (NetCDFVariable { name, value, type_tag, attributes }),
    {
        NetCDFVariable { name, value, type_tag, attributes }
    }
}

} // verus!
