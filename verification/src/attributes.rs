//! The reading of attributes: each entry of the file becomes a pair of a
//! name and a value, and an entry whose value cannot be decoded is kept with
//! the value `Absent`.

use vstd::prelude::*;
use crate::error::{BackendError, BackendErrorView};
use crate::value::{AttrValue, Value, ValueView};

verus! {

/// One attribute as the format library enumerates it: its name, and its
/// value or the failure to decode it.
#[derive(Debug, PartialEq, Eq)]
pub struct Attribute {
    pub name: String,
    pub value: Result<AttrValue, BackendError>,
}

/// The mathematical content of an [`Attribute`].
pub struct AttributeView {
    pub name: Seq<char>,
    pub value: Result<ValueView, BackendErrorView>,
}

impl View for Attribute {
    type V = AttributeView;

    open spec fn view(&self) -> AttributeView {
        AttributeView {
            name: self.name@,
            value: match self.value {
                Ok(value) => Ok(value@),
                Err(error) => Err(error@),
            },
        }
    }
}

impl DeepView for Attribute {
    type V = AttributeView;

    open spec fn deep_view(&self) -> AttributeView {
        self@
    }
}

impl Attribute {
    /// An attribute of the given name with what reading its value gave.
    pub fn new(name: String, value: Result<AttrValue, BackendError>) -> (attribute: Attribute)
        ensures
            attribute == (Attribute { name, value }),
    {
        Attribute { name, value }
    }
}

/// The entry that an attribute becomes: its own name, with its value where
/// that was decoded and `Absent` where it was not.
pub open spec fn parse_attribute_spec(attribute: AttributeView) -> (Seq<char>, ValueView) {
    (
        attribute.name,
        match attribute.value {
            Ok(value) => value,
            Err(_) => ValueView::Absent,
        },
    )
}

/// The entries that a run of attributes becomes: one for each, in the same
/// order, with nothing merged and nothing left out.
pub open spec fn attributes_spec(attributes: Seq<AttributeView>) -> Seq<(Seq<char>, ValueView)> {
    Seq::new(attributes.len(), |i: int| parse_attribute_spec(attributes[i]))
}

/// Converts one attribute. This never fails: a value that could not be
/// decoded is replaced by `Absent`.
pub fn parse_variable_attribute(attribute: Attribute) -> (entry: (String, Value))
    ensures
        entry.deep_view() == parse_attribute_spec(attribute@),
{
    let Attribute { name, value } = attribute;
    let value = match value {
        Err(_) => Value::Absent,
        Ok(decoded) => Value::from(decoded),
    };
    (name, value)
}

/// Converts the attributes of a variable or of a file, keeping their order.
pub fn get_variable_attributes(attributes: Vec<Attribute>) -> (entries: Vec<(String, Value)>)
    ensures
        entries.deep_view() == attributes_spec(attributes.deep_view()),
{
    let ghost all = attributes.deep_view();
    let mut entries: Vec<(String, Value)> = Vec::new();
    for attribute in iter: attributes
        invariant
            all == iter.seq().map_values(|a: Attribute| a@),
            entries.deep_view() == attributes_spec(all.take(iter.index() as int)),
    {
        let ghost done = entries.deep_view();
        let entry = parse_variable_attribute(attribute);
        entries.push(entry);
        proof {
            let next = iter.index() as int;
            assert(all[next] == attribute@);
            assert(entries.deep_view() =~= done.push(entry.deep_view()));
            assert(done.push(entry.deep_view()) =~= attributes_spec(all.take(next + 1)));
        }
    }
    entries
}

/// Whether two runs of entries hold the same names with the same values in
/// the same order.
pub fn same_entries(a: &Vec<(String, Value)>, b: &Vec<(String, Value)>) -> (same: bool)
    ensures
        same == (a.deep_view() == b.deep_view()),
{
    if a.len() != b.len() {
        proof {
            assert(a.deep_view().len() != b.deep_view().len());
        }
        return false;
    }
    let mut i: usize = 0;
    while i < a.len()
        invariant
            i <= a.len(),
            a.len() == b.len(),
            forall|j: int| 0 <= j < i ==> a@[j].deep_view() == b@[j].deep_view(),
        decreases a.len() - i,
    {
        if a[i].0 != b[i].0 || a[i].1 != b[i].1 {
            proof {
                assert(a.deep_view()[i as int] != b.deep_view()[i as int]);
            }
            return false;
        }
        i = i + 1;
    }
    proof {
        assert(a.deep_view() =~= b.deep_view());
    }
    true
}

} // verus!
