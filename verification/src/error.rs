//! The failures that an operation can report.

use vstd::prelude::*;
use vstd::std_specs::cmp::PartialEqSpecImpl;
use vstd::std_specs::convert::FromSpecImpl;

verus! {

/// A failure reported by the format library, carried as the library gave it.
#[derive(Clone, Debug)]
pub enum BackendError {
    /// A status code of the format library itself.
    Netcdf(i32),
    /// What was read does not have the element kind that was asked for.
    TypeMismatch,
    /// What was read does not have the number of elements that was asked for.
    BufferLen { wanted: usize, actual: usize },
    /// Any other failure, in the library's own words.
    Other(String),
}

/// The mathematical content of a [`BackendError`].
pub enum BackendErrorView {
    Netcdf(i32),
    TypeMismatch,
    BufferLen { wanted: nat, actual: nat },
    Other(Seq<char>),
}

impl View for BackendError {
    type V = BackendErrorView;

    open spec fn view(&self) -> BackendErrorView {
        match self {
            BackendError::Netcdf(code) => BackendErrorView::Netcdf(*code),
            BackendError::TypeMismatch => BackendErrorView::TypeMismatch,
            BackendError::BufferLen { wanted, actual } => BackendErrorView::BufferLen {
                wanted: *wanted as nat,
                actual: *actual as nat,
            },
            BackendError::Other(text) => BackendErrorView::Other(text@),
        }
    }
}

impl DeepView for BackendError {
    type V = BackendErrorView;

    open spec fn deep_view(&self) -> BackendErrorView {
        self@
    }
}

impl PartialEqSpecImpl for BackendError {
    open spec fn obeys_eq_spec() -> bool {
        true
    }

    open spec fn eq_spec(&self, other: &BackendError) -> bool {
        self@ == other@
    }
}

impl PartialEq for BackendError {
    /// Equality is structural: the same kind of failure with the same code,
    /// lengths or text.
    fn eq(&self, other: &BackendError) -> (equal: bool) {
        match (self, other) {
            (BackendError::Netcdf(a), BackendError::Netcdf(b)) => *a == *b,
            (BackendError::TypeMismatch, BackendError::TypeMismatch) => true,
            (
                BackendError::BufferLen { wanted: a, actual: c },
                BackendError::BufferLen { wanted: b, actual: d },
            ) => *a == *b && *c == *d,
            (BackendError::Other(a), BackendError::Other(b)) => *a == *b,
            _ => false,
        }
    }
}

impl Eq for BackendError {

}

/// Why an operation on a file failed.
#[derive(Clone, Debug)]
pub enum NetCDFError {
    /// The format library reported a failure.
    NetCDF(BackendError),
    /// The file has no variable of the requested name.
    NotFound,
    /// The variable's element type, named here, has no loader.
    UnsupportedType(String),
}

/// The mathematical content of a [`NetCDFError`].
pub enum NetCDFErrorView {
    NetCDF(BackendErrorView),
    NotFound,
    UnsupportedType(Seq<char>),
}

impl View for NetCDFError {
    type V = NetCDFErrorView;

    open spec fn view(&self) -> NetCDFErrorView {
        match self {
            NetCDFError::NetCDF(error) => NetCDFErrorView::NetCDF(error@),
            NetCDFError::NotFound => NetCDFErrorView::NotFound,
            NetCDFError::UnsupportedType(name) => NetCDFErrorView::UnsupportedType(name@),
        }
    }
}

impl DeepView for NetCDFError {
    type V = NetCDFErrorView;

    open spec fn deep_view(&self) -> NetCDFErrorView {
        self@
    }
}

impl PartialEqSpecImpl for NetCDFError {
    open spec fn obeys_eq_spec() -> bool {
        true
    }

    open spec fn eq_spec(&self, other: &NetCDFError) -> bool {
        self@ == other@
    }
}

impl PartialEq for NetCDFError {
    /// Equality is structural: the same kind of failure, with the same
    /// cause or the same type name.
    fn eq(&self, other: &NetCDFError) -> (equal: bool) {
        match (self, other) {
            (NetCDFError::NetCDF(a), NetCDFError::NetCDF(b)) => *a == *b,
            (NetCDFError::NotFound, NetCDFError::NotFound) => true,
            (NetCDFError::UnsupportedType(a), NetCDFError::UnsupportedType(b)) => *a == *b,
            _ => false,
        }
    }
}

impl Eq for NetCDFError {

}

impl NetCDFErrorView {
    /// The one-line description of the failure.
    pub open spec fn message(self) -> Seq<char> {
        match self {
            NetCDFErrorView::NetCDF(_) => "NetCDF Error"@,
            NetCDFErrorView::NotFound => "not_found"@,
            NetCDFErrorView::UnsupportedType(_) => "unsupported_type"@,
        }
    }
}

impl NetCDFError {
    /// The one-line description of the failure.
    pub fn message(&self) -> (text: String)
        ensures
            text@ == self@.message(),
    {
        match self {
            NetCDFError::NetCDF(_) => "NetCDF Error".to_owned(),
            NetCDFError::NotFound => "not_found".to_owned(),
            NetCDFError::UnsupportedType(_) => "unsupported_type".to_owned(),
        }
    }
}

impl FromSpecImpl<BackendError> for NetCDFError {
    open spec fn obeys_from_spec() -> bool {
        true
    }

    open spec fn from_spec(error: BackendError) -> NetCDFError {
        NetCDFError::NetCDF(error)
    }
}

impl From<BackendError> for NetCDFError {
    /// Surfaces a failure of the format library unchanged.
    fn from(error: BackendError) -> (wrapped: NetCDFError)
        ensures
            wrapped == NetCDFError::NetCDF(error),
    {
        NetCDFError::NetCDF(error)
    }
}

/// The mathematical content of what a read gave: that of the value where
/// the read succeeded, that of the failure where it did not.
pub open spec fn reply_view<T: DeepView>(reply: Result<T, BackendError>) -> Result<
    T::V,
    BackendErrorView,
> {
    match reply {
        Ok(value) => Ok(value.deep_view()),
        Err(cause) => Err(cause@),
    }
}

} // verus!
