//! The mapping from a variable's on-disk element type to the loader that
//! reads it and the tag that is reported for it.

use vstd::prelude::*;
use crate::error::{NetCDFError, NetCDFErrorView};
use crate::text::same_text;
use crate::value::TypeTag;

verus! {

/// The element type that a variable is declared with in the file.
#[derive(Clone, Debug, PartialEq, Eq)]
pub enum VariableType {
    /// Signed 1-byte integer.
    Byte,
    /// ISO/ASCII character.
    Char,
    /// Unsigned 1-byte integer.
    Ubyte,
    /// Signed 2-byte integer.
    Short,
    /// Unsigned 2-byte integer.
    Ushort,
    /// Signed 4-byte integer.
    Int,
    /// Unsigned 4-byte integer.
    Uint,
    /// Signed 8-byte integer.
    Int64,
    /// Unsigned 8-byte integer.
    Uint64,
    /// Single precision floating-point number.
    Float,
    /// Double precision floating-point number.
    Double,
    /// Text of variable length.
    Text,
    /// Any other type (opaque, variable-length, enumeration, compound), by
    /// the name that the file gives it.
    Other(String),
}

/// The mathematical content of a [`VariableType`].
pub enum VariableTypeView {
    Byte,
    Char,
    Ubyte,
    Short,
    Ushort,
    Int,
    Uint,
    Int64,
    Uint64,
    Float,
    Double,
    Text,
    Other(Seq<char>),
}

impl View for VariableType {
    type V = VariableTypeView;

    open spec fn view(&self) -> VariableTypeView {
        match self {
            VariableType::Byte => VariableTypeView::Byte,
            VariableType::Char => VariableTypeView::Char,
            VariableType::Ubyte => VariableTypeView::Ubyte,
            VariableType::Short => VariableTypeView::Short,
            VariableType::Ushort => VariableTypeView::Ushort,
            VariableType::Int => VariableTypeView::Int,
            VariableType::Uint => VariableTypeView::Uint,
            VariableType::Int64 => VariableTypeView::Int64,
            VariableType::Uint64 => VariableTypeView::Uint64,
            VariableType::Float => VariableTypeView::Float,
            VariableType::Double => VariableTypeView::Double,
            VariableType::Text => VariableTypeView::Text,
            VariableType::Other(name) => VariableTypeView::Other(name@),
        }
    }
}

impl DeepView for VariableType {
    type V = VariableTypeView;

    open spec fn deep_view(&self) -> VariableTypeView {
        self@
    }
}

/// The loader that reads a variable: which element width and signedness a
/// bulk read asks the format library for, or the reading of text element by
/// element.
#[derive(Clone, Copy, Debug, PartialEq, Eq, Structural)]
pub enum ElementKind {
    U8,
    I8,
    U16,
    I16,
    U32,
    I32,
    U64,
    I64,
    F32,
    F64,
    Text,
}

impl ElementKind {
    /// The tag reported for values that this loader reads.
    pub open spec fn spec_type_tag(self) -> TypeTag {
        match self {
            ElementKind::U8 => TypeTag::U8,
            ElementKind::I8 => TypeTag::I8,
            ElementKind::U16 => TypeTag::U16,
            ElementKind::I16 => TypeTag::I16,
            ElementKind::U32 => TypeTag::U32,
            ElementKind::I32 => TypeTag::I32,
            ElementKind::U64 => TypeTag::U64,
            ElementKind::I64 => TypeTag::I64,
            ElementKind::F32 => TypeTag::F32,
            ElementKind::F64 => TypeTag::F64,
            ElementKind::Text => TypeTag::Text,
        }
    }

    /// The name of the element type that this loader reads.
    pub open spec fn spec_name(self) -> Seq<char> {
        match self {
            ElementKind::U8 => "u8"@,
            ElementKind::I8 => "i8"@,
            ElementKind::U16 => "u16"@,
            ElementKind::I16 => "i16"@,
            ElementKind::U32 => "u32"@,
            ElementKind::I32 => "i32"@,
            ElementKind::U64 => "u64"@,
            ElementKind::I64 => "i64"@,
            ElementKind::F32 => "f32"@,
            ElementKind::F64 => "f64"@,
            ElementKind::Text => "string"@,
        }
    }

    /// Whether this loader reads a whole buffer of numbers at once.
    pub open spec fn spec_is_numeric(self) -> bool {
        self != ElementKind::Text
    }

    /// The tag reported for values that this loader reads.
    #[verifier::when_used_as_spec(spec_type_tag)]
    pub fn type_tag(self) -> (tag: TypeTag)
        ensures
            tag == self.spec_type_tag(),
    {
        match self {
            ElementKind::U8 => TypeTag::U8,
            ElementKind::I8 => TypeTag::I8,
            ElementKind::U16 => TypeTag::U16,
            ElementKind::I16 => TypeTag::I16,
            ElementKind::U32 => TypeTag::U32,
            ElementKind::I32 => TypeTag::I32,
            ElementKind::U64 => TypeTag::U64,
            ElementKind::I64 => TypeTag::I64,
            ElementKind::F32 => TypeTag::F32,
            ElementKind::F64 => TypeTag::F64,
            ElementKind::Text => TypeTag::Text,
        }
    }

    /// The name of the element type that this loader reads.
    pub fn name(self) -> (name: &'static str)
        ensures
            name@ == self.spec_name(),
    {
        match self {
            ElementKind::U8 => "u8",
            ElementKind::I8 => "i8",
            ElementKind::U16 => "u16",
            ElementKind::I16 => "i16",
            ElementKind::U32 => "u32",
            ElementKind::I32 => "i32",
            ElementKind::U64 => "u64",
            ElementKind::I64 => "i64",
            ElementKind::F32 => "f32",
            ElementKind::F64 => "f64",
            ElementKind::Text => "string",
        }
    }

    /// Whether this loader reads a whole buffer of numbers at once.
    #[verifier::when_used_as_spec(spec_is_numeric)]
    pub fn is_numeric(self) -> (numeric: bool)
        ensures
            numeric == self.spec_is_numeric(),
    {
        match self {
            ElementKind::Text => false,
            _ => true,
        }
    }
}

/// The tag that a type name spells: one of the ten numeric tags for its own
/// name, and `NonNumeric` for every other text.
pub open spec fn type_atom(spelling: Seq<char>) -> TypeTag {
    if spelling == "i8"@ {
        TypeTag::I8
    } else if spelling == "i16"@ {
        TypeTag::I16
    } else if spelling == "i32"@ {
        TypeTag::I32
    } else if spelling == "i64"@ {
        TypeTag::I64
    } else if spelling == "u8"@ {
        TypeTag::U8
    } else if spelling == "u16"@ {
        TypeTag::U16
    } else if spelling == "u32"@ {
        TypeTag::U32
    } else if spelling == "u64"@ {
        TypeTag::U64
    } else if spelling == "f32"@ {
        TypeTag::F32
    } else if spelling == "f64"@ {
        TypeTag::F64
    } else {
        TypeTag::NonNumeric
    }
}

/// The tag that a type name spells. Total: a name that spells no numeric
/// tag gives `NonNumeric`.
pub fn as_type_atom(spelling: &str) -> (tag: TypeTag)
    ensures
        tag == type_atom(spelling@),
{
    if same_text(spelling, "i8") {
        TypeTag::I8
    } else if same_text(spelling, "i16") {
        TypeTag::I16
    } else if same_text(spelling, "i32") {
        TypeTag::I32
    } else if same_text(spelling, "i64") {
        TypeTag::I64
    } else if same_text(spelling, "u8") {
        TypeTag::U8
    } else if same_text(spelling, "u16") {
        TypeTag::U16
    } else if same_text(spelling, "u32") {
        TypeTag::U32
    } else if same_text(spelling, "u64") {
        TypeTag::U64
    } else if same_text(spelling, "f32") {
        TypeTag::F32
    } else if same_text(spelling, "f64") {
        TypeTag::F64
    } else {
        TypeTag::NonNumeric
    }
}

/// The name of each numeric loader spells that loader's own tag, and the
/// name of the text loader spells no numeric tag.
pub proof fn lemma_type_atom_of_kind(kind: ElementKind)
    ensures
        kind.spec_is_numeric() ==> type_atom(kind.spec_name()) == kind.spec_type_tag(),
        !kind.spec_is_numeric() ==> type_atom(kind.spec_name()) == TypeTag::NonNumeric,
{
    reveal_strlit("i8");
    reveal_strlit("i16");
    reveal_strlit("i32");
    reveal_strlit("i64");
    reveal_strlit("u8");
    reveal_strlit("u16");
    reveal_strlit("u32");
    reveal_strlit("u64");
    reveal_strlit("f32");
    reveal_strlit("f64");
    reveal_strlit("string");
    assert("i8"@.len() == 2 && "i8"@[0] == 'i' && "i8"@[1] == '8');
    assert("i16"@.len() == 3 && "i16"@[0] == 'i' && "i16"@[1] == '1' && "i16"@[2] == '6');
    assert("i32"@.len() == 3 && "i32"@[0] == 'i' && "i32"@[1] == '3' && "i32"@[2] == '2');
    assert("i64"@.len() == 3 && "i64"@[0] == 'i' && "i64"@[1] == '6' && "i64"@[2] == '4');
    assert("u8"@.len() == 2 && "u8"@[0] == 'u' && "u8"@[1] == '8');
    assert("u16"@.len() == 3 && "u16"@[0] == 'u' && "u16"@[1] == '1' && "u16"@[2] == '6');
    assert("u32"@.len() == 3 && "u32"@[0] == 'u' && "u32"@[1] == '3' && "u32"@[2] == '2');
    assert("u64"@.len() == 3 && "u64"@[0] == 'u' && "u64"@[1] == '6' && "u64"@[2] == '4');
    assert("f32"@.len() == 3 && "f32"@[0] == 'f' && "f32"@[1] == '3' && "f32"@[2] == '2');
    assert("f64"@.len() == 3 && "f64"@[0] == 'f' && "f64"@[1] == '6' && "f64"@[2] == '4');
    assert("string"@.len() == 6 && "string"@[0] == 's' && "string"@[1] == 't' && "string"@[2] == 'r');
}

/// The loader and the tag for a declared element type. `Char` is read as
/// signed 8-bit, `Byte` and `Ubyte` as unsigned 8-bit, every other numeric
/// type at its own width and signedness, and text by the text loader; any
/// other type is unsupported, and the failure names it.
pub open spec fn dispatch_spec(vartype: VariableTypeView) -> Result<
    (ElementKind, TypeTag),
    NetCDFErrorView,
> {
    match vartype {
        VariableTypeView::Byte => Ok((ElementKind::U8, TypeTag::U8)),
        VariableTypeView::Char => Ok((ElementKind::I8, TypeTag::I8)),
        VariableTypeView::Ubyte => Ok((ElementKind::U8, TypeTag::U8)),
        VariableTypeView::Short => Ok((ElementKind::I16, TypeTag::I16)),
        VariableTypeView::Ushort => Ok((ElementKind::U16, TypeTag::U16)),
        VariableTypeView::Int => Ok((ElementKind::I32, TypeTag::I32)),
        VariableTypeView::Uint => Ok((ElementKind::U32, TypeTag::U32)),
        VariableTypeView::Int64 => Ok((ElementKind::I64, TypeTag::I64)),
        VariableTypeView::Uint64 => Ok((ElementKind::U64, TypeTag::U64)),
        VariableTypeView::Float => Ok((ElementKind::F32, TypeTag::F32)),
        VariableTypeView::Double => Ok((ElementKind::F64, TypeTag::F64)),
        VariableTypeView::Text => Ok((ElementKind::Text, TypeTag::Text)),
        VariableTypeView::Other(name) => Err(NetCDFErrorView::UnsupportedType(name)),
    }
}

/// Selects the loader for a declared element type, and the tag to report.
pub fn dispatch(vartype: &VariableType) -> (selected: Result<(ElementKind, TypeTag), NetCDFError>)
    ensures
        match selected {
            Ok(pair) => dispatch_spec(vartype@) == Ok::<(ElementKind, TypeTag), NetCDFErrorView>(
                pair,
            ),
            Err(error) => dispatch_spec(vartype@) == Err::<(ElementKind, TypeTag), NetCDFErrorView>(
                error@,
            ),
        },
{
    let kind = match vartype {
        VariableType::Byte => ElementKind::U8,
        VariableType::Char => ElementKind::I8,
        VariableType::Ubyte => ElementKind::U8,
        VariableType::Short => ElementKind::I16,
        VariableType::Ushort => ElementKind::U16,
        VariableType::Int => ElementKind::I32,
        VariableType::Uint => ElementKind::U32,
        VariableType::Int64 => ElementKind::I64,
        VariableType::Uint64 => ElementKind::U64,
        VariableType::Float => ElementKind::F32,
        VariableType::Double => ElementKind::F64,
        VariableType::Text => ElementKind::Text,
        VariableType::Other(name) => {
            return Err(NetCDFError::UnsupportedType(name.clone()));
        },
    };
    Ok((kind, kind.type_tag()))
}

/// Whatever is dispatched, the tag is the loader's own.
pub proof fn lemma_dispatch_tag(vartype: VariableTypeView)
    ensures
        dispatch_spec(vartype) matches Ok(pair) ==> pair.1 == pair.0.spec_type_tag(),
{
}

} // verus!
