//! The value model: every element kind of the format, scalar or array, and
//! the marker for an attribute that could not be decoded.

use vstd::prelude::*;
use vstd::std_specs::cmp::PartialEqSpecImpl;
use vstd::std_specs::convert::FromSpecImpl;

verus! {

/// The symbolic label reported beside a loaded value.
#[derive(Clone, Copy, Debug, PartialEq, Eq, Structural)]
pub enum TypeTag {
    I8,
    I16,
    I32,
    I64,
    U8,
    U16,
    U32,
    U64,
    F32,
    F64,
    Text,
    NonNumeric,
}

impl TypeTag {
    /// The tag's spelling in the closed vocabulary of tags.
    pub open spec fn spec_name(self) -> Seq<char> {
        match self {
            TypeTag::I8 => "i8"@,
            TypeTag::I16 => "i16"@,
            TypeTag::I32 => "i32"@,
            TypeTag::I64 => "i64"@,
            TypeTag::U8 => "u8"@,
            TypeTag::U16 => "u16"@,
            TypeTag::U32 => "u32"@,
            TypeTag::U64 => "u64"@,
            TypeTag::F32 => "f32"@,
            TypeTag::F64 => "f64"@,
            TypeTag::Text => "string"@,
            TypeTag::NonNumeric => "non_numeric"@,
        }
    }

    /// The tag's spelling in the closed vocabulary of tags.
    pub fn name(self) -> (name: &'static str)
        ensures
            name@ == self.spec_name(),
    {
        match self {
            TypeTag::I8 => "i8",
            TypeTag::I16 => "i16",
            TypeTag::I32 => "i32",
            TypeTag::I64 => "i64",
            TypeTag::U8 => "u8",
            TypeTag::U16 => "u16",
            TypeTag::U32 => "u32",
            TypeTag::U64 => "u64",
            TypeTag::F32 => "f32",
            TypeTag::F64 => "f64",
            TypeTag::Text => "string",
            TypeTag::NonNumeric => "non_numeric",
        }
    }
}

/// A 32-bit IEEE 754 number, held as its bit pattern so that no conversion
/// can round it.
#[derive(Clone, Copy, Debug, PartialEq, Eq, Structural)]
pub struct F32Bits(pub u32);

/// A 64-bit IEEE 754 number, held as its bit pattern so that no conversion
/// can round it.
#[derive(Clone, Copy, Debug, PartialEq, Eq, Structural)]
pub struct F64Bits(pub u64);

/// A value read from a file: one element or an ordered run of elements of a
/// single kind, or `Absent` for an attribute whose value could not be decoded.
#[derive(Clone, Debug)]
pub enum Value {
    Absent,
    Uchar(u8),
    Schar(i8),
    Ushort(u16),
    Short(i16),
    Uint(u32),
    Int(i32),
    Ulonglong(u64),
    Longlong(i64),
    Float(F32Bits),
    Double(F64Bits),
    Str(String),
    Uchars(Vec<u8>),
    Schars(Vec<i8>),
    Ushorts(Vec<u16>),
    Shorts(Vec<i16>),
    Uints(Vec<u32>),
    Ints(Vec<i32>),
    Ulonglongs(Vec<u64>),
    Longlongs(Vec<i64>),
    Floats(Vec<F32Bits>),
    Doubles(Vec<F64Bits>),
    Strs(Vec<String>),
}

/// The mathematical content of a [`Value`] or of an [`AttrValue`].
pub enum ValueView {
    Absent,
    Uchar(u8),
    Schar(i8),
    Ushort(u16),
    Short(i16),
    Uint(u32),
    Int(i32),
    Ulonglong(u64),
    Longlong(i64),
    Float(F32Bits),
    Double(F64Bits),
    Str(Seq<char>),
    Uchars(Seq<u8>),
    Schars(Seq<i8>),
    Ushorts(Seq<u16>),
    Shorts(Seq<i16>),
    Uints(Seq<u32>),
    Ints(Seq<i32>),
    Ulonglongs(Seq<u64>),
    Longlongs(Seq<i64>),
    Floats(Seq<F32Bits>),
    Doubles(Seq<F64Bits>),
    Strs(Seq<Seq<char>>),
}

impl ValueView {
    /// The tag of the element kind that the value holds; `Absent` holds none.
    pub open spec fn type_tag(self) -> TypeTag {
        match self {
            ValueView::Absent => TypeTag::NonNumeric,
            ValueView::Uchar(_) | ValueView::Uchars(_) => TypeTag::U8,
            ValueView::Schar(_) | ValueView::Schars(_) => TypeTag::I8,
            ValueView::Ushort(_) | ValueView::Ushorts(_) => TypeTag::U16,
            ValueView::Short(_) | ValueView::Shorts(_) => TypeTag::I16,
            ValueView::Uint(_) | ValueView::Uints(_) => TypeTag::U32,
            ValueView::Int(_) | ValueView::Ints(_) => TypeTag::I32,
            ValueView::Ulonglong(_) | ValueView::Ulonglongs(_) => TypeTag::U64,
            ValueView::Longlong(_) | ValueView::Longlongs(_) => TypeTag::I64,
            ValueView::Float(_) | ValueView::Floats(_) => TypeTag::F32,
            ValueView::Double(_) | ValueView::Doubles(_) => TypeTag::F64,
            ValueView::Str(_) | ValueView::Strs(_) => TypeTag::Text,
        }
    }

    /// Whether the value is an ordered run of elements rather than a single one.
    pub open spec fn is_array(self) -> bool {
        match self {
            ValueView::Uchars(_)
            | ValueView::Schars(_)
            | ValueView::Ushorts(_)
            | ValueView::Shorts(_)
            | ValueView::Uints(_)
            | ValueView::Ints(_)
            | ValueView::Ulonglongs(_)
            | ValueView::Longlongs(_)
            | ValueView::Floats(_)
            | ValueView::Doubles(_)
            | ValueView::Strs(_) => true,
            _ => false,
        }
    }

    /// The number of elements: that of the run for an array, one for a scalar,
    /// none for `Absent`.
    pub open spec fn len(self) -> nat {
        match self {
            ValueView::Absent => 0,
            ValueView::Uchars(s) => s.len(),
            ValueView::Schars(s) => s.len(),
            ValueView::Ushorts(s) => s.len(),
            ValueView::Shorts(s) => s.len(),
            ValueView::Uints(s) => s.len(),
            ValueView::Ints(s) => s.len(),
            ValueView::Ulonglongs(s) => s.len(),
            ValueView::Longlongs(s) => s.len(),
            ValueView::Floats(s) => s.len(),
            ValueView::Doubles(s) => s.len(),
            ValueView::Strs(s) => s.len(),
            _ => 1,
        }
    }
}

impl View for Value {
    type V = ValueView;

    open spec fn view(&self) -> ValueView {
        match self {
            Value::Absent => ValueView::Absent,
            Value::Uchar(x) => ValueView::Uchar(*x),
            Value::Schar(x) => ValueView::Schar(*x),
            Value::Ushort(x) => ValueView::Ushort(*x),
            Value::Short(x) => ValueView::Short(*x),
            Value::Uint(x) => ValueView::Uint(*x),
            Value::Int(x) => ValueView::Int(*x),
            Value::Ulonglong(x) => ValueView::Ulonglong(*x),
            Value::Longlong(x) => ValueView::Longlong(*x),
            Value::Float(x) => ValueView::Float(*x),
            Value::Double(x) => ValueView::Double(*x),
            Value::Str(s) => ValueView::Str(s@),
            Value::Uchars(v) => ValueView::Uchars(v@),
            Value::Schars(v) => ValueView::Schars(v@),
            Value::Ushorts(v) => ValueView::Ushorts(v@),
            Value::Shorts(v) => ValueView::Shorts(v@),
            Value::Uints(v) => ValueView::Uints(v@),
            Value::Ints(v) => ValueView::Ints(v@),
            Value::Ulonglongs(v) => ValueView::Ulonglongs(v@),
            Value::Longlongs(v) => ValueView::Longlongs(v@),
            Value::Floats(v) => ValueView::Floats(v@),
            Value::Doubles(v) => ValueView::Doubles(v@),
            Value::Strs(v) => ValueView::Strs(v.deep_view()),
        }
    }
}

impl DeepView for Value {
    type V = ValueView;

    open spec fn deep_view(&self) -> ValueView {
        self@
    }
}

/// Whether two buffers of 32-bit floating-point numbers hold the same bit
/// patterns in the same order.
fn same_floats(a: &Vec<F32Bits>, b: &Vec<F32Bits>) -> (same: bool)
    ensures
        same == (a@ == b@),
{
    if a.len() != b.len() {
        return false;
    }
    let mut i: usize = 0;
    while i < a.len()
        invariant
            i <= a.len(),
            a.len() == b.len(),
            forall|j: int| 0 <= j < i ==> a@[j] == b@[j],
        decreases a.len() - i,
    {
        if a[i].0 != b[i].0 {
            return false;
        }
        i = i + 1;
    }
    proof {
        assert(a@ =~= b@);
    }
    true
}

/// Whether two buffers of 64-bit floating-point numbers hold the same bit
/// patterns in the same order.
fn same_doubles(a: &Vec<F64Bits>, b: &Vec<F64Bits>) -> (same: bool)
    ensures
        same == (a@ == b@),
{
    if a.len() != b.len() {
        return false;
    }
    let mut i: usize = 0;
    while i < a.len()
        invariant
            i <= a.len(),
            a.len() == b.len(),
            forall|j: int| 0 <= j < i ==> a@[j] == b@[j],
        decreases a.len() - i,
    {
        if a[i].0 != b[i].0 {
            return false;
        }
        i = i + 1;
    }
    proof {
        assert(a@ =~= b@);
    }
    true
}

/// Whether two runs of strings hold the same strings in the same order.
fn same_texts(a: &Vec<String>, b: &Vec<String>) -> (same: bool)
    ensures
        same == (a.deep_view() == b.deep_view()),
{
    if a.len() != b.len() {
        proof {
            assert(a.deep_view().len() != b.deep_view().len());
        }
        return false;
    }
    let mut i: usize = 0;
    while i < a.len()
        invariant
            i <= a.len(),
            a.len() == b.len(),
            forall|j: int| 0 <= j < i ==> a@[j]@ == b@[j]@,
        decreases a.len() - i,
    {
        if a[i] != b[i] {
            proof {
                assert(a.deep_view()[i as int] != b.deep_view()[i as int]);
            }
            return false;
        }
        i = i + 1;
    }
    proof {
        assert(a.deep_view() =~= b.deep_view());
    }
    true
}

impl PartialEqSpecImpl for Value {
    open spec fn obeys_eq_spec() -> bool {
        true
    }

    open spec fn eq_spec(&self, other: &Value) -> bool {
        self@ == other@
    }
}

impl PartialEq for Value {
    /// Equality is structural: two values are equal when they are of the
    /// same kind and form and hold the same elements in the same order.
    /// Floating-point numbers are compared by their bit patterns.
    fn eq(&self, other: &Value) -> (equal: bool) {
        match (self, other) {
            (Value::Absent, Value::Absent) => true,
            (Value::Uchar(a), Value::Uchar(b)) => *a == *b,
            (Value::Schar(a), Value::Schar(b)) => *a == *b,
            (Value::Ushort(a), Value::Ushort(b)) => *a == *b,
            (Value::Short(a), Value::Short(b)) => *a == *b,
            (Value::Uint(a), Value::Uint(b)) => *a == *b,
            (Value::Int(a), Value::Int(b)) => *a == *b,
            (Value::Ulonglong(a), Value::Ulonglong(b)) => *a == *b,
            (Value::Longlong(a), Value::Longlong(b)) => *a == *b,
            (Value::Float(a), Value::Float(b)) => a.0 == b.0,
            (Value::Double(a), Value::Double(b)) => a.0 == b.0,
            (Value::Str(a), Value::Str(b)) => *a == *b,
            (Value::Uchars(a), Value::Uchars(b)) => {
                let equal = *a == *b;
                proof {
                    assert(equal ==> a@ =~= b@);
                }
                equal
            },
            (Value::Schars(a), Value::Schars(b)) => {
                let equal = *a == *b;
                proof {
                    assert(equal ==> a@ =~= b@);
                }
                equal
            },
            (Value::Ushorts(a), Value::Ushorts(b)) => {
                let equal = *a == *b;
                proof {
                    assert(equal ==> a@ =~= b@);
                }
                equal
            },
            (Value::Shorts(a), Value::Shorts(b)) => {
                let equal = *a == *b;
                proof {
                    assert(equal ==> a@ =~= b@);
                }
                equal
            },
            (Value::Uints(a), Value::Uints(b)) => {
                let equal = *a == *b;
                proof {
                    assert(equal ==> a@ =~= b@);
                }
                equal
            },
            (Value::Ints(a), Value::Ints(b)) => {
                let equal = *a == *b;
                proof {
                    assert(equal ==> a@ =~= b@);
                }
                equal
            },
            (Value::Ulonglongs(a), Value::Ulonglongs(b)) => {
                let equal = *a == *b;
                proof {
                    assert(equal ==> a@ =~= b@);
                }
                equal
            },
            (Value::Longlongs(a), Value::Longlongs(b)) => {
                let equal = *a == *b;
                proof {
                    assert(equal ==> a@ =~= b@);
                }
                equal
            },
            (Value::Floats(a), Value::Floats(b)) => same_floats(a, b),
            (Value::Doubles(a), Value::Doubles(b)) => same_doubles(a, b),
            (Value::Strs(a), Value::Strs(b)) => same_texts(a, b),
            _ => false,
        }
    }
}

impl Eq for Value {

}

impl Value {
    /// The tag of the element kind that the value holds.
    pub fn type_tag(&self) -> (tag: TypeTag)
        ensures
            tag == self@.type_tag(),
    {
        match self {
            Value::Absent => TypeTag::NonNumeric,
            Value::Uchar(_) | Value::Uchars(_) => TypeTag::U8,
            Value::Schar(_) | Value::Schars(_) => TypeTag::I8,
            Value::Ushort(_) | Value::Ushorts(_) => TypeTag::U16,
            Value::Short(_) | Value::Shorts(_) => TypeTag::I16,
            Value::Uint(_) | Value::Uints(_) => TypeTag::U32,
            Value::Int(_) | Value::Ints(_) => TypeTag::I32,
            Value::Ulonglong(_) | Value::Ulonglongs(_) => TypeTag::U64,
            Value::Longlong(_) | Value::Longlongs(_) => TypeTag::I64,
            Value::Float(_) | Value::Floats(_) => TypeTag::F32,
            Value::Double(_) | Value::Doubles(_) => TypeTag::F64,
            Value::Str(_) | Value::Strs(_) => TypeTag::Text,
        }
    }

    /// Whether the value is an ordered run of elements rather than a single one.
    pub fn is_array(&self) -> (array: bool)
        ensures
            array == self@.is_array(),
    {
        match self {
            Value::Uchars(_)
            | Value::Schars(_)
            | Value::Ushorts(_)
            | Value::Shorts(_)
            | Value::Uints(_)
            | Value::Ints(_)
            | Value::Ulonglongs(_)
            | Value::Longlongs(_)
            | Value::Floats(_)
            | Value::Doubles(_)
            | Value::Strs(_) => true,
            _ => false,
        }
    }

    /// The number of elements that the value holds.
    pub fn len(&self) -> (len: usize)
        ensures
            len == self@.len(),
    {
        match self {
            Value::Absent => 0,
            Value::Uchars(v) => v.len(),
            Value::Schars(v) => v.len(),
            Value::Ushorts(v) => v.len(),
            Value::Shorts(v) => v.len(),
            Value::Uints(v) => v.len(),
            Value::Ints(v) => v.len(),
            Value::Ulonglongs(v) => v.len(),
            Value::Longlongs(v) => v.len(),
            Value::Floats(v) => v.len(),
            Value::Doubles(v) => v.len(),
            Value::Strs(v) => v.len(),
            _ => 1,
        }
    }
}

/// The value of an attribute as the format library hands it out.
#[derive(Clone, Debug, PartialEq, Eq)]
pub enum AttrValue {
    Uchar(u8),
    Uchars(Vec<u8>),
    Schar(i8),
    Schars(Vec<i8>),
    Ushort(u16),
    Ushorts(Vec<u16>),
    Short(i16),
    Shorts(Vec<i16>),
    Uint(u32),
    Uints(Vec<u32>),
    Int(i32),
    Ints(Vec<i32>),
    Ulonglong(u64),
    Ulonglongs(Vec<u64>),
    Longlong(i64),
    Longlongs(Vec<i64>),
    Float(F32Bits),
    Floats(Vec<F32Bits>),
    Double(F64Bits),
    Doubles(Vec<F64Bits>),
    Str(String),
    Strs(Vec<String>),
}

impl View for AttrValue {
    type V = ValueView;

    open spec fn view(&self) -> ValueView {
        match self {
            AttrValue::Uchar(x) => ValueView::Uchar(*x),
            AttrValue::Uchars(v) => ValueView::Uchars(v@),
            AttrValue::Schar(x) => ValueView::Schar(*x),
            AttrValue::Schars(v) => ValueView::Schars(v@),
            AttrValue::Ushort(x) => ValueView::Ushort(*x),
            AttrValue::Ushorts(v) => ValueView::Ushorts(v@),
            AttrValue::Short(x) => ValueView::Short(*x),
            AttrValue::Shorts(v) => ValueView::Shorts(v@),
            AttrValue::Uint(x) => ValueView::Uint(*x),
            AttrValue::Uints(v) => ValueView::Uints(v@),
            AttrValue::Int(x) => ValueView::Int(*x),
            AttrValue::Ints(v) => ValueView::Ints(v@),
            AttrValue::Ulonglong(x) => ValueView::Ulonglong(*x),
            AttrValue::Ulonglongs(v) => ValueView::Ulonglongs(v@),
            AttrValue::Longlong(x) => ValueView::Longlong(*x),
            AttrValue::Longlongs(v) => ValueView::Longlongs(v@),
            AttrValue::Float(x) => ValueView::Float(*x),
            AttrValue::Floats(v) => ValueView::Floats(v@),
            AttrValue::Double(x) => ValueView::Double(*x),
            AttrValue::Doubles(v) => ValueView::Doubles(v@),
            AttrValue::Str(s) => ValueView::Str(s@),
            AttrValue::Strs(v) => ValueView::Strs(v.deep_view()),
        }
    }
}

impl DeepView for AttrValue {
    type V = ValueView;

    open spec fn deep_view(&self) -> ValueView {
        self@
    }
}

impl FromSpecImpl<AttrValue> for Value {
    open spec fn obeys_from_spec() -> bool {
        true
    }

    open spec fn from_spec(value: AttrValue) -> Value {
        match value {
            AttrValue::Uchar(x) => Value::Uchar(x),
            AttrValue::Uchars(v) => Value::Uchars(v),
            AttrValue::Schar(x) => Value::Schar(x),
            AttrValue::Schars(v) => Value::Schars(v),
            AttrValue::Ushort(x) => Value::Ushort(x),
            AttrValue::Ushorts(v) => Value::Ushorts(v),
            AttrValue::Short(x) => Value::Short(x),
            AttrValue::Shorts(v) => Value::Shorts(v),
            AttrValue::Uint(x) => Value::Uint(x),
            AttrValue::Uints(v) => Value::Uints(v),
            AttrValue::Int(x) => Value::Int(x),
            AttrValue::Ints(v) => Value::Ints(v),
            AttrValue::Ulonglong(x) => Value::Ulonglong(x),
            AttrValue::Ulonglongs(v) => Value::Ulonglongs(v),
            AttrValue::Longlong(x) => Value::Longlong(x),
            AttrValue::Longlongs(v) => Value::Longlongs(v),
            AttrValue::Float(x) => Value::Float(x),
            AttrValue::Floats(v) => Value::Floats(v),
            AttrValue::Double(x) => Value::Double(x),
            AttrValue::Doubles(v) => Value::Doubles(v),
            AttrValue::Str(s) => Value::Str(s),
            AttrValue::Strs(v) => Value::Strs(v),
        }
    }
}

impl From<AttrValue> for Value {
    /// Carries an attribute's value over unchanged: the same kind, the same
    /// elements in the same order, and never `Absent`.
    fn from(value: AttrValue) -> (converted: Value)
        ensures
            converted@ == value@,
            converted@ != ValueView::Absent,
    {
        match value {
            AttrValue::Uchar(x) => Value::Uchar(x),
            AttrValue::Uchars(v) => Value::Uchars(v),
            AttrValue::Schar(x) => Value::Schar(x),
            AttrValue::Schars(v) => Value::Schars(v),
            AttrValue::Ushort(x) => Value::Ushort(x),
            AttrValue::Ushorts(v) => Value::Ushorts(v),
            AttrValue::Short(x) => Value::Short(x),
            AttrValue::Shorts(v) => Value::Shorts(v),
            AttrValue::Uint(x) => Value::Uint(x),
            AttrValue::Uints(v) => Value::Uints(v),
            AttrValue::Int(x) => Value::Int(x),
            AttrValue::Ints(v) => Value::Ints(v),
            AttrValue::Ulonglong(x) => Value::Ulonglong(x),
            AttrValue::Ulonglongs(v) => Value::Ulonglongs(v),
            AttrValue::Longlong(x) => Value::Longlong(x),
            AttrValue::Longlongs(v) => Value::Longlongs(v),
            AttrValue::Float(x) => Value::Float(x),
            AttrValue::Floats(v) => Value::Floats(v),
            AttrValue::Double(x) => Value::Double(x),
            AttrValue::Doubles(v) => Value::Doubles(v),
            AttrValue::Str(s) => Value::Str(s),
            AttrValue::Strs(v) => Value::Strs(v),
        }
    }
}

impl FromSpecImpl<Vec<u8>> for Value {
    open spec fn obeys_from_spec() -> bool {
        true
    }

    open spec fn from_spec(value: Vec<u8>) -> Value {
        Value::Uchars(value)
    }
}

impl From<Vec<u8>> for Value {
    /// Wraps a buffer of unsigned 8-bit integers as an array value.
    fn from(value: Vec<u8>) -> (wrapped: Value)
        ensures
            wrapped == Value::Uchars(value),
    {
        Value::Uchars(value)
    }
}

impl FromSpecImpl<Vec<i8>> for Value {
    open spec fn obeys_from_spec() -> bool {
        true
    }

    open spec fn from_spec(value: Vec<i8>) -> Value {
        Value::Schars(value)
    }
}

impl From<Vec<i8>> for Value {
    /// Wraps a buffer of signed 8-bit integers as an array value.
    fn from(value: Vec<i8>) -> (wrapped: Value)
        ensures
            wrapped == Value::Schars(value),
    {
        Value::Schars(value)
    }
}

impl FromSpecImpl<Vec<u16>> for Value {
    open spec fn obeys_from_spec() -> bool {
        true
    }

    open spec fn from_spec(value: Vec<u16>) -> Value {
        Value::Ushorts(value)
    }
}

impl From<Vec<u16>> for Value {
    /// Wraps a buffer of unsigned 16-bit integers as an array value.
    fn from(value: Vec<u16>) -> (wrapped: Value)
        ensures
            wrapped == Value::Ushorts(value),
    {
        Value::Ushorts(value)
    }
}

impl FromSpecImpl<Vec<i16>> for Value {
    open spec fn obeys_from_spec() -> bool {
        true
    }

    open spec fn from_spec(value: Vec<i16>) -> Value {
        Value::Shorts(value)
    }
}

impl From<Vec<i16>> for Value {
    /// Wraps a buffer of signed 16-bit integers as an array value.
    fn from(value: Vec<i16>) -> (wrapped: Value)
        ensures
            wrapped == Value::Shorts(value),
    {
        Value::Shorts(value)
    }
}

impl FromSpecImpl<Vec<u32>> for Value {
    open spec fn obeys_from_spec() -> bool {
        true
    }

    open spec fn from_spec(value: Vec<u32>) -> Value {
        Value::Uints(value)
    }
}

impl From<Vec<u32>> for Value {
    /// Wraps a buffer of unsigned 32-bit integers as an array value.
    fn from(value: Vec<u32>) -> (wrapped: Value)
        ensures
            wrapped == Value::Uints(value),
    {
        Value::Uints(value)
    }
}

impl FromSpecImpl<Vec<i32>> for Value {
    open spec fn obeys_from_spec() -> bool {
        true
    }

    open spec fn from_spec(value: Vec<i32>) -> Value {
        Value::Ints(value)
    }
}

impl From<Vec<i32>> for Value {
    /// Wraps a buffer of signed 32-bit integers as an array value.
    fn from(value: Vec<i32>) -> (wrapped: Value)
        ensures
            wrapped == Value::Ints(value),
    {
        Value::Ints(value)
    }
}

impl FromSpecImpl<Vec<u64>> for Value {
    open spec fn obeys_from_spec() -> bool {
        true
    }

    open spec fn from_spec(value: Vec<u64>) -> Value {
        Value::Ulonglongs(value)
    }
}

impl From<Vec<u64>> for Value {
    /// Wraps a buffer of unsigned 64-bit integers as an array value.
    fn from(value: Vec<u64>) -> (wrapped: Value)
        ensures
            wrapped == Value::Ulonglongs(value),
    {
        Value::Ulonglongs(value)
    }
}

impl FromSpecImpl<Vec<i64>> for Value {
    open spec fn obeys_from_spec() -> bool {
        true
    }

    open spec fn from_spec(value: Vec<i64>) -> Value {
        Value::Longlongs(value)
    }
}

impl From<Vec<i64>> for Value {
    /// Wraps a buffer of signed 64-bit integers as an array value.
    fn from(value: Vec<i64>) -> (wrapped: Value)
        ensures
            wrapped == Value::Longlongs(value),
    {
        Value::Longlongs(value)
    }
}

impl FromSpecImpl<Vec<F32Bits>> for Value {
    open spec fn obeys_from_spec() -> bool {
        true
    }

    open spec fn from_spec(value: Vec<F32Bits>) -> Value {
        Value::Floats(value)
    }
}

impl From<Vec<F32Bits>> for Value {
    /// Wraps a buffer of 32-bit floating-point numbers as an array value.
    fn from(value: Vec<F32Bits>) -> (wrapped: Value)
        ensures
            wrapped == Value::Floats(value),
    {
        Value::Floats(value)
    }
}

impl FromSpecImpl<Vec<F64Bits>> for Value {
    open spec fn obeys_from_spec() -> bool {
        true
    }

    open spec fn from_spec(value: Vec<F64Bits>) -> Value {
        Value::Doubles(value)
    }
}

impl From<Vec<F64Bits>> for Value {
    /// Wraps a buffer of 64-bit floating-point numbers as an array value.
    fn from(value: Vec<F64Bits>) -> (wrapped: Value)
        ensures
            wrapped == Value::Doubles(value),
    {
        Value::Doubles(value)
    }
}

impl FromSpecImpl<Vec<String>> for Value {
    open spec fn obeys_from_spec() -> bool {
        true
    }

    open spec fn from_spec(value: Vec<String>) -> Value {
        Value::Strs(value)
    }
}

impl From<Vec<String>> for Value {
    /// Wraps a buffer of strings as an array value.
    fn from(value: Vec<String>) -> (wrapped: Value)
        ensures
            wrapped == Value::Strs(value),
    {
        Value::Strs(value)
    }
}

} // verus!
