use crate::type_tag::TypeTag;
use vstd::prelude::*;

verus! {

/// An owned value whose concrete type is known only at run time.
#[derive(Debug, PartialEq, Eq)]
pub enum AnyValue {
    Bool(bool),
    Char(char),
    U8(u8),
    U16(u16),
    U32(u32),
    U64(u64),
    U128(u128),
    Usize(usize),
    I8(i8),
    I16(i16),
    I32(i32),
    I64(i64),
    I128(i128),
    Isize(isize),
    String(String),
}

/// A shared borrow of a value whose concrete type is known only at run time.
pub enum AnyRef<'a> {
    Bool(&'a bool),
    Char(&'a char),
    U8(&'a u8),
    U16(&'a u16),
    U32(&'a u32),
    U64(&'a u64),
    U128(&'a u128),
    Usize(&'a usize),
    I8(&'a i8),
    I16(&'a i16),
    I32(&'a i32),
    I64(&'a i64),
    I128(&'a i128),
    Isize(&'a isize),
    String(&'a String),
}

/// An exclusive borrow of a value whose concrete type is known only at run time.
pub enum AnyMut<'a> {
    Bool(&'a mut bool),
    Char(&'a mut char),
    U8(&'a mut u8),
    U16(&'a mut u16),
    U32(&'a mut u32),
    U64(&'a mut u64),
    U128(&'a mut u128),
    Usize(&'a mut usize),
    I8(&'a mut i8),
    I16(&'a mut i16),
    I32(&'a mut i32),
    I64(&'a mut i64),
    I128(&'a mut i128),
    Isize(&'a mut isize),
    String(&'a mut String),
}

impl AnyValue {
    /// The type of the value held.
    pub open spec fn tag(self) -> TypeTag {
        match self {
            AnyValue::Bool(_) => TypeTag::Bool,
            AnyValue::Char(_) => TypeTag::Char,
            AnyValue::U8(_) => TypeTag::U8,
            AnyValue::U16(_) => TypeTag::U16,
            AnyValue::U32(_) => TypeTag::U32,
            AnyValue::U64(_) => TypeTag::U64,
            AnyValue::U128(_) => TypeTag::U128,
            AnyValue::Usize(_) => TypeTag::Usize,
            AnyValue::I8(_) => TypeTag::I8,
            AnyValue::I16(_) => TypeTag::I16,
            AnyValue::I32(_) => TypeTag::I32,
            AnyValue::I64(_) => TypeTag::I64,
            AnyValue::I128(_) => TypeTag::I128,
            AnyValue::Isize(_) => TypeTag::Isize,
            AnyValue::String(_) => TypeTag::String,
        }
    }

    pub fn as_any_ref(&self) -> (r: AnyRef<'_>)
        ensures
            r.value() == *self,
    {
        match self {
            AnyValue::Bool(x) => AnyRef::Bool(x),
            AnyValue::Char(x) => AnyRef::Char(x),
            AnyValue::U8(x) => AnyRef::U8(x),
            AnyValue::U16(x) => AnyRef::U16(x),
            AnyValue::U32(x) => AnyRef::U32(x),
            AnyValue::U64(x) => AnyRef::U64(x),
            AnyValue::U128(x) => AnyRef::U128(x),
            AnyValue::Usize(x) => AnyRef::Usize(x),
            AnyValue::I8(x) => AnyRef::I8(x),
            AnyValue::I16(x) => AnyRef::I16(x),
            AnyValue::I32(x) => AnyRef::I32(x),
            AnyValue::I64(x) => AnyRef::I64(x),
            AnyValue::I128(x) => AnyRef::I128(x),
            AnyValue::Isize(x) => AnyRef::Isize(x),
            AnyValue::String(x) => AnyRef::String(x),
        }
    }

    /// Lends the value out; whatever is written through the borrow becomes the new value.
    pub fn as_any_mut(&mut self) -> (r: AnyMut<'_>)
        ensures
            r.value() == *old(self),
            *final(self) == match r {
                AnyMut::Bool(x) => AnyValue::Bool(*final(x)),
                AnyMut::Char(x) => AnyValue::Char(*final(x)),
                AnyMut::U8(x) => AnyValue::U8(*final(x)),
                AnyMut::U16(x) => AnyValue::U16(*final(x)),
                AnyMut::U32(x) => AnyValue::U32(*final(x)),
                AnyMut::U64(x) => AnyValue::U64(*final(x)),
                AnyMut::U128(x) => AnyValue::U128(*final(x)),
                AnyMut::Usize(x) => AnyValue::Usize(*final(x)),
                AnyMut::I8(x) => AnyValue::I8(*final(x)),
                AnyMut::I16(x) => AnyValue::I16(*final(x)),
                AnyMut::I32(x) => AnyValue::I32(*final(x)),
                AnyMut::I64(x) => AnyValue::I64(*final(x)),
                AnyMut::I128(x) => AnyValue::I128(*final(x)),
                AnyMut::Isize(x) => AnyValue::Isize(*final(x)),
                AnyMut::String(x) => AnyValue::String(*final(x)),
            },
    {
        match self {
            AnyValue::Bool(x) => AnyMut::Bool(x),
            AnyValue::Char(x) => AnyMut::Char(x),
            AnyValue::U8(x) => AnyMut::U8(x),
            AnyValue::U16(x) => AnyMut::U16(x),
            AnyValue::U32(x) => AnyMut::U32(x),
            AnyValue::U64(x) => AnyMut::U64(x),
            AnyValue::U128(x) => AnyMut::U128(x),
            AnyValue::Usize(x) => AnyMut::Usize(x),
            AnyValue::I8(x) => AnyMut::I8(x),
            AnyValue::I16(x) => AnyMut::I16(x),
            AnyValue::I32(x) => AnyMut::I32(x),
            AnyValue::I64(x) => AnyMut::I64(x),
            AnyValue::I128(x) => AnyMut::I128(x),
            AnyValue::Isize(x) => AnyMut::Isize(x),
            AnyValue::String(x) => AnyMut::String(x),
        }
    }
}

impl<'a> AnyRef<'a> {
    /// The value borrowed, together with its type.
    pub open spec fn value(self) -> AnyValue {
        match self {
            AnyRef::Bool(x) => AnyValue::Bool(*x),
            AnyRef::Char(x) => AnyValue::Char(*x),
            AnyRef::U8(x) => AnyValue::U8(*x),
            AnyRef::U16(x) => AnyValue::U16(*x),
            AnyRef::U32(x) => AnyValue::U32(*x),
            AnyRef::U64(x) => AnyValue::U64(*x),
            AnyRef::U128(x) => AnyValue::U128(*x),
            AnyRef::Usize(x) => AnyValue::Usize(*x),
            AnyRef::I8(x) => AnyValue::I8(*x),
            AnyRef::I16(x) => AnyValue::I16(*x),
            AnyRef::I32(x) => AnyValue::I32(*x),
            AnyRef::I64(x) => AnyValue::I64(*x),
            AnyRef::I128(x) => AnyValue::I128(*x),
            AnyRef::Isize(x) => AnyValue::Isize(*x),
            AnyRef::String(x) => AnyValue::String(*x),
        }
    }

    pub fn type_id(&self) -> (r: TypeTag)
        ensures
            r == self.value().tag(),
    {
        match self {
            AnyRef::Bool(_) => TypeTag::Bool,
            AnyRef::Char(_) => TypeTag::Char,
            AnyRef::U8(_) => TypeTag::U8,
            AnyRef::U16(_) => TypeTag::U16,
            AnyRef::U32(_) => TypeTag::U32,
            AnyRef::U64(_) => TypeTag::U64,
            AnyRef::U128(_) => TypeTag::U128,
            AnyRef::Usize(_) => TypeTag::Usize,
            AnyRef::I8(_) => TypeTag::I8,
            AnyRef::I16(_) => TypeTag::I16,
            AnyRef::I32(_) => TypeTag::I32,
            AnyRef::I64(_) => TypeTag::I64,
            AnyRef::I128(_) => TypeTag::I128,
            AnyRef::Isize(_) => TypeTag::Isize,
            AnyRef::String(_) => TypeTag::String,
        }
    }
}

impl<'a> AnyMut<'a> {
    /// The value borrowed, as it stands now, together with its type.
    pub open spec fn value(self) -> AnyValue {
        match self {
            AnyMut::Bool(x) => AnyValue::Bool(*x),
            AnyMut::Char(x) => AnyValue::Char(*x),
            AnyMut::U8(x) => AnyValue::U8(*x),
            AnyMut::U16(x) => AnyValue::U16(*x),
            AnyMut::U32(x) => AnyValue::U32(*x),
            AnyMut::U64(x) => AnyValue::U64(*x),
            AnyMut::U128(x) => AnyValue::U128(*x),
            AnyMut::Usize(x) => AnyValue::Usize(*x),
            AnyMut::I8(x) => AnyValue::I8(*x),
            AnyMut::I16(x) => AnyValue::I16(*x),
            AnyMut::I32(x) => AnyValue::I32(*x),
            AnyMut::I64(x) => AnyValue::I64(*x),
            AnyMut::I128(x) => AnyValue::I128(*x),
            AnyMut::Isize(x) => AnyValue::Isize(*x),
            AnyMut::String(x) => AnyValue::String(*x),
        }
    }
}

} // verus!
