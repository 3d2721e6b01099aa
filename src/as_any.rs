use crate::erased::{AnyMut, AnyRef, AnyValue};
use crate::type_tag::TypeTag;
use vstd::prelude::*;

verus! {

/// A concrete type whose values can be erased to a run-time typed form and
/// narrowed back from it.
///
/// Implemented for `bool`, `char`, every primitive integer type and `String`,
/// each under a tag of its own.
pub trait AsAny: Sized {
    /// The identity of this type.
    spec fn type_tag() -> TypeTag;

    /// The erased form of a value: its type together with the value itself.
    spec fn erasure(&self) -> AnyValue;

    /// Erasure keeps the type and loses nothing: distinct values stay distinct.
    proof fn lemma_erasure(a: &Self, b: &Self)
        ensures
            a.erasure().tag() == Self::type_tag(),
            a.erasure() == b.erasure() ==> a == b,
    ;

    fn as_any(&self) -> (r: AnyRef<'_>)
        ensures
            r.value() == self.erasure(),
    ;

    /// Lends the value out in erased form; what is written through the borrow
    /// becomes the new value.
    fn as_any_mut(&mut self) -> (r: AnyMut<'_>)
        ensures
            r.value() == old(self).erasure(),
            final(self).erasure() == match r {
                AnyMut::Bool(x) => AnyValue::Bool(*final(x)),
                AnyMut::Char(x) => AnyValue::Char(*final(x)),
                AnyMut::U8(x) => AnyValue::U8(*final(x)),
                AnyMut::U16(x) => AnyValue::U16(*final(x)),
                AnyMut::U32(x) => AnyValue::U32(*final(x)),
                AnyMut::U64(x) => AnyValue::U64(*final(x)),
                AnyMut::U128(x) => AnyValue::U128(*final(x)),
                AnyMut::Usize(x) => AnyValue::Usize(*final(x)),
                AnyMut::I8(x) => AnyValue::I8(*final(x)),
                AnyMut::I16(x) => AnyValue::I16(*final(x)),
                AnyMut::I32(x) => AnyValue::I32(*final(x)),
                AnyMut::I64(x) => AnyValue::I64(*final(x)),
                AnyMut::I128(x) => AnyValue::I128(*final(x)),
                AnyMut::Isize(x) => AnyValue::Isize(*final(x)),
                AnyMut::String(x) => AnyValue::String(*final(x)),
            },
    ;

    fn as_any_box(self: Box<Self>) -> (r: Box<AnyValue>)
        ensures
            *r == self.erasure(),
    ;

    fn type_label(&self) -> (r: &'static str)
        ensures
            r@ == Self::type_tag().spec_name(),
    ;

    /// Recovers a shared borrow of this type, if the erased value has it.
    fn narrow_ref<'a>(v: AnyRef<'a>) -> (r: Option<&'a Self>)
        ensures
            r is Some <==> v.value().tag() == Self::type_tag(),
            r matches Some(x) ==> x.erasure() == v.value(),
    ;

    /// Recovers an exclusive borrow of this type, if the erased value has it;
    /// what is written through it reaches the erased value.
    fn narrow_mut<'a>(v: AnyMut<'a>) -> (r: Option<&'a mut Self>)
        ensures
            r is Some <==> v.value().tag() == Self::type_tag(),
            r matches Some(x) ==> x.erasure() == v.value() && (*final(x)).erasure() == match v {
                AnyMut::Bool(y) => AnyValue::Bool(*final(y)),
                AnyMut::Char(y) => AnyValue::Char(*final(y)),
                AnyMut::U8(y) => AnyValue::U8(*final(y)),
                AnyMut::U16(y) => AnyValue::U16(*final(y)),
                AnyMut::U32(y) => AnyValue::U32(*final(y)),
                AnyMut::U64(y) => AnyValue::U64(*final(y)),
                AnyMut::U128(y) => AnyValue::U128(*final(y)),
                AnyMut::Usize(y) => AnyValue::Usize(*final(y)),
                AnyMut::I8(y) => AnyValue::I8(*final(y)),
                AnyMut::I16(y) => AnyValue::I16(*final(y)),
                AnyMut::I32(y) => AnyValue::I32(*final(y)),
                AnyMut::I64(y) => AnyValue::I64(*final(y)),
                AnyMut::I128(y) => AnyValue::I128(*final(y)),
                AnyMut::Isize(y) => AnyValue::Isize(*final(y)),
                AnyMut::String(y) => AnyValue::String(*final(y)),
            },
    ;

    /// Takes the value out of its erased box if it has this type; otherwise
    /// hands the box back untouched.
    fn narrow_box(v: Box<AnyValue>) -> (r: Result<Box<Self>, Box<AnyValue>>)
        ensures
            r is Ok <==> v.tag() == Self::type_tag(),
            r matches Ok(x) ==> x.erasure() == *v,
            r matches Err(e) ==> e == v,
    ;
}

impl AsAny for bool {
    open spec fn type_tag() -> TypeTag {
        TypeTag::Bool
    }

    open spec fn erasure(&self) -> AnyValue {
        AnyValue::Bool(*self)
    }

    proof fn lemma_erasure(a: &Self, b: &Self) {
    }

    fn as_any(&self) -> (r: AnyRef<'_>) {
        AnyRef::Bool(self)
    }

    fn as_any_mut(&mut self) -> (r: AnyMut<'_>) {
        AnyMut::Bool(self)
    }

    fn as_any_box(self: Box<Self>) -> (r: Box<AnyValue>) {
        Box::new(AnyValue::Bool(*self))
    }

    fn type_label(&self) -> (r: &'static str) {
        TypeTag::Bool.name()
    }

    fn narrow_ref<'a>(v: AnyRef<'a>) -> (r: Option<&'a Self>) {
        match v {
            AnyRef::Bool(x) => Some(x),
            _ => None,
        }
    }

    fn narrow_mut<'a>(v: AnyMut<'a>) -> (r: Option<&'a mut Self>) {
        match v {
            AnyMut::Bool(x) => Some(x),
            _ => None,
        }
    }

    fn narrow_box(v: Box<AnyValue>) -> (r: Result<Box<Self>, Box<AnyValue>>) {
        match *v {
            AnyValue::Bool(x) => Ok(Box::new(x)),
            _ => Err(v),
        }
    }
}

impl AsAny for char {
    open spec fn type_tag() -> TypeTag {
        TypeTag::Char
    }

    open spec fn erasure(&self) -> AnyValue {
        AnyValue::Char(*self)
    }

    proof fn lemma_erasure(a: &Self, b: &Self) {
    }

    fn as_any(&self) -> (r: AnyRef<'_>) {
        AnyRef::Char(self)
    }

    fn as_any_mut(&mut self) -> (r: AnyMut<'_>) {
        AnyMut::Char(self)
    }

    fn as_any_box(self: Box<Self>) -> (r: Box<AnyValue>) {
        Box::new(AnyValue::Char(*self))
    }

    fn type_label(&self) -> (r: &'static str) {
        TypeTag::Char.name()
    }

    fn narrow_ref<'a>(v: AnyRef<'a>) -> (r: Option<&'a Self>) {
        match v {
            AnyRef::Char(x) => Some(x),
            _ => None,
        }
    }

    fn narrow_mut<'a>(v: AnyMut<'a>) -> (r: Option<&'a mut Self>) {
        match v {
            AnyMut::Char(x) => Some(x),
            _ => None,
        }
    }

    fn narrow_box(v: Box<AnyValue>) -> (r: Result<Box<Self>, Box<AnyValue>>) {
        match *v {
            AnyValue::Char(x) => Ok(Box::new(x)),
            _ => Err(v),
        }
    }
}

impl AsAny for u8 {
    open spec fn type_tag() -> TypeTag {
        TypeTag::U8
    }

    open spec fn erasure(&self) -> AnyValue {
        AnyValue::U8(*self)
    }

    proof fn lemma_erasure(a: &Self, b: &Self) {
    }

    fn as_any(&self) -> (r: AnyRef<'_>) {
        AnyRef::U8(self)
    }

    fn as_any_mut(&mut self) -> (r: AnyMut<'_>) {
        AnyMut::U8(self)
    }

    fn as_any_box(self: Box<Self>) -> (r: Box<AnyValue>) {
        Box::new(AnyValue::U8(*self))
    }

    fn type_label(&self) -> (r: &'static str) {
        TypeTag::U8.name()
    }

    fn narrow_ref<'a>(v: AnyRef<'a>) -> (r: Option<&'a Self>) {
        match v {
            AnyRef::U8(x) => Some(x),
            _ => None,
        }
    }

    fn narrow_mut<'a>(v: AnyMut<'a>) -> (r: Option<&'a mut Self>) {
        match v {
            AnyMut::U8(x) => Some(x),
            _ => None,
        }
    }

    fn narrow_box(v: Box<AnyValue>) -> (r: Result<Box<Self>, Box<AnyValue>>) {
        match *v {
            AnyValue::U8(x) => Ok(Box::new(x)),
            _ => Err(v),
        }
    }
}

impl AsAny for u16 {
    open spec fn type_tag() -> TypeTag {
        TypeTag::U16
    }

    open spec fn erasure(&self) -> AnyValue {
        AnyValue::U16(*self)
    }

    proof fn lemma_erasure(a: &Self, b: &Self) {
    }

    fn as_any(&self) -> (r: AnyRef<'_>) {
        AnyRef::U16(self)
    }

    fn as_any_mut(&mut self) -> (r: AnyMut<'_>) {
        AnyMut::U16(self)
    }

    fn as_any_box(self: Box<Self>) -> (r: Box<AnyValue>) {
        Box::new(AnyValue::U16(*self))
    }

    fn type_label(&self) -> (r: &'static str) {
        TypeTag::U16.name()
    }

    fn narrow_ref<'a>(v: AnyRef<'a>) -> (r: Option<&'a Self>) {
        match v {
            AnyRef::U16(x) => Some(x),
            _ => None,
        }
    }

    fn narrow_mut<'a>(v: AnyMut<'a>) -> (r: Option<&'a mut Self>) {
        match v {
            AnyMut::U16(x) => Some(x),
            _ => None,
        }
    }

    fn narrow_box(v: Box<AnyValue>) -> (r: Result<Box<Self>, Box<AnyValue>>) {
        match *v {
            AnyValue::U16(x) => Ok(Box::new(x)),
            _ => Err(v),
        }
    }
}

impl AsAny for u32 {
    open spec fn type_tag() -> TypeTag {
        TypeTag::U32
    }

    open spec fn erasure(&self) -> AnyValue {
        AnyValue::U32(*self)
    }

    proof fn lemma_erasure(a: &Self, b: &Self) {
    }

    fn as_any(&self) -> (r: AnyRef<'_>) {
        AnyRef::U32(self)
    }

    fn as_any_mut(&mut self) -> (r: AnyMut<'_>) {
        AnyMut::U32(self)
    }

    fn as_any_box(self: Box<Self>) -> (r: Box<AnyValue>) {
        Box::new(AnyValue::U32(*self))
    }

    fn type_label(&self) -> (r: &'static str) {
        TypeTag::U32.name()
    }

    fn narrow_ref<'a>(v: AnyRef<'a>) -> (r: Option<&'a Self>) {
        match v {
            AnyRef::U32(x) => Some(x),
            _ => None,
        }
    }

    fn narrow_mut<'a>(v: AnyMut<'a>) -> (r: Option<&'a mut Self>) {
        match v {
            AnyMut::U32(x) => Some(x),
            _ => None,
        }
    }

    fn narrow_box(v: Box<AnyValue>) -> (r: Result<Box<Self>, Box<AnyValue>>) {
        match *v {
            AnyValue::U32(x) => Ok(Box::new(x)),
            _ => Err(v),
        }
    }
}

impl AsAny for u64 {
    open spec fn type_tag() -> TypeTag {
        TypeTag::U64
    }

    open spec fn erasure(&self) -> AnyValue {
        AnyValue::U64(*self)
    }

    proof fn lemma_erasure(a: &Self, b: &Self) {
    }

    fn as_any(&self) -> (r: AnyRef<'_>) {
        AnyRef::U64(self)
    }

    fn as_any_mut(&mut self) -> (r: AnyMut<'_>) {
        AnyMut::U64(self)
    }

    fn as_any_box(self: Box<Self>) -> (r: Box<AnyValue>) {
        Box::new(AnyValue::U64(*self))
    }

    fn type_label(&self) -> (r: &'static str) {
        TypeTag::U64.name()
    }

    fn narrow_ref<'a>(v: AnyRef<'a>) -> (r: Option<&'a Self>) {
        match v {
            AnyRef::U64(x) => Some(x),
            _ => None,
        }
    }

    fn narrow_mut<'a>(v: AnyMut<'a>) -> (r: Option<&'a mut Self>) {
        match v {
            AnyMut::U64(x) => Some(x),
            _ => None,
        }
    }

    fn narrow_box(v: Box<AnyValue>) -> (r: Result<Box<Self>, Box<AnyValue>>) {
        match *v {
            AnyValue::U64(x) => Ok(Box::new(x)),
            _ => Err(v),
        }
    }
}

impl AsAny for u128 {
    open spec fn type_tag() -> TypeTag {
        TypeTag::U128
    }

    open spec fn erasure(&self) -> AnyValue {
        AnyValue::U128(*self)
    }

    proof fn lemma_erasure(a: &Self, b: &Self) {
    }

    fn as_any(&self) -> (r: AnyRef<'_>) {
        AnyRef::U128(self)
    }

    fn as_any_mut(&mut self) -> (r: AnyMut<'_>) {
        AnyMut::U128(self)
    }

    fn as_any_box(self: Box<Self>) -> (r: Box<AnyValue>) {
        Box::new(AnyValue::U128(*self))
    }

    fn type_label(&self) -> (r: &'static str) {
        TypeTag::U128.name()
    }

    fn narrow_ref<'a>(v: AnyRef<'a>) -> (r: Option<&'a Self>) {
        match v {
            AnyRef::U128(x) => Some(x),
            _ => None,
        }
    }

    fn narrow_mut<'a>(v: AnyMut<'a>) -> (r: Option<&'a mut Self>) {
        match v {
            AnyMut::U128(x) => Some(x),
            _ => None,
        }
    }

    fn narrow_box(v: Box<AnyValue>) -> (r: Result<Box<Self>, Box<AnyValue>>) {
        match *v {
            AnyValue::U128(x) => Ok(Box::new(x)),
            _ => Err(v),
        }
    }
}

impl AsAny for usize {
    open spec fn type_tag() -> TypeTag {
        TypeTag::Usize
    }

    open spec fn erasure(&self) -> AnyValue {
        AnyValue::Usize(*self)
    }

    proof fn lemma_erasure(a: &Self, b: &Self) {
    }

    fn as_any(&self) -> (r: AnyRef<'_>) {
        AnyRef::Usize(self)
    }

    fn as_any_mut(&mut self) -> (r: AnyMut<'_>) {
        AnyMut::Usize(self)
    }

    fn as_any_box(self: Box<Self>) -> (r: Box<AnyValue>) {
        Box::new(AnyValue::Usize(*self))
    }

    fn type_label(&self) -> (r: &'static str) {
        TypeTag::Usize.name()
    }

    fn narrow_ref<'a>(v: AnyRef<'a>) -> (r: Option<&'a Self>) {
        match v {
            AnyRef::Usize(x) => Some(x),
            _ => None,
        }
    }

    fn narrow_mut<'a>(v: AnyMut<'a>) -> (r: Option<&'a mut Self>) {
        match v {
            AnyMut::Usize(x) => Some(x),
            _ => None,
        }
    }

    fn narrow_box(v: Box<AnyValue>) -> (r: Result<Box<Self>, Box<AnyValue>>) {
        match *v {
            AnyValue::Usize(x) => Ok(Box::new(x)),
            _ => Err(v),
        }
    }
}

impl AsAny for i8 {
    open spec fn type_tag() -> TypeTag {
        TypeTag::I8
    }

    open spec fn erasure(&self) -> AnyValue {
        AnyValue::I8(*self)
    }

    proof fn lemma_erasure(a: &Self, b: &Self) {
    }

    fn as_any(&self) -> (r: AnyRef<'_>) {
        AnyRef::I8(self)
    }

    fn as_any_mut(&mut self) -> (r: AnyMut<'_>) {
        AnyMut::I8(self)
    }

    fn as_any_box(self: Box<Self>) -> (r: Box<AnyValue>) {
        Box::new(AnyValue::I8(*self))
    }

    fn type_label(&self) -> (r: &'static str) {
        TypeTag::I8.name()
    }

    fn narrow_ref<'a>(v: AnyRef<'a>) -> (r: Option<&'a Self>) {
        match v {
            AnyRef::I8(x) => Some(x),
            _ => None,
        }
    }

    fn narrow_mut<'a>(v: AnyMut<'a>) -> (r: Option<&'a mut Self>) {
        match v {
            AnyMut::I8(x) => Some(x),
            _ => None,
        }
    }

    fn narrow_box(v: Box<AnyValue>) -> (r: Result<Box<Self>, Box<AnyValue>>) {
        match *v {
            AnyValue::I8(x) => Ok(Box::new(x)),
            _ => Err(v),
        }
    }
}

impl AsAny for i16 {
    open spec fn type_tag() -> TypeTag {
        TypeTag::I16
    }

    open spec fn erasure(&self) -> AnyValue {
        AnyValue::I16(*self)
    }

    proof fn lemma_erasure(a: &Self, b: &Self) {
    }

    fn as_any(&self) -> (r: AnyRef<'_>) {
        AnyRef::I16(self)
    }

    fn as_any_mut(&mut self) -> (r: AnyMut<'_>) {
        AnyMut::I16(self)
    }

    fn as_any_box(self: Box<Self>) -> (r: Box<AnyValue>) {
        Box::new(AnyValue::I16(*self))
    }

    fn type_label(&self) -> (r: &'static str) {
        TypeTag::I16.name()
    }

    fn narrow_ref<'a>(v: AnyRef<'a>) -> (r: Option<&'a Self>) {
        match v {
            AnyRef::I16(x) => Some(x),
            _ => None,
        }
    }

    fn narrow_mut<'a>(v: AnyMut<'a>) -> (r: Option<&'a mut Self>) {
        match v {
            AnyMut::I16(x) => Some(x),
            _ => None,
        }
    }

    fn narrow_box(v: Box<AnyValue>) -> (r: Result<Box<Self>, Box<AnyValue>>) {
        match *v {
            AnyValue::I16(x) => Ok(Box::new(x)),
            _ => Err(v),
        }
    }
}

impl AsAny for i32 {
    open spec fn type_tag() -> TypeTag {
        TypeTag::I32
    }

    open spec fn erasure(&self) -> AnyValue {
        AnyValue::I32(*self)
    }

    proof fn lemma_erasure(a: &Self, b: &Self) {
    }

    fn as_any(&self) -> (r: AnyRef<'_>) {
        AnyRef::I32(self)
    }

    fn as_any_mut(&mut self) -> (r: AnyMut<'_>) {
        AnyMut::I32(self)
    }

    fn as_any_box(self: Box<Self>) -> (r: Box<AnyValue>) {
        Box::new(AnyValue::I32(*self))
    }

    fn type_label(&self) -> (r: &'static str) {
        TypeTag::I32.name()
    }

    fn narrow_ref<'a>(v: AnyRef<'a>) -> (r: Option<&'a Self>) {
        match v {
            AnyRef::I32(x) => Some(x),
            _ => None,
        }
    }

    fn narrow_mut<'a>(v: AnyMut<'a>) -> (r: Option<&'a mut Self>) {
        match v {
            AnyMut::I32(x) => Some(x),
            _ => None,
        }
    }

    fn narrow_box(v: Box<AnyValue>) -> (r: Result<Box<Self>, Box<AnyValue>>) {
        match *v {
            AnyValue::I32(x) => Ok(Box::new(x)),
            _ => Err(v),
        }
    }
}

impl AsAny for i64 {
    open spec fn type_tag() -> TypeTag {
        TypeTag::I64
    }

    open spec fn erasure(&self) -> AnyValue {
        AnyValue::I64(*self)
    }

    proof fn lemma_erasure(a: &Self, b: &Self) {
    }

    fn as_any(&self) -> (r: AnyRef<'_>) {
        AnyRef::I64(self)
    }

    fn as_any_mut(&mut self) -> (r: AnyMut<'_>) {
        AnyMut::I64(self)
    }

    fn as_any_box(self: Box<Self>) -> (r: Box<AnyValue>) {
        Box::new(AnyValue::I64(*self))
    }

    fn type_label(&self) -> (r: &'static str) {
        TypeTag::I64.name()
    }

    fn narrow_ref<'a>(v: AnyRef<'a>) -> (r: Option<&'a Self>) {
        match v {
            AnyRef::I64(x) => Some(x),
            _ => None,
        }
    }

    fn narrow_mut<'a>(v: AnyMut<'a>) -> (r: Option<&'a mut Self>) {
        match v {
            AnyMut::I64(x) => Some(x),
            _ => None,
        }
    }

    fn narrow_box(v: Box<AnyValue>) -> (r: Result<Box<Self>, Box<AnyValue>>) {
        match *v {
            AnyValue::I64(x) => Ok(Box::new(x)),
            _ => Err(v),
        }
    }
}

impl AsAny for i128 {
    open spec fn type_tag() -> TypeTag {
        TypeTag::I128
    }

    open spec fn erasure(&self) -> AnyValue {
        AnyValue::I128(*self)
    }

    proof fn lemma_erasure(a: &Self, b: &Self) {
    }

    fn as_any(&self) -> (r: AnyRef<'_>) {
        AnyRef::I128(self)
    }

    fn as_any_mut(&mut self) -> (r: AnyMut<'_>) {
        AnyMut::I128(self)
    }

    fn as_any_box(self: Box<Self>) -> (r: Box<AnyValue>) {
        Box::new(AnyValue::I128(*self))
    }

    fn type_label(&self) -> (r: &'static str) {
        TypeTag::I128.name()
    }

    fn narrow_ref<'a>(v: AnyRef<'a>) -> (r: Option<&'a Self>) {
        match v {
            AnyRef::I128(x) => Some(x),
            _ => None,
        }
    }

    fn narrow_mut<'a>(v: AnyMut<'a>) -> (r: Option<&'a mut Self>) {
        match v {
            AnyMut::I128(x) => Some(x),
            _ => None,
        }
    }

    fn narrow_box(v: Box<AnyValue>) -> (r: Result<Box<Self>, Box<AnyValue>>) {
        match *v {
            AnyValue::I128(x) => Ok(Box::new(x)),
            _ => Err(v),
        }
    }
}

impl AsAny for isize {
    open spec fn type_tag() -> TypeTag {
        TypeTag::Isize
    }

    open spec fn erasure(&self) -> AnyValue {
        AnyValue::Isize(*self)
    }

    proof fn lemma_erasure(a: &Self, b: &Self) {
    }

    fn as_any(&self) -> (r: AnyRef<'_>) {
        AnyRef::Isize(self)
    }

    fn as_any_mut(&mut self) -> (r: AnyMut<'_>) {
        AnyMut::Isize(self)
    }

    fn as_any_box(self: Box<Self>) -> (r: Box<AnyValue>) {
        Box::new(AnyValue::Isize(*self))
    }

    fn type_label(&self) -> (r: &'static str) {
        TypeTag::Isize.name()
    }

    fn narrow_ref<'a>(v: AnyRef<'a>) -> (r: Option<&'a Self>) {
        match v {
            AnyRef::Isize(x) => Some(x),
            _ => None,
        }
    }

    fn narrow_mut<'a>(v: AnyMut<'a>) -> (r: Option<&'a mut Self>) {
        match v {
            AnyMut::Isize(x) => Some(x),
            _ => None,
        }
    }

    fn narrow_box(v: Box<AnyValue>) -> (r: Result<Box<Self>, Box<AnyValue>>) {
        match *v {
            AnyValue::Isize(x) => Ok(Box::new(x)),
            _ => Err(v),
        }
    }
}

impl AsAny for String {
    open spec fn type_tag() -> TypeTag {
        TypeTag::String
    }

    open spec fn erasure(&self) -> AnyValue {
        AnyValue::String(*self)
    }

    proof fn lemma_erasure(a: &Self, b: &Self) {
    }

    fn as_any(&self) -> (r: AnyRef<'_>) {
        AnyRef::String(self)
    }

    fn as_any_mut(&mut self) -> (r: AnyMut<'_>) {
        AnyMut::String(self)
    }

    fn as_any_box(self: Box<Self>) -> (r: Box<AnyValue>) {
        Box::new(AnyValue::String(*self))
    }

    fn type_label(&self) -> (r: &'static str) {
        TypeTag::String.name()
    }

    fn narrow_ref<'a>(v: AnyRef<'a>) -> (r: Option<&'a Self>) {
        match v {
            AnyRef::String(x) => Some(x),
            _ => None,
        }
    }

    fn narrow_mut<'a>(v: AnyMut<'a>) -> (r: Option<&'a mut Self>) {
        match v {
            AnyMut::String(x) => Some(x),
            _ => None,
        }
    }

    fn narrow_box(v: Box<AnyValue>) -> (r: Result<Box<Self>, Box<AnyValue>>) {
        match *v {
            AnyValue::String(x) => Ok(Box::new(x)),
            _ => Err(v),
        }
    }
}

} // verus!
