use crate::as_any::AsAny;
use crate::erased::{AnyRef, AnyValue};
use crate::type_tag::TypeTag;
use vstd::prelude::*;

verus! {

/// Checked narrowing of a value to a concrete type chosen by the caller.
///
/// Implemented by every erasable type, and by `AnyValue`, the owned erased
/// form. Equality of type tags is the only admission test.
pub trait Downcast: Sized {
    /// The erased form of the value: its type together with the value itself.
    spec fn erased(&self) -> AnyValue;

    fn erased_ref(&self) -> (r: AnyRef<'_>)
        ensures
            r.value() == self.erased(),
    ;

    fn type_id(&self) -> (r: TypeTag)
        ensures
            r == self.erased().tag(),
    {
        self.erased_ref().type_id()
    }

    fn is<T: AsAny>(&self) -> (r: bool)
        ensures
            r == (self.erased().tag() == T::type_tag()),
    {
        T::narrow_ref(self.erased_ref()).is_some()
    }

    fn downcast_ref<T: AsAny>(&self) -> (r: Option<&T>)
        ensures
            r is Some <==> self.erased().tag() == T::type_tag(),
            r matches Some(x) ==> x.erasure() == self.erased(),
    {
        T::narrow_ref(self.erased_ref())
    }

    /// On a match, what is written through the borrow becomes the new value,
    /// whose type stays the same; on a mismatch the value is left alone.
    fn downcast_mut<T: AsAny>(&mut self) -> (r: Option<&mut T>)
        ensures
            r is Some <==> old(self).erased().tag() == T::type_tag(),
            r matches Some(x) ==> x.erasure() == old(self).erased()
                && final(self).erased() == (*final(x)).erasure(),
            r is None ==> *final(self) == *old(self),
    ;

    /// Moves the value out of its box as a `T` on a match; otherwise hands the
    /// same box back.
    fn downcast<T: AsAny>(self: Box<Self>) -> (r: Result<Box<T>, Box<Self>>)
        ensures
            r is Ok <==> self.erased().tag() == T::type_tag(),
            r matches Ok(x) ==> x.erasure() == self.erased(),
            r matches Err(e) ==> e == self,
    ;
}

impl<S: AsAny> Downcast for S {
    open spec fn erased(&self) -> AnyValue {
        self.erasure()
    }

    fn erased_ref(&self) -> (r: AnyRef<'_>) {
        self.as_any()
    }

    fn downcast_mut<T: AsAny>(&mut self) -> (r: Option<&mut T>) {
        if self.is::<T>() {
            T::narrow_mut(self.as_any_mut())
        } else {
            None
        }
    }

    fn downcast<T: AsAny>(self: Box<Self>) -> (r: Result<Box<T>, Box<Self>>) {
        if self.is::<T>() {
            match T::narrow_box(self.as_any_box()) {
                Ok(x) => Ok(x),
                Err(_) => vstd::pervasive::unreached(),
            }
        } else {
            Err(self)
        }
    }
}

impl Downcast for AnyValue {
    open spec fn erased(&self) -> AnyValue {
        *self
    }

    fn erased_ref(&self) -> (r: AnyRef<'_>) {
        self.as_any_ref()
    }

    fn downcast_mut<T: AsAny>(&mut self) -> (r: Option<&mut T>) {
        if self.is::<T>() {
            T::narrow_mut(self.as_any_mut())
        } else {
            None
        }
    }

    fn downcast<T: AsAny>(self: Box<Self>) -> (r: Result<Box<T>, Box<Self>>) {
        T::narrow_box(self)
    }
}

/// Erasure records the type of the value: `is::<T>` holds of the erasure of a
/// `T`, and `is::<U>` fails there for every `U` whose tag differs from `T`'s.
pub proof fn lemma_is_exact<T: AsAny, U: AsAny>(v: T)
    ensures
        v.erasure().erased().tag() == T::type_tag(),
        v.erased().tag() == T::type_tag(),
        T::type_tag() != U::type_tag() ==> v.erasure().erased().tag() != U::type_tag(),
{
    T::lemma_erasure(&v, &v);
}

/// Erasing `v` and narrowing back to its own type succeeds and gives a value
/// equal to `v`.
pub proof fn lemma_round_trip<T: AsAny>(v: T, x: T)
    requires
        x.erasure() == v.erasure().erased(),
    ensures
        v.erasure().erased().tag() == T::type_tag(),
        x == v,
{
    T::lemma_erasure(&x, &v);
}

/// Once `w` has been written through the borrow that `downcast_mut::<T>`
/// handed out, the erased value keeps its type and `downcast_ref::<T>` reads
/// `w` back.
pub proof fn lemma_write_then_read<T: AsAny>(before: AnyValue, after: AnyValue, w: T, x: T)
    requires
        before.erased().tag() == T::type_tag(),
        after == w.erasure(),
        x.erasure() == after.erased(),
    ensures
        after.erased().tag() == before.erased().tag(),
        x == w,
{
    T::lemma_erasure(&x, &w);
}

} // verus!
