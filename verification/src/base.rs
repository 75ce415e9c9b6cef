use std::marker::PhantomData;
use vstd::prelude::*;

verus! {

/// The address of a class object in the framework's registry.
pub type Class = usize;

/// The token of a class that the registry does not hold.
pub const Nil: Class = 0;

/// An unowned reference to a framework object, tagged with its class chain.
///
/// The first field is the object's address. The tag `T` is `()` for an object
/// of unknown class, and `(C, R)` for an object of class `C` whose parent
/// has the tag `R`.
pub struct id<T = ()>(pub usize, pub PhantomData<T>);

/// Position of an ancestor: the parent itself.
pub struct Here;

/// Position of an ancestor: one step above the position `I`.
pub struct There<I>(pub PhantomData<I>);

/// `C: Extends<A, I>` holds when the class chain `C` contains the chain `A`
/// as a proper tail, `I` steps up.
pub trait Extends<A, I> {}

impl<T, R> Extends<R, Here> for (T, R) {}

impl<T, R, A, I> Extends<A, There<I>> for (T, R) where R: Extends<A, I> {}

/// The token for the outcome of a lookup in the class registry: the address
/// of the class where the registry holds it, `Nil` where it does not.
pub fn class_token(found: Option<Class>) -> (token: Class)
    ensures
        found is None ==> token == Nil,
        found matches Some(address) ==> token == address,
{
    match found {
        Some(address) => address,
        None => Nil,
    }
}

/// The reference to no object.
pub fn nil() -> (h: id)
    ensures
        h.0 == 0,
{
    id(0, PhantomData)
}

impl<C> id<C> {
    /// The same object seen as an instance of the ancestor class `A`.
    pub fn view_as<A, I>(&self) -> (a: id<A>) where C: Extends<A, I>
        ensures
            a.0 == self.0,
    {
        id(self.0, PhantomData)
    }
}

impl<T, R> id<(T, R)> {
    /// The same object seen as an instance of its parent class.
    pub fn upcast(&self) -> (parent: id<R>)
        ensures
            parent.0 == self.0,
    {
        id(self.0, PhantomData)
    }
}

} // verus!
