//! Compile-time type equality, for asserting the shape of a struct.
//!
//! The crate offers a single guarantee, enforced entirely by the type
//! checker: a call of [`ty_must_eq`] compiles exactly when its two type
//! parameters denote the same type. Nothing happens at run time; the
//! function body is empty, and its whole meaning lies in the [`IsEqual`]
//! bound on its signature.
//!
//! The intended use is to pin down the type of a struct field at the
//! place where an assumption about it is made. Written against a field
//! access inside a branch the compiler knows to be dead, the call leaves
//! no trace in the built program, yet the build fails at the call site
//! whenever the field disappears or changes its type.
//!
//! Equality here is exact: no coercion is consulted. A field of type
//! `&'static Wrapper<u64>` is not equal to `&'static u64`, however
//! freely the one coerces to the other. Asserting mere coercibility
//! needs no support from this crate at all, only a plain typed binding
//! (`let _: Expected = value;`), since every such binding is a coercion
//! site.

use vstd::prelude::*;

verus! {

/// A trait whose associated type is always `Self`.
///
/// The single blanket impl fixes `Alias = T` for every `T`. The
/// point of the indirection is that the type checker does not simplify
/// `T::Alias` to `T` while deciding whether a bound of the form
/// `AliasSelf<Alias = U>` holds: it must resolve the projection on one
/// side against `U` on the other, and so is forced to unify the two
/// types rather than wave the question through.
pub trait AliasSelf {
    type Alias: ?Sized;
}

impl<T: ?Sized> AliasSelf for T {
    type Alias = T;
}

/// Holds exactly when `T` and `U` are the same type.
///
/// The supertrait bound `AliasSelf<Alias = U>` is what carries the
/// meaning: by the blanket impl of [`AliasSelf`], the projection
/// `T::Alias` is `T`, so the bound demands `T == U`. The blanket impl
/// below makes `IsEqual` hold whenever that demand is met, and a naming
/// of `IsEqual` as a bound is therefore a compile-time assertion of
/// type equality, never a constraint a caller discharges by hand.
pub trait IsEqual<U: ?Sized>: AliasSelf<Alias = U> {}

impl<T: ?Sized, U: ?Sized> IsEqual<U> for T where T: AliasSelf<Alias = U> {}

/// Compiles only when `T` and `U` are the same type.
///
/// The check is the `IsEqual` bound, settled by the compiler at each
/// call site; turbofishing the expected type as `U` while letting `T`
/// be inferred from the argument asserts that the argument's type is
/// exactly `U`. At run time the call does nothing: it consumes its
/// argument and returns the unit value, which is all the contract has
/// to say.
pub fn ty_must_eq<T, U>(_v: T) -> (r: ())
    where
        T: IsEqual<U>,
    ensures
        r == (),
{
}

} // verus!
