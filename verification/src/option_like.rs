//! The methods of `Option`, for types that are sufficiently like an `Option`.
//!
//! [`IntoOption`] holds the methods that consume the value, [`AsRefOption`] those that borrow
//! it and [`AsMutOption`] those that borrow it mutably. A type joins in by saying which
//! `Option` it stands for; every method then behaves as the method of that name on `Option`.

use crate::num::Checked;
use vstd::prelude::*;
use vstd::std_specs::convert::IntoSpec;

verus! {

/// The methods of `Option` that consume `self`.
///
/// The `Option` that `self` stands for is the one it converts into. The contracts speak of
/// that conversion through `into_spec`, and hold for every type whose conversion obeys it.
pub trait IntoOption<T>: Into<Option<T>> + Sized {
    /// The held value. The caller shows that there is one; `msg` would describe its absence.
    fn expect(self, msg: &str) -> (r: T)
        requires
            <Self as IntoSpec<Option<T>>>::obeys_into_spec(),
            self.into_spec() is Some,
        ensures
            self.into_spec() == Some(r),
    {
        let held: Option<T> = self.into();
        held.expect(msg)
    }

    /// The held value. The caller shows that there is one.
    fn unwrap(self) -> (r: T)
        requires
            <Self as IntoSpec<Option<T>>>::obeys_into_spec(),
            self.into_spec() is Some,
        ensures
            self.into_spec() == Some(r),
    {
        let held: Option<T> = self.into();
        held.unwrap()
    }

    /// The held value, or `def` if there is none.
    fn unwrap_or(self, def: T) -> (r: T)
        ensures
            <Self as IntoSpec<Option<T>>>::obeys_into_spec() ==> r == (match self.into_spec() {
                Some(x) => x,
                None => def,
            }),
    {
        let held: Option<T> = self.into();
        held.unwrap_or(def)
    }

    /// The held value, or what `f` computes if there is none. `f` runs only then.
    fn unwrap_or_else<F>(self, f: F) -> (r: T) where F: FnOnce() -> T
        requires
            <Self as IntoSpec<Option<T>>>::obeys_into_spec(),
            self.into_spec() is None ==> f.requires(()),
        ensures
            match self.into_spec() {
                Some(x) => r == x,
                None => f.ensures((), r),
            },
    {
        let held: Option<T> = self.into();
        held.unwrap_or_else(f)
    }

    /// `f` applied to the held value, or nothing if there is none.
    fn map<U, F>(self, f: F) -> (r: Option<U>) where F: FnOnce(T) -> U
        requires
            <Self as IntoSpec<Option<T>>>::obeys_into_spec(),
            self.into_spec() is Some ==> f.requires((self.into_spec()->0,)),
        ensures
            match self.into_spec() {
                Some(x) => r is Some && f.ensures((x,), r->0),
                None => r is None,
            },
    {
        let held: Option<T> = self.into();
        held.map(f)
    }

    /// `f` applied to the held value, or `default` if there is none.
    fn map_or<U, F>(self, default: U, f: F) -> (r: U) where F: FnOnce(T) -> U
        requires
            <Self as IntoSpec<Option<T>>>::obeys_into_spec(),
            self.into_spec() is Some ==> f.requires((self.into_spec()->0,)),
        ensures
            match self.into_spec() {
                Some(x) => f.ensures((x,), r),
                None => r == default,
            },
    {
        let held: Option<T> = self.into();
        match held {
            Some(x) => f(x),
            None => default,
        }
    }

    /// `f` applied to the held value, or what `default` computes if there is none. Exactly
    /// one of the two runs.
    fn map_or_else<U, D, F>(self, default: D, f: F) -> (r: U) where
        D: FnOnce() -> U,
        F: FnOnce(T) -> U,

        requires
            <Self as IntoSpec<Option<T>>>::obeys_into_spec(),
            self.into_spec() is Some ==> f.requires((self.into_spec()->0,)),
            self.into_spec() is None ==> default.requires(()),
        ensures
            match self.into_spec() {
                Some(x) => f.ensures((x,), r),
                None => default.ensures((), r),
            },
    {
        let held: Option<T> = self.into();
        match held {
            Some(x) => f(x),
            None => default(),
        }
    }

    /// The held value as a success, or `err` as the failure if there is none.
    fn ok_or<E>(self, err: E) -> (r: Result<T, E>)
        ensures
            <Self as IntoSpec<Option<T>>>::obeys_into_spec() ==> r == (match self.into_spec() {
                Some(x) => Ok::<T, E>(x),
                None => Err::<T, E>(err),
            }),
    {
        let held: Option<T> = self.into();
        held.ok_or(err)
    }

    /// The held value as a success, or what `err` computes as the failure if there is none.
    fn ok_or_else<E, F>(self, err: F) -> (r: Result<T, E>) where F: FnOnce() -> E
        requires
            <Self as IntoSpec<Option<T>>>::obeys_into_spec(),
            self.into_spec() is None ==> err.requires(()),
        ensures
            match self.into_spec() {
                Some(x) => r == Ok::<T, E>(x),
                None => r is Err && err.ensures((), r->Err_0),
            },
    {
        let held: Option<T> = self.into();
        held.ok_or_else(err)
    }

    /// `optb` if a value is held, nothing otherwise.
    fn and<U>(self, optb: Option<U>) -> (r: Option<U>)
        ensures
            <Self as IntoSpec<Option<T>>>::obeys_into_spec() ==> r == (match self.into_spec() {
                Some(_) => optb,
                None => None::<U>,
            }),
    {
        let held: Option<T> = self.into();
        match held {
            Some(_) => optb,
            None => None,
        }
    }

    /// What `f` makes of the held value, or nothing if there is none.
    fn and_then<U, F>(self, f: F) -> (r: Option<U>) where F: FnOnce(T) -> Option<U>
        requires
            <Self as IntoSpec<Option<T>>>::obeys_into_spec(),
            self.into_spec() is Some ==> f.requires((self.into_spec()->0,)),
        ensures
            match self.into_spec() {
                Some(x) => f.ensures((x,), r),
                None => r is None,
            },
    {
        let held: Option<T> = self.into();
        held.and_then(f)
    }

    /// The held value if there is one, `optb` otherwise.
    fn or(self, optb: Option<T>) -> (r: Option<T>)
        ensures
            <Self as IntoSpec<Option<T>>>::obeys_into_spec() ==> r == (match self.into_spec() {
                Some(x) => Some(x),
                None => optb,
            }),
    {
        let held: Option<T> = self.into();
        match held {
            Some(x) => Some(x),
            None => optb,
        }
    }

    /// The held value if there is one, what `f` computes otherwise.
    fn or_else<F>(self, f: F) -> (r: Option<T>) where F: FnOnce() -> Option<T>
        requires
            <Self as IntoSpec<Option<T>>>::obeys_into_spec(),
            self.into_spec() is None ==> f.requires(()),
        ensures
            match self.into_spec() {
                Some(x) => r == Some(x),
                None => f.ensures((), r),
            },
    {
        let held: Option<T> = self.into();
        match held {
            Some(x) => Some(x),
            None => f(),
        }
    }
}

/// The methods of `Option` that borrow `self`.
pub trait AsRefOption<T> {
    /// The `Option` that `self` stands for.
    spec fn option_view(&self) -> Option<T>;

    /// Lends the `Option` that `self` stands for.
    fn option_ref(&self) -> (r: &Option<T>)
        ensures
            *r == self.option_view(),
    ;

    /// Whether a value is held.
    fn is_some(&self) -> (r: bool)
        ensures
            r == self.option_view() is Some,
    {
        self.option_ref().is_some()
    }

    /// Whether no value is held.
    fn is_none(&self) -> (r: bool)
        ensures
            r == self.option_view() is None,
    {
        self.option_ref().is_none()
    }

    /// A reference to the held value, if there is one.
    fn as_ref(&self) -> (r: Option<&T>)
        ensures
            match self.option_view() {
                Some(x) => r is Some && *r->0 == x,
                None => r is None,
            },
    {
        self.option_ref().as_ref()
    }

    /// The held values in order: one if a value is held, none otherwise.
    fn iter(&self) -> (r: &[T])
        ensures
            r@ == (match self.option_view() {
                Some(x) => seq![x],
                None => seq![],
            }),
    {
        self.option_ref().as_slice()
    }
}

/// The methods of `Option` that borrow `self` mutably.
pub trait AsMutOption<T> {
    /// The `Option` that `self` stands for.
    spec fn option_slot(&self) -> Option<T>;

    /// Lends the `Option` that `self` stands for; what the borrower leaves there is what
    /// `self` stands for afterwards.
    fn option_mut(&mut self) -> (r: &mut Option<T>)
        ensures
            *r == old(self).option_slot(),
            final(self).option_slot() == *final(r),
    ;

    /// A mutable reference to the held value, if there is one.
    fn as_mut(&mut self) -> (r: Option<&mut T>)
        ensures
            match old(self).option_slot() {
                Some(x) => r is Some && *r->0 == x && final(self).option_slot() == Some(
                    *final(r->0),
                ),
                None => r is None && final(self).option_slot() is None,
            },
    {
        self.option_mut().as_mut()
    }

    /// The held values in order, open to change: one if a value is held, none otherwise.
    fn iter_mut(&mut self) -> (r: &mut [T])
        ensures
            r@ == (match old(self).option_slot() {
                Some(x) => seq![x],
                None => seq![],
            }),
            final(r)@.len() == r@.len(),
            final(self).option_slot() == (match old(self).option_slot() {
                Some(_) => Some(final(r)@[0]),
                None => None,
            }),
    {
        self.option_mut().as_mut_slice()
    }

    /// The held value, after `v` has been put in if there was none.
    fn get_or_insert(&mut self, v: T) -> (r: &mut T)
        ensures
            *r == (match old(self).option_slot() {
                Some(x) => x,
                None => v,
            }),
            final(self).option_slot() == Some(*final(r)),
    {
        self.option_mut().get_or_insert(v)
    }

    /// The held value, after what `f` computes has been put in if there was none. `f` runs
    /// only then.
    fn get_or_insert_with<F>(&mut self, f: F) -> (r: &mut T) where F: FnOnce() -> T
        requires
            old(self).option_slot() is None ==> f.requires(()),
        ensures
            match old(self).option_slot() {
                Some(x) => *r == x,
                None => f.ensures((), *r),
            },
            final(self).option_slot() == Some(*final(r)),
    {
        let slot = self.option_mut();
        if slot.is_none() {
            slot.insert(f())
        } else {
            slot.as_mut().unwrap()
        }
    }

    /// Takes the held value out, if there is one, and leaves nothing behind.
    fn take(&mut self) -> (r: Option<T>)
        ensures
            r == old(self).option_slot(),
            final(self).option_slot() is None,
    {
        self.option_mut().take()
    }
}

impl<T> IntoOption<T> for Checked<T> {
}

impl<T> AsRefOption<T> for Checked<T> {
    open spec fn option_view(&self) -> Option<T> {
        self.0
    }

    fn option_ref(&self) -> (r: &Option<T>) {
        &self.0
    }
}

impl<T> AsMutOption<T> for Checked<T> {
    open spec fn option_slot(&self) -> Option<T> {
        self.0
    }

    fn option_mut(&mut self) -> (r: &mut Option<T>) {
        &mut self.0
    }
}

} // verus!
