//! What the library relies on from `std::cell` and `std::rc`.
use vstd::prelude::*;

verus! {

/// `std::cell::RefCell`: a runtime-checked shared / exclusive borrow of its value.
#[verifier::external_type_specification]
#[verifier::external_body]
#[verifier::reject_recursive_types(T)]
pub struct ExRefCell<T: ?Sized>(std::cell::RefCell<T>);

/// `std::cell::Ref`: a shared borrow out of a `RefCell`, released on drop.
#[verifier::external_type_specification]
#[verifier::external_body]
#[verifier::reject_recursive_types(T)]
pub struct ExRef<'b, T: ?Sized>(std::cell::Ref<'b, T>);

/// `std::cell::RefMut`: an exclusive borrow out of a `RefCell`, released on drop.
#[verifier::external_type_specification]
#[verifier::external_body]
#[verifier::reject_recursive_types(T)]
pub struct ExRefMut<'b, T: ?Sized + 'b>(std::cell::RefMut<'b, T>);

/// `std::cell::BorrowError`: a shared borrow refused while an exclusive one is held.
#[verifier::external_type_specification]
#[verifier::external_body]
pub struct ExBorrowError(std::cell::BorrowError);

/// `std::cell::BorrowMutError`: an exclusive borrow refused while any borrow is held.
#[verifier::external_type_specification]
#[verifier::external_body]
pub struct ExBorrowMutError(std::cell::BorrowMutError);

/// Relies on `RefCell::new`: wraps the value with no borrow outstanding; never panics.
pub assume_specification<T>[ std::cell::RefCell::<T>::new ](value: T) -> (r: std::cell::RefCell<T>);

/// Relies on `RefCell::try_borrow`: `Err` while an exclusive borrow is held; never panics.
pub assume_specification<T: ?Sized>[ std::cell::RefCell::<T>::try_borrow ](
    c: &std::cell::RefCell<T>,
) -> (r: Result<std::cell::Ref<'_, T>, std::cell::BorrowError>);

/// Relies on `RefCell::try_borrow_mut`: `Err` while any borrow is held; never panics.
pub assume_specification<T: ?Sized>[ std::cell::RefCell::<T>::try_borrow_mut ](
    c: &std::cell::RefCell<T>,
) -> (r: Result<std::cell::RefMut<'_, T>, std::cell::BorrowMutError>);

/// Relies on `RefMut`'s `DerefMut`: a mutable reference to the borrowed value.
pub assume_specification<'_0, 'a, T: ?Sized>[ <std::cell::RefMut<'_0, T> as std::ops::DerefMut>::deref_mut ](
    g: &'a mut std::cell::RefMut<'_0, T>,
) -> (r: &'a mut T);

} // verus!
