//! Wraps an owned or borrowed value.
//!
//! This allows you to hold either an owned or borrowed value, allowing your
//! data type to be either `'static` or `'temporary`.
//!
//! [`OwnedOrRef`] holds an owned value or an immutable reference to one;
//! [`OwnedOrMutRef`] holds an owned value or a mutable reference to one.
//! Both offer a `reborrow` method that borrows the held value anew with a
//! shorter lifetime, without copying or changing it.

pub use crate::{owned_or_mut_ref::OwnedOrMutRef, owned_or_ref::OwnedOrRef};

pub mod owned_or_mut_ref;
pub mod owned_or_ref;
