//! A reference-counted, interior-mutable container with cheap change detection.
//!
//! [`Mrc`] shares one value between all of its clones. Every mutable access stamps
//! the handle with a fresh version drawn from a [`NonceSource`], and two handles
//! compare equal only when they share storage and carry the same version, so a
//! mutation through a handle is never mistaken for "unchanged".
pub mod cell_specs;
pub mod mrc;
pub mod nonce;

pub use mrc::{BorrowConflict, Mrc};
pub use nonce::NonceSource;
