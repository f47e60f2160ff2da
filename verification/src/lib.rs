//! # Own or borrow your data
//!
//! [`OwnOrBorrow`] is one handle for a value that is either owned outright or
//! kept in a [`core::cell::RefCell`], which the handle owns or merely refers
//! to. Reading goes through a [`Reference`], writing through a
//! [`ReferenceMut`], whatever the handle holds.

pub mod cell;
pub mod container;
pub mod error;
pub mod laws;
pub mod render;
pub mod view;

pub use crate::container::OwnOrBorrow;
pub use crate::error::TryIntoError;
pub use crate::view::Reference;
pub use crate::view::ReferenceMut;
