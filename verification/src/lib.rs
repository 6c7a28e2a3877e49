//! Write-only handles to locations that may not hold a value yet.
//!
//! An [`Out`] is handed to code that is to produce a value in place. It is made from a
//! location that holds a value (`&mut T`, `&mut [T]`) or from storage that is reserved for
//! one ([`Uninit`], [`UninitSlice`]), and the code that receives it cannot tell which: it can
//! only write. [`AsOut`] is a shorthand for making a handle from any of the four.
//!
//! Every operation is verified against a contract over what the location holds, and the
//! contracts follow the handle back into the caller's storage.

pub mod as_out;
pub mod fill;
pub mod out;
pub mod storage;

pub use crate::as_out::AsOut;
pub use crate::fill::fill_doubling;
pub use crate::out::slice::LengthMismatch;
pub use crate::out::{Out, Place, Pointee};
pub use crate::storage::{Uninit, UninitSlice};
