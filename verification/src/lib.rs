//! Reference-counted wrappers over the image handles of a native GUI toolkit.
//!
//! The toolkit owns every image; this library owns the bookkeeping around a
//! handle: whether it is still alive, how many wrappers share it, which call
//! each operation makes into the toolkit, and what is made of the answers.
//! Nothing here crosses the foreign boundary itself. An operation returns the
//! [`call::NativeCall`] to perform, and the functions that work on pixels take
//! what the toolkit reported as plain values.
//!
//! - [`image`]: the wrapper and its operations;
//! - [`refcount`]: the count that the wrappers of one image share;
//! - [`state`]: both as mathematical objects, and what holds of their steps;
//! - [`call`]: the calls into the toolkit;
//! - [`depth`], [`pixels`], [`rgb`]: pixel layout, the size of a pixel store,
//!   and the canonical pixel image;
//! - [`error`]: the one failure that is returned;
//! - [`utils`], [`text`]: what the build of the bindings makes of a program's
//!   output.

pub mod call;
pub mod depth;
pub mod error;
pub mod image;
pub mod pixels;
pub mod refcount;
pub mod rgb;
pub mod state;
pub mod text;
pub mod utils;
