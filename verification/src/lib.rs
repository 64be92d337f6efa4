//! Verified core of a small OpenGL rendering bootstrap.
//!
//! The library holds the logic that can be checked: resolving logical
//! resource names to paths, validating shader source buffers, deciding a
//! shader's stage from its file name, judging driver compile and link
//! reports, and deriving the vertex-attribute layout of a record from a
//! field descriptor table.  The driver and window calls themselves live
//! outside the library and hand their results in as plain values.

pub mod layout;
pub mod resources;
pub mod shader;

use vstd::prelude::*;

verus! {

/// The character that separates path segments in every path this library
/// builds or takes apart.
pub open spec fn path_sep() -> char {
    '/'
}

} // verus!
