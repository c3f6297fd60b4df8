//! The geometry record levels hand to the host.
//!
//! This subsystem moves faces around but never interprets them: to the
//! loader and the worker a `Face` is an opaque record, so here it is a
//! single tag that the rendering collaborator resolves into real geometry.

use vstd::prelude::*;

verus! {

/// One face of level geometry, opaque to this subsystem.  The tag names the
/// piece of geometry the level means; only the rendering side gives it
/// shape.
#[derive(Clone, Copy, PartialEq, Eq, Structural, Debug)]
pub struct Face {
    pub tag: i64,
}

impl Face {
    /// The face carrying one tag.
    pub fn with_tag(tag: i64) -> (f: Face)
        ensures
            f.tag == tag,
    {
        Face { tag }
    }
}

} // verus!
