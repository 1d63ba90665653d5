use vstd::prelude::*;

verus! {

/// The fatal ways a scene load can end. Each aborts the whole load: no
/// partial scene is ever produced.
#[derive(Clone, Copy, PartialEq, Eq, Structural, Debug)]
pub enum LoadError {
    /// A primitive supplies no position attribute.
    MissingPositions,
    /// A primitive supplies no normal attribute.
    MissingNormals,
    /// A primitive supplies no texture-coordinate attribute.
    MissingTexCoords,
    /// A base-color image has a channel count other than four, three or one.
    UnsupportedDiffuseFormat,
}

} // verus!
