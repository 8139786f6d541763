//! Types shared between the generated code and the runtime.
use vstd::prelude::*;

verus! {

/// The handle that `update` receives for its spatial operators. It has no
/// run-time content: the `#[cell]` attribute translates its uses to WGSL.
pub struct Neighbors {
    _private: (),
}

/// Where one field of a cell's state lives: texture, first channel, and
/// channel count.
pub struct FieldMapping {
    pub name: &'static str,
    pub texture: u32,
    pub offset: u32,
    pub size: u32,
}

} // verus!
