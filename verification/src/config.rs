//! Engine-wide configuration choices. Variability that earlier designs
//! spread over type hierarchies is plain data here.

use vstd::prelude::*;

verus! {

/// Which kind of engine a caller asks for.
#[derive(PartialEq, Eq, Structural, Clone, Copy, Debug)]
pub enum EngineType {
    D2,
}

/// Which graphics backend a caller asks for.
#[derive(PartialEq, Eq, Structural, Clone, Copy, Debug)]
pub enum GraphicsAPI {
    WGPU,
}

} // verus!
