//! Shader modules: bytecode that is handed on as it came.

use vstd::prelude::*;

verus! {

/// Everything that the creation of a shader module is told, besides the
/// bytecode itself.
#[derive(Clone, Copy, Debug, PartialEq, Eq, Structural)]
pub struct ShaderModule {
    /// The length of the bytecode, in bytes.
    pub code_size: usize,
}

impl ShaderModule {
    /// Describes the module made of `code`, all of it.
    pub fn new(code: &[u8]) -> (module: ShaderModule)
        ensures
            module.code_size == code@.len(),
    {
        ShaderModule { code_size: code.len() }
    }
}

} // verus!
