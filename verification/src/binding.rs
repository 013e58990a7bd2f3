//! Values read from the `ash` Vulkan binding.
//!
//! The functions here are the only ones in the crate whose contracts are
//! taken on trust: each reads one constant of the binding and states the
//! number that the binding defines for it.

use vstd::prelude::*;

verus! {

/// Reads `ash::vk::ShaderStageFlags::VERTEX` as a number. The binding defines
/// the constant as bit 0, and `as_raw` hands out the wrapped number.
#[verifier::external_body]
pub(crate) fn vertex_stage_bits() -> (bits: u32)
    ensures
        bits == 0x1,
{
    ash::vk::ShaderStageFlags::VERTEX.as_raw()
}

/// Reads `ash::vk::ShaderStageFlags::FRAGMENT` as a number. The binding
/// defines the constant as bit 4, and `as_raw` hands out the wrapped number.
#[verifier::external_body]
pub(crate) fn fragment_stage_bits() -> (bits: u32)
    ensures
        bits == 0x10,
{
    ash::vk::ShaderStageFlags::FRAGMENT.as_raw()
}

/// Reads `ash::vk::ShaderModuleCreateFlags::empty()` as a number. The binding
/// builds the empty flag set from 0.
#[verifier::external_body]
pub(crate) fn no_module_flags() -> (bits: u32)
    ensures
        bits == 0,
{
    ash::vk::ShaderModuleCreateFlags::empty().as_raw()
}

/// Reads `ash::vk::PipelineShaderStageCreateFlags::empty()` as a number. The
/// binding builds the empty flag set from 0.
#[verifier::external_body]
pub(crate) fn no_stage_flags() -> (bits: u32)
    ensures
        bits == 0,
{
    ash::vk::PipelineShaderStageCreateFlags::empty().as_raw()
}

/// Reads `ash::vk::StructureType::SHADER_MODULE_CREATE_INFO` as a number. The
/// binding defines the constant as 16.
#[verifier::external_body]
pub(crate) fn module_info_type() -> (code: i32)
    ensures
        code == 16,
{
    ash::vk::StructureType::SHADER_MODULE_CREATE_INFO.as_raw()
}

/// Reads `ash::vk::StructureType::PIPELINE_SHADER_STAGE_CREATE_INFO` as a
/// number. The binding defines the constant as 18.
#[verifier::external_body]
pub(crate) fn stage_info_type() -> (code: i32)
    ensures
        code == 18,
{
    ash::vk::StructureType::PIPELINE_SHADER_STAGE_CREATE_INFO.as_raw()
}

} // verus!
