//! Shader-stage descriptors for a directory of precompiled shader binaries.
//!
//! The crate decides which files of a directory are shader binaries, which
//! pipeline stage each one belongs to, and what the requests and descriptors
//! handed to the graphics API hold. Reading the files and talking to the
//! driver is left to the caller: it lists the directory, lets
//! [`shader_files`] pick the binaries, has the driver make a module for each
//! request of [`ShaderStage::module_create_info`], and hands the loaded
//! shaders to [`ShaderStage::build`].

mod binding;
pub mod naming;
pub mod pattern;
pub mod stage;

pub use crate::naming::{infer_stage, is_shader_file, shader_files, StageKind};
pub use crate::stage::{
    is_valid_entry_name, stages_known, LoadedShader, ModuleCreateInfo, ShaderStage,
    StageCreateInfo,
};
