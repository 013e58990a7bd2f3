//! The builder of shader-stage descriptors and the records it produces.
//!
//! The records hold plain values: flag sets and structure types as the
//! numbers the graphics API defines, module handles as `u64`, chained
//! structures by their address, with 0 for none.

use crate::binding::{module_info_type, no_module_flags, no_stage_flags, stage_info_type};
use crate::naming::{infer_stage, stage_of};
use crate::pattern::chars_of;
use vstd::prelude::*;

verus! {

/// A name can be an entry point if it can be handed on as a C string, that
/// is if it holds no NUL character.
pub open spec fn valid_entry_name(name: Seq<char>) -> bool {
    !name.contains('\0')
}

/// Whether `name` can be an entry point's name.
pub fn is_valid_entry_name(name: &str) -> (b: bool)
    ensures
        b == valid_entry_name(name@),
{
    let chars = chars_of(name);
    let mut i: usize = 0;
    while i < chars.len()
        invariant
            i <= chars.len(),
            chars@ == name@,
            forall|j: int| 0 <= j < i ==> chars@[j] != '\0',
        decreases chars.len() - i,
    {
        if chars[i] == '\0' {
            return false;
        }
        i += 1;
    }
    true
}

/// A shader binary together with the module that the driver made of it.
#[derive(Clone, Debug, PartialEq, Eq)]
pub struct LoadedShader {
    /// Path of the file the binary was read from.
    pub path: String,
    /// Handle of the shader module.
    pub module: u64,
}

/// What a [`LoadedShader`] stands for.
pub struct LoadedShaderView {
    pub path: Seq<char>,
    pub module: u64,
}

impl View for LoadedShader {
    type V = LoadedShaderView;

    open spec fn view(&self) -> LoadedShaderView {
        LoadedShaderView { path: self.path@, module: self.module }
    }
}

/// The request to make a shader module out of a binary.
#[derive(Clone, Debug, PartialEq, Eq)]
pub struct ModuleCreateInfo {
    /// Structure type of the request.
    pub s_type: i32,
    /// Address of a structure that extends the request.
    pub p_next: usize,
    /// Flags of the module.
    pub flags: u32,
    /// Length of `code` in bytes.
    pub code_size: usize,
    /// The binary.
    pub code: Vec<u8>,
}

/// What a [`ModuleCreateInfo`] stands for.
pub struct ModuleCreateInfoView {
    pub s_type: i32,
    pub p_next: usize,
    pub flags: u32,
    pub code_size: nat,
    pub code: Seq<u8>,
}

impl View for ModuleCreateInfo {
    type V = ModuleCreateInfoView;

    open spec fn view(&self) -> ModuleCreateInfoView {
        ModuleCreateInfoView {
            s_type: self.s_type,
            p_next: self.p_next,
            flags: self.flags,
            code_size: self.code_size as nat,
            code: self.code@,
        }
    }
}

/// The descriptor of one stage of a pipeline.
#[derive(Clone, Debug, PartialEq, Eq)]
pub struct StageCreateInfo {
    /// Structure type of the descriptor.
    pub s_type: i32,
    /// Address of a structure that extends the descriptor.
    pub p_next: usize,
    /// Flags of the stage.
    pub flags: u32,
    /// The stage, as its bit in a set of stage flags.
    pub stage: u32,
    /// Handle of the shader module.
    pub module: u64,
    /// Name of the entry point.
    pub name: String,
    /// Address of the specialization constants.
    pub specialization_info: usize,
}

/// What a [`StageCreateInfo`] stands for.
pub struct StageCreateInfoView {
    pub s_type: i32,
    pub p_next: usize,
    pub flags: u32,
    pub stage: u32,
    pub module: u64,
    pub name: Seq<char>,
    pub specialization_info: usize,
}

impl View for StageCreateInfo {
    type V = StageCreateInfoView;

    open spec fn view(&self) -> StageCreateInfoView {
        StageCreateInfoView {
            s_type: self.s_type,
            p_next: self.p_next,
            flags: self.flags,
            stage: self.stage,
            module: self.module,
            name: self.name@,
            specialization_info: self.specialization_info,
        }
    }
}

/// Builder of the stage descriptors for the shader binaries of a directory.
#[derive(Clone, Debug)]
pub struct ShaderStage<'a> {
    /// Directory that holds the binaries.
    pub dir_path: &'a str,
    /// Flags of every shader module.
    pub shader_flags: u32,
    /// Address of a structure that extends every module request.
    pub shader_p_next: usize,
    /// Name of the entry point of every shader.
    pub main_function_name: String,
    /// Flags of every stage.
    pub shader_stage_flags: u32,
    /// Address of a structure that extends every stage descriptor.
    pub shader_stage_p_next: usize,
    /// Address of the specialization constants of every stage.
    pub spec_info: usize,
}

/// What a [`ShaderStage`] stands for.
pub struct ShaderStageView {
    pub dir_path: Seq<char>,
    pub shader_flags: u32,
    pub shader_p_next: usize,
    pub main_function_name: Seq<char>,
    pub shader_stage_flags: u32,
    pub shader_stage_p_next: usize,
    pub spec_info: usize,
}

impl<'a> View for ShaderStage<'a> {
    type V = ShaderStageView;

    open spec fn view(&self) -> ShaderStageView {
        ShaderStageView {
            dir_path: self.dir_path@,
            shader_flags: self.shader_flags,
            shader_p_next: self.shader_p_next,
            main_function_name: self.main_function_name@,
            shader_stage_flags: self.shader_stage_flags,
            shader_stage_p_next: self.shader_stage_p_next,
            spec_info: self.spec_info,
        }
    }
}

impl ShaderStageView {
    /// The builder for `dir_path` before any setting was changed: no flags,
    /// no chained structures, no specialization constants, entry point
    /// `main`.
    pub open spec fn initial(dir_path: Seq<char>) -> ShaderStageView {
        ShaderStageView {
            dir_path,
            shader_flags: 0,
            shader_p_next: 0,
            main_function_name: "main"@,
            shader_stage_flags: 0,
            shader_stage_p_next: 0,
            spec_info: 0,
        }
    }

    /// The entry point's name can be handed to the driver.
    pub open spec fn wf(self) -> bool {
        valid_entry_name(self.main_function_name)
    }

    /// The request for the module of the binary `code`.
    pub open spec fn module_info(self, code: Seq<u8>) -> ModuleCreateInfoView {
        ModuleCreateInfoView {
            s_type: 16,
            p_next: self.shader_p_next,
            flags: self.shader_flags,
            code_size: code.len(),
            code,
        }
    }

    /// The descriptor of the stage that `shader` is loaded for. The stage is
    /// the one that the shader's path names.
    pub open spec fn stage_info(self, shader: LoadedShaderView) -> StageCreateInfoView
        recommends
            stage_of(shader.path) is Some,
    {
        StageCreateInfoView {
            s_type: 18,
            p_next: self.shader_stage_p_next,
            flags: self.shader_stage_flags,
            stage: stage_of(shader.path).unwrap().spec_flag_bits(),
            module: shader.module,
            name: self.main_function_name,
            specialization_info: self.spec_info,
        }
    }
}

/// Every shader's path names a stage.
pub open spec fn all_stages_known(shaders: Seq<LoadedShader>) -> bool {
    forall|i: int| 0 <= i < shaders.len() ==> stage_of(#[trigger] shaders[i].path@) is Some
}

/// Whether every shader's path names a stage.
pub fn stages_known(shaders: &Vec<LoadedShader>) -> (b: bool)
    ensures
        b == all_stages_known(shaders@),
{
    let mut i: usize = 0;
    while i < shaders.len()
        invariant
            i <= shaders.len(),
            forall|j: int| 0 <= j < i ==> stage_of(#[trigger] shaders@[j].path@) is Some,
        decreases shaders.len() - i,
    {
        if infer_stage(shaders[i].path.as_str()).is_none() {
            return false;
        }
        i += 1;
    }
    true
}

impl<'a> ShaderStage<'a> {
    /// The entry point's name can be handed to the driver.
    pub open spec fn wf(&self) -> bool {
        self@.wf()
    }

    /// A builder for the binaries under `dir_path`, with no flags, no chained
    /// structures, no specialization constants and the entry point `main`.
    pub fn new(dir_path: &'a str) -> (stage: Self)
        ensures
            stage@ == ShaderStageView::initial(dir_path@),
            stage.wf(),
    {
        proof {
            reveal_strlit("main");
        }
        ShaderStage {
            dir_path,
            shader_flags: no_module_flags(),
            shader_p_next: 0,
            main_function_name: "main".to_owned(),
            shader_stage_flags: no_stage_flags(),
            shader_stage_p_next: 0,
            spec_info: 0,
        }
    }

    /// Sets the flags of every shader module.
    pub fn with_shader_flags(&mut self, shader_flags: u32)
        ensures
            final(self)@ == (ShaderStageView { shader_flags, ..old(self)@ }),
            final(self).wf() == old(self).wf(),
    {
        self.shader_flags = shader_flags;
    }

    /// Sets the address of the structure that extends every module request.
    pub fn with_shader_p_next(&mut self, p_next: usize)
        ensures
            final(self)@ == (ShaderStageView { shader_p_next: p_next, ..old(self)@ }),
            final(self).wf() == old(self).wf(),
    {
        self.shader_p_next = p_next;
    }

    /// Sets the flags of every stage.
    pub fn with_shader_stage_flags(&mut self, shader_stage_flags: u32)
        ensures
            final(self)@ == (ShaderStageView { shader_stage_flags, ..old(self)@ }),
            final(self).wf() == old(self).wf(),
    {
        self.shader_stage_flags = shader_stage_flags;
    }

    /// Sets the address of the structure that extends every stage descriptor.
    pub fn with_shader_stage_p_next(&mut self, p_next: usize)
        ensures
            final(self)@ == (ShaderStageView { shader_stage_p_next: p_next, ..old(self)@ }),
            final(self).wf() == old(self).wf(),
    {
        self.shader_stage_p_next = p_next;
    }

    /// Sets the address of the specialization constants of every stage.
    pub fn with_spec_info(&mut self, spec_info: usize)
        ensures
            final(self)@ == (ShaderStageView { spec_info, ..old(self)@ }),
            final(self).wf() == old(self).wf(),
    {
        self.spec_info = spec_info;
    }

    /// Sets the name of the entry point of every shader. The name must hold
    /// no NUL character; [`is_valid_entry_name`] tells whether it does.
    pub fn with_main_function_name(&mut self, main_function_name: &str)
        requires
            valid_entry_name(main_function_name@),
        ensures
            final(self)@ == (ShaderStageView {
                main_function_name: main_function_name@,
                ..old(self)@
            }),
            final(self).wf(),
    {
        self.main_function_name = main_function_name.to_owned();
    }

    /// The request to make a shader module out of the binary `code`.
    pub fn module_create_info(&self, code: Vec<u8>) -> (info: ModuleCreateInfo)
        ensures
            info@ == self@.module_info(code@),
    {
        ModuleCreateInfo {
            s_type: module_info_type(),
            p_next: self.shader_p_next,
            flags: self.shader_flags,
            code_size: code.len(),
            code,
        }
    }

    /// Builds one stage descriptor for each loaded shader, in their order.
    /// Every shader's path must name a stage; [`stages_known`] tells whether
    /// that is so.
    pub fn build(self, shaders: &Vec<LoadedShader>) -> (infos: Vec<StageCreateInfo>)
        requires
            self.wf(),
            all_stages_known(shaders@),
        ensures
            infos@.len() == shaders@.len(),
            forall|i: int|
                0 <= i < shaders@.len() ==> (#[trigger] infos@[i])@ == self@.stage_info(
                    shaders@[i]@,
                ),
            forall|i: int| 0 <= i < infos@.len() ==> valid_entry_name(#[trigger] infos@[i].name@),
    {
        let s_type: i32 = stage_info_type();
        let mut infos: Vec<StageCreateInfo> = Vec::new();
        let mut i: usize = 0;
        while i < shaders.len()
            invariant
                i <= shaders.len(),
                s_type == 18,
                all_stages_known(shaders@),
                infos@.len() == i,
                forall|j: int|
                    0 <= j < i ==> (#[trigger] infos@[j])@ == self@.stage_info(shaders@[j]@),
            decreases shaders.len() - i,
        {
            let shader = &shaders[i];
            let kind = infer_stage(shader.path.as_str()).unwrap();
            infos.push(
                StageCreateInfo {
                    s_type,
                    p_next: self.shader_stage_p_next,
                    flags: self.shader_stage_flags,
                    stage: kind.flag_bits(),
                    module: shader.module,
                    name: self.main_function_name.clone(),
                    specialization_info: self.spec_info,
                },
            );
            i += 1;
        }
        infos
    }
}

} // verus!
