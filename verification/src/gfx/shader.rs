//! A shader program together with the pipeline that uses it.

use vstd::prelude::*;

use crate::gfx::command::Command;
use crate::gfx::handle::{Pipeline, Program, ResourceState};

verus! {

/// Why a shader could not be made.
#[derive(Clone, Copy, Debug, PartialEq, Eq, Hash, Structural)]
pub enum ShaderError {
    /// The device did not accept the program: its sources do not compile, or
    /// they use a uniform or an image that the description does not declare.
    ProgramRejected,
    /// The device did not accept the pipeline.
    PipelineRejected,
}

/// Owned shader program and pipeline
#[derive(Debug)]
pub struct Shader {
    shd: Program,
    pip: Pipeline,
}

impl Shader {
    /// The program that the shader owns.
    pub closed spec fn spec_shd(&self) -> Program {
        self.shd
    }

    /// The pipeline that the shader owns.
    pub closed spec fn spec_pip(&self) -> Pipeline {
        self.pip
    }

    /// A shader that owns `shd` and `pip`.
    pub fn new(shd: Program, pip: Pipeline) -> (shader: Self)
        ensures
            shader.shd() == shd,
            shader.pip() == pip,
    {
        Self { shd, pip }
    }

    /// A shader that owns `shd` and `pip`, if the device reports both as valid.
    ///
    /// A program that was rejected is reported before a pipeline that was.
    pub fn checked(
        shd: Program,
        shd_state: ResourceState,
        pip: Pipeline,
        pip_state: ResourceState,
    ) -> (r: Result<Self, ShaderError>)
        ensures
            match r {
                Ok(shader) => {
                    &&& shd_state == ResourceState::Valid
                    &&& pip_state == ResourceState::Valid
                    &&& shader.shd() == shd
                    &&& shader.pip() == pip
                },
                Err(ShaderError::ProgramRejected) => shd_state != ResourceState::Valid,
                Err(ShaderError::PipelineRejected) => {
                    &&& shd_state == ResourceState::Valid
                    &&& pip_state != ResourceState::Valid
                },
            },
    {
        if shd_state != ResourceState::Valid {
            Err(ShaderError::ProgramRejected)
        } else if pip_state != ResourceState::Valid {
            Err(ShaderError::PipelineRejected)
        } else {
            Ok(Self::new(shd, pip))
        }
    }

    #[verifier::when_used_as_spec(spec_shd)]
    pub fn shd(&self) -> (shd: Program)
        ensures
            shd == self.spec_shd(),
    {
        self.shd
    }

    #[verifier::when_used_as_spec(spec_pip)]
    pub fn pip(&self) -> (pip: Pipeline)
        ensures
            pip == self.spec_pip(),
    {
        self.pip
    }

    /// The command that binds the pipeline for the draw calls that follow.
    pub fn apply_pip(&self) -> (cmd: Command)
        ensures
            cmd == (Command::ApplyPipeline { pip: self.pip() }),
    {
        Command::ApplyPipeline { pip: self.pip }
    }

    /// Gives the shader up. Its program and its pipeline are destroyed, each once.
    pub fn release(self) -> (cmds: [Command; 2])
        ensures
            cmds@ == seq![
                Command::DestroyProgram { shd: self.shd() },
                Command::DestroyPipeline { pip: self.pip() },
            ],
    {
        let cmds = [
            Command::DestroyProgram { shd: self.shd },
            Command::DestroyPipeline { pip: self.pip },
        ];
        assert(cmds@ =~= seq![
            Command::DestroyProgram { shd: self.shd() },
            Command::DestroyPipeline { pip: self.pip() },
        ]);
        cmds
    }
}

} // verus!
