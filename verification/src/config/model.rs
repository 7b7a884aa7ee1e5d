//! Where the model comes from.

use vstd::prelude::*;
use crate::config::native::{Call, ConfigCall, NativeConfig};
use crate::config::{ConfigError, SetConfig};
use crate::utils::{c_str_bytes, to_c_str};

verus! {

/// The source of the model: two files on disk, or two buffers in memory.
#[derive(Debug, Clone)]
pub enum Model {
    /// The paths of the program file and of the parameter file.
    Path { model_file: String, params_file: String },
    /// The program and the parameters, as read from such files.
    Memory { model_buffer: Vec<u8>, params_buffer: Vec<u8> },
}

impl Model {
    /// The one call that loads the model.
    pub open spec fn load_call(&self) -> Call {
        match *self {
            Model::Path { model_file, params_file } => Call::SetModel {
                prog_file: c_str_bytes(model_file@),
                params_file: c_str_bytes(params_file@),
            },
            Model::Memory { model_buffer, params_buffer } => Call::SetModelBuffer {
                prog_buffer: model_buffer@,
                params_buffer: params_buffer@,
            },
        }
    }
}

impl SetConfig for Model {
    open spec fn check(&self) -> Result<(), ConfigError> {
        Ok(())
    }

    open spec fn calls(&self) -> Seq<Call> {
        seq![self.load_call()]
    }

    fn set_to(self, config: &mut NativeConfig) -> (applied: Result<(), ConfigError>) {
        match self {
            Model::Path { model_file, params_file } => {
                config.push(
                    ConfigCall::SetModel {
                        prog_file: to_c_str(model_file.as_str()),
                        params_file: to_c_str(params_file.as_str()),
                    },
                );
            },
            Model::Memory { model_buffer, params_buffer } => {
                config.push(
                    ConfigCall::SetModelBuffer {
                        prog_buffer: model_buffer,
                        params_buffer: params_buffer,
                    },
                );
            },
        }
        Ok(())
    }
}

} // verus!
