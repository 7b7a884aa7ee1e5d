//! The Lite subgraph engine.

use vstd::prelude::*;
use crate::common::{flag_of, to_pd_bool, PrecisionType};
use crate::config::native::{Call, ConfigCall, NativeConfig};
use crate::config::{ConfigError, SetConfig};
use crate::utils::{c_strs, to_c_strs};

verus! {

/// Lite subgraph settings.
#[derive(Debug, Clone)]
pub struct LiteEngine {
    /// The precision that the Lite subgraphs compute in.
    pub precision: PrecisionType,
    /// Whether the subgraphs share their input and output tensors with the
    /// engine, without copying them.
    pub zero_copy: bool,
    /// The optimisation passes that are kept from the subgraphs.
    pub passes_filter: Vec<String>,
    /// The operators that are kept out of the subgraphs.
    pub ops_filter: Vec<String>,
}

impl LiteEngine {
    /// The one call of the Lite engine.
    pub open spec fn enable_call(&self) -> Call {
        Call::EnableLiteEngine {
            precision: self.precision,
            zero_copy: flag_of(self.zero_copy),
            passes_filter: c_strs(self.passes_filter@),
            ops_filter: c_strs(self.ops_filter@),
        }
    }
}

impl SetConfig for LiteEngine {
    open spec fn check(&self) -> Result<(), ConfigError> {
        Ok(())
    }

    open spec fn calls(&self) -> Seq<Call> {
        seq![self.enable_call()]
    }

    fn set_to(self, config: &mut NativeConfig) -> (applied: Result<(), ConfigError>) {
        let LiteEngine { precision, zero_copy, passes_filter, ops_filter } = self;
        config.push(
            ConfigCall::EnableLiteEngine {
                precision,
                zero_copy: to_pd_bool(zero_copy),
                passes_filter: to_c_strs(&passes_filter),
                ops_filter: to_c_strs(&ops_filter),
            },
        );
        Ok(())
    }
}

} // verus!
