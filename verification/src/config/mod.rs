//! The configuration of a predictor, and the native calls that it makes.
//!
//! A [`Config`] is plain data: building, copying and checking one makes no
//! native call. Applying it walks it once, part by part in the one order
//! that the engine accepts, and records the calls on a [`NativeConfig`].

pub mod lite_engine;
pub mod model;
pub mod native;
pub mod order;
pub mod safety;
pub mod setting;

use vstd::prelude::*;
use crate::common::{flag_of, PD_Bool, FALSE, TRUE};
use crate::config::lite_engine::LiteEngine;
use crate::config::model::Model;
use crate::config::native::{call_if, Call, ConfigCall, NativeConfig, Section};
use crate::config::setting::{lemma_check_shapes, Cpu, Gpu, ONNXRuntime, Xpu};
use crate::utils::{c_str_bytes, to_c_str};

verus! {

/// Why a configuration is refused before any native call is made for the
/// part that holds the fault.
#[derive(Debug, Clone, Copy, PartialEq, Eq, Structural)]
pub enum ConfigError {
    /// The minimum, maximum and optimal shape of a dynamic-shape entry are
    /// not of one length. The three lengths are those of the first such
    /// entry.
    ShapeSizeMismatch { min: usize, max: usize, optim: usize },
}

/// A part of the configuration that can be applied to the native
/// configuration handle.
pub trait SetConfig: Sized {
    /// Whether the part can be applied, and if not, why.
    spec fn check(&self) -> Result<(), ConfigError>;

    /// The calls that applying the part makes, in order.
    spec fn calls(&self) -> Seq<Call>;

    /// Applies the part to `config`. A part that fails its check is refused
    /// before any call is made, and `config` is as it was.
    fn set_to(self, config: &mut NativeConfig) -> (applied: Result<(), ConfigError>)
        ensures
            applied == self.check(),
            applied is Ok ==> final(config)@ == old(config)@ + self.calls(),
            applied is Err ==> final(config)@ == old(config)@,
    ;
}

/// The calls of a part that may be absent: none when it is.
pub open spec fn calls_of<T: SetConfig>(part: Option<T>) -> Seq<Call> {
    match part {
        Some(part) => part.calls(),
        None => Seq::empty(),
    }
}

/// Applies a part that may be absent and that, if present, is never
/// refused.
fn set_part<T: SetConfig>(part: Option<T>, config: &mut NativeConfig)
    requires
        part matches Some(p) ==> p.check() is Ok,
    ensures
        final(config)@ == old(config)@ + calls_of(part),
{
    if let Some(p) = part {
        let _ = p.set_to(config);
    }
    assert(config@ =~= old(config)@ + calls_of(part));
}

/// Applies GPU settings that may be absent and that, if present, have
/// passed their check.
fn set_checked(gpu: Option<Gpu>, config: &mut NativeConfig)
    requires
        gpu matches Some(g) ==> g.check() is Ok,
    ensures
        final(config)@ == old(config)@ + calls_of(gpu),
{
    if let Some(g) = gpu {
        g.apply(config);
    }
    assert(config@ =~= old(config)@ + calls_of(gpu));
}

/// What a predictor is built from.
#[derive(Debug, Clone)]
pub struct Config {
    /// The source of the model.
    pub model: Model,
    /// CPU settings.
    pub cpu: Cpu,
    /// GPU settings.
    pub gpu: Option<Gpu>,
    /// XPU settings.
    pub xpu: Option<Xpu>,
    /// ONNX runtime settings.
    pub onnx_runtime: Option<ONNXRuntime>,
    /// IR optimisation; on by default.
    pub ir_optimization: PD_Bool,
    /// Print the IR after each pass of the graph analysis; off by default.
    pub ir_debug: PD_Bool,
    /// Lite subgraph settings.
    pub lite: Option<LiteEngine>,
    /// Reuse of memory between tensors; on by default.
    pub memory_optimization: PD_Bool,
    /// The directory of the optimisation cache. TensorRT INT8 with a model
    /// loaded from memory needs one.
    pub optimization_cache_dir: Option<String>,
    /// Switch FC padding off.
    pub disable_fc_padding: bool,
    /// Profile the run: the share of time of each operator is printed at
    /// the end.
    pub profile: bool,
    /// Switch the engine's log off.
    pub disable_log: bool,
}

impl Config {
    /// The configuration of a model with every setting at its default: the
    /// CPU alone, IR and memory optimisation on, everything else off.
    pub fn new(model: Model) -> (config: Config)
        ensures
            config == (Config {
                model,
                cpu: Cpu { threads: None, mkldnn: None },
                gpu: None,
                xpu: None,
                onnx_runtime: None,
                ir_optimization: TRUE,
                ir_debug: FALSE,
                lite: None,
                memory_optimization: TRUE,
                optimization_cache_dir: None,
                disable_fc_padding: false,
                profile: false,
                disable_log: false,
            }),
    {
        Self {
            model,
            cpu: Default::default(),
            gpu: None,
            xpu: None,
            onnx_runtime: None,
            ir_optimization: 1,
            ir_debug: 0,
            lite: None,
            memory_optimization: 1,
            optimization_cache_dir: None,
            disable_fc_padding: false,
            profile: false,
            disable_log: false,
        }
    }

    /// Switches the engine's log off.
    pub fn disable_log_info(self) -> (config: Config)
        ensures
            config == (Config { disable_log: true, ..self }),
    {
        let mut config = self;
        config.disable_log = true;
        config
    }

    /// Switches profiling on.
    pub fn enable_profile(self) -> (config: Config)
        ensures
            config == (Config { profile: true, ..self }),
    {
        let mut config = self;
        config.profile = true;
        config
    }

    /// Switches FC padding off.
    pub fn disable_fc_padding(self) -> (config: Config)
        ensures
            config == (Config { disable_fc_padding: true, ..self }),
    {
        let mut config = self;
        config.disable_fc_padding = true;
        config
    }

    /// Sets the directory of the optimisation cache.
    pub fn set_optimization_cache_dir(self, dir: &str) -> (config: Config)
        ensures
            config.optimization_cache_dir matches Some(set) && set@ == dir@,
            config == (Config { optimization_cache_dir: config.optimization_cache_dir, ..self }),
    {
        let mut config = self;
        config.optimization_cache_dir = Some(dir.to_owned());
        config
    }

    /// Switches the reuse of memory on.
    pub fn enable_memory_optimization(self) -> (config: Config)
        ensures
            config == (Config { memory_optimization: TRUE, ..self }),
    {
        let mut config = self;
        config.memory_optimization = 1;
        config
    }

    /// Switches the Lite subgraph engine on.
    pub fn enable_lite_engine(self, lite_engine: LiteEngine) -> (config: Config)
        ensures
            config == (Config { lite: Some(lite_engine), ..self }),
    {
        let mut config = self;
        config.lite = Some(lite_engine);
        config
    }

    /// Sets the IR optimisation switch.
    pub fn ir_optimization(self, enable: bool) -> (config: Config)
        ensures
            config == (Config { ir_optimization: flag_of(enable), ..self }),
    {
        let mut config = self;
        config.ir_optimization = if enable {
            1
        } else {
            0
        };
        config
    }

    /// Sets the IR debug switch.
    pub fn ir_debug(self, debug: bool) -> (config: Config)
        ensures
            config == (Config { ir_debug: flag_of(debug), ..self }),
    {
        let mut config = self;
        config.ir_debug = if debug {
            1
        } else {
            0
        };
        config
    }

    /// Sets the CPU settings.
    pub fn cpu(self, cpu: Cpu) -> (config: Config)
        ensures
            config == (Config { cpu, ..self }),
    {
        let mut config = self;
        config.cpu = cpu;
        config
    }

    /// Sets the GPU settings, and with them switches the GPU on.
    pub fn gpu(self, gpu: Gpu) -> (config: Config)
        ensures
            config == (Config { gpu: Some(gpu), ..self }),
    {
        let mut config = self;
        config.gpu = Some(gpu);
        config
    }

    /// Sets the XPU settings, and with them switches the XPU on.
    pub fn xpu(self, xpu: Xpu) -> (config: Config)
        ensures
            config == (Config { xpu: Some(xpu), ..self }),
    {
        let mut config = self;
        config.xpu = Some(xpu);
        config
    }

    /// Sets the ONNX runtime settings, and with them switches the runtime
    /// on.
    pub fn onnx_runtime(self, onnx_runtime: ONNXRuntime) -> (config: Config)
        ensures
            config == (Config { onnx_runtime: Some(onnx_runtime), ..self }),
    {
        let mut config = self;
        config.onnx_runtime = Some(onnx_runtime);
        config
    }

    /// Checks the configuration without applying it. No native resource is
    /// needed for this, and none is touched.
    pub fn validate(&self) -> (checked: Result<(), ConfigError>)
        ensures
            checked == self.check(),
    {
        match &self.gpu {
            Some(gpu) => gpu.validate(),
            None => Ok(()),
        }
    }

    /// The calls that one section of the configuration makes, in order.
    pub open spec fn part(&self, section: Section) -> Seq<Call> {
        match section {
            Section::Model => self.model.calls(),
            Section::Cpu => self.cpu.calls(),
            Section::Gpu => calls_of(self.gpu),
            Section::Xpu => calls_of(self.xpu),
            Section::OnnxRuntime => calls_of(self.onnx_runtime),
            Section::IrOptim => seq![Call::SwitchIrOptim { enable: self.ir_optimization }],
            Section::IrDebug => seq![Call::SwitchIrDebug { enable: self.ir_debug }],
            Section::Lite => calls_of(self.lite),
            Section::MemoryOptim => seq![
                Call::EnableMemoryOptim { enable: self.memory_optimization },
            ],
            Section::CacheDir => match self.optimization_cache_dir {
                Some(dir) => seq![Call::SetOptimCacheDir { dir: c_str_bytes(dir@) }],
                None => Seq::empty(),
            },
            Section::FcPadding => call_if(self.disable_fc_padding, Call::DisableFCPadding),
            Section::Profile => call_if(self.profile, Call::EnableProfile),
            Section::Log => call_if(self.disable_log, Call::DisableGlogInfo),
        }
    }
}

impl SetConfig for Config {
    /// Of all the parts only the GPU can be refused.
    open spec fn check(&self) -> Result<(), ConfigError> {
        match self.gpu {
            Some(gpu) => gpu.check(),
            None => Ok(()),
        }
    }

    /// The calls of the sections one after the other, the model first.
    open spec fn calls(&self) -> Seq<Call> {
        self.part(Section::Model) + self.part(Section::Cpu) + self.part(Section::Gpu) + self.part(
            Section::Xpu,
        ) + self.part(Section::OnnxRuntime) + self.part(Section::IrOptim) + self.part(
            Section::IrDebug,
        ) + self.part(Section::Lite) + self.part(Section::MemoryOptim) + self.part(
            Section::CacheDir,
        ) + self.part(Section::FcPadding) + self.part(Section::Profile) + self.part(Section::Log)
    }

    /// Walks the configuration once. It is checked as a whole first, so
    /// that a configuration with a fault in any part makes no call at all.
    /// The calls are then gathered part by part, in the order of the
    /// sections, and recorded on `config` together.
    fn set_to(self, config: &mut NativeConfig) -> (applied: Result<(), ConfigError>) {
        if let Err(e) = self.validate() {
            return Err(e);
        }
        let Config {
            model,
            cpu,
            gpu,
            xpu,
            onnx_runtime,
            ir_optimization,
            ir_debug,
            lite,
            memory_optimization,
            optimization_cache_dir,
            disable_fc_padding,
            profile,
            disable_log,
        } = self;

        let mut plan = NativeConfig::new();
        let _ = model.set_to(&mut plan);
        assert(plan@ =~= self.part(Section::Model));
        let _ = cpu.set_to(&mut plan);
        set_checked(gpu, &mut plan);
        set_part(xpu, &mut plan);
        set_part(onnx_runtime, &mut plan);
        plan.push(ConfigCall::SwitchIrOptim { enable: ir_optimization });
        plan.push(ConfigCall::SwitchIrDebug { enable: ir_debug });
        set_part(lite, &mut plan);
        plan.push(ConfigCall::EnableMemoryOptim { enable: memory_optimization });
        let ghost switched = plan@;
        if let Some(s) = optimization_cache_dir {
            plan.push(ConfigCall::SetOptimCacheDir { dir: to_c_str(s.as_str()) });
        }
        assert(plan@ =~= switched + self.part(Section::CacheDir));
        plan.push_if(disable_fc_padding, ConfigCall::DisableFCPadding);
        plan.push_if(profile, ConfigCall::EnableProfile);
        plan.push_if(disable_log, ConfigCall::DisableGlogInfo);
        assert(plan@ == self.calls());
        config.append(plan);
        Ok(())
    }
}

/// A configuration that asks for TensorRT with a dynamic-shape entry whose
/// minimum, maximum and optimal shape are not of one length is refused,
/// and no other configuration is.
pub proof fn lemma_refused_iff_mismatch(config: Config)
    ensures
        config.check() is Err <==> (config.gpu matches Some(gpu) && gpu.enable_tensor_rt matches Some(
            tensor_rt,
        ) && exists|i: int|
            0 <= i < tensor_rt.dynamic_shape_info@.len() && !(
            #[trigger] tensor_rt.dynamic_shape_info@[i]).consistent()),
{
    if let Some(gpu) = config.gpu {
        if let Some(tensor_rt) = gpu.enable_tensor_rt {
            lemma_check_shapes(tensor_rt.dynamic_shape_info@);
        }
    }
}

} // verus!
