//! The descriptors of the devices and backends, and the native calls that
//! each of them makes.

use vstd::prelude::*;
use crate::common::{flag_of, to_pd_bool, PrecisionType};
use crate::config::native::{call_if, Call, ConfigCall, NativeConfig};
use crate::config::{ConfigError, SetConfig};
use crate::utils::{c_str_bytes, c_strs, to_c_str, to_c_strs};

verus! {

/// CPU settings.
#[derive(Debug, Clone)]
pub struct Cpu {
    /// The number of threads of the CPU math library.
    pub threads: Option<i32>,
    /// MKLDNN settings.
    pub mkldnn: Option<Mkldnn>,
}

/// GPU settings.
#[derive(Debug, Clone)]
pub struct Gpu {
    /// The size of the memory pool allocated at the start, in MB.
    pub memory_pool_init_size_mb: u64,
    /// The id of the device.
    pub device_id: i32,
    /// Bind a stream to each thread.
    pub enable_multi_stream: bool,
    /// Accelerate with cuDNN.
    pub enable_cudnn: bool,
    /// TensorRT settings.
    pub enable_tensor_rt: Option<TensorRT>,
}

/// XPU settings.
#[derive(Debug, Clone)]
pub struct Xpu {
    /// The size of the L3 cache to reserve, in MB.
    pub l3_workspace_size_mb: i32,
    /// Whether the reserved L3 cache is locked. An unlocked cache can be
    /// shared by several models, which then run one after the other.
    pub locked: bool,
    /// Whether to search, the first time a convolution of some dimension
    /// runs, for a better algorithm for later ones of that dimension.
    pub autorune: bool,
    /// The autotune file. With one, the algorithms that it names are used
    /// and no search is made.
    pub autotune_file: Option<String>,
    /// The precision that the multi-encoder computes in.
    pub precision: String,
    /// Whether the input of the multi-encoder is of variable length.
    pub adaptive_seqlen: bool,
}

/// ONNX runtime settings.
#[derive(Debug, Clone)]
pub struct ONNXRuntime {
    /// Switch the runtime's own optimisation on.
    pub enable_optimization: bool,
}

/// MKLDNN settings.
#[derive(Debug, Clone)]
pub struct Mkldnn {
    /// The capacity of the cache that MKLDNN keeps per input shape.
    pub cache_size: Option<i32>,
    /// The operators that MKLDNN accelerates.
    pub op: Option<Vec<String>>,
    /// The operators that MKLDNN runs in bfloat16; naming them switches
    /// MKLDNN bfloat16 on.
    pub op_f16: Option<Vec<String>>,
}

/// TensorRT settings.
///
/// TensorRT takes effect only with the GPU enabled. Models that carry LoD
/// information need dynamic shapes.
#[derive(Debug, Clone)]
pub struct TensorRT {
    /// The size of the workspace that TensorRT may use.
    pub workspace_size: i32,
    /// The largest batch size; no batch at run time may exceed it.
    pub max_batch_size: i32,
    /// A subgraph runs under TensorRT only if it has more nodes than this.
    pub min_subgraph_size: i32,
    /// The precision that TensorRT computes in.
    pub precision_type: PrecisionType,
    /// Serialise the optimised engine to disk on the first run and load it
    /// on later ones.
    pub use_static: bool,
    /// Run the offline INT8 calibration.
    pub use_calib_mode: bool,
    /// The dynamic shapes of the input tensors; none are set when empty.
    pub dynamic_shape_info: Vec<DynamicShapeInfo>,
    /// Keep the TensorRT plugins from running in fp16. Read only when
    /// `dynamic_shape_info` is not empty.
    pub disable_plugin_fp16: bool,
    /// Accelerate with the TensorRT OSS plugins.
    pub enable_oss: bool,
    /// Accelerate with TensorRT DLA, on the core of this id.
    pub dla_core: Option<i32>,
}

/// The dynamic shape of one tensor: the range of dimensions that it may
/// have at run time. The three shapes must be of one length.
#[derive(Debug, Clone)]
pub struct DynamicShapeInfo {
    /// The name of the tensor.
    pub name: String,
    /// The smallest shape of the tensor.
    pub min_shape: Vec<i32>,
    /// The largest shape of the tensor.
    pub max_shape: Vec<i32>,
    /// The shape that the engine optimises for.
    pub optim_shape: Vec<i32>,
}

impl DynamicShapeInfo {
    /// The three shapes are of one length.
    pub open spec fn consistent(&self) -> bool {
        self.min_shape.len() == self.max_shape.len() && self.min_shape.len()
            == self.optim_shape.len()
    }

    /// The error that an entry with shapes of different lengths is refused
    /// with.
    pub open spec fn mismatch(&self) -> ConfigError {
        ConfigError::ShapeSizeMismatch {
            min: self.min_shape.len(),
            max: self.max_shape.len(),
            optim: self.optim_shape.len(),
        }
    }

    /// The common length of the three shapes, or the error that says how
    /// they differ.
    pub open spec fn shape_size(&self) -> Result<usize, ConfigError> {
        if self.consistent() {
            Ok(self.min_shape.len())
        } else {
            Err(self.mismatch())
        }
    }

    /// Checks that the three shapes are of one length, and returns it.
    #[inline]
    pub fn check_and_get_shape_size(&self) -> (size: Result<usize, ConfigError>)
        ensures
            size == self.shape_size(),
    {
        if self.min_shape.len() == self.max_shape.len() && self.min_shape.len()
            == self.optim_shape.len() {
            Ok(self.min_shape.len())
        } else {
            Err(
                ConfigError::ShapeSizeMismatch {
                    min: self.min_shape.len(),
                    max: self.max_shape.len(),
                    optim: self.optim_shape.len(),
                },
            )
        }
    }
}

/// `i` is the place of the first entry whose shapes differ in length.
pub open spec fn first_inconsistent(entries: Seq<DynamicShapeInfo>, i: int) -> bool {
    &&& 0 <= i < entries.len()
    &&& !entries[i].consistent()
    &&& forall|j: int| 0 <= j < i ==> (#[trigger] entries[j]).consistent()
}

/// Whether every entry has shapes of one length; if not, the error of the
/// first that has not.
pub open spec fn check_shapes(entries: Seq<DynamicShapeInfo>) -> Result<(), ConfigError> {
    if exists|i: int| first_inconsistent(entries, i) {
        Err(entries[choose|i: int| first_inconsistent(entries, i)].mismatch())
    } else {
        Ok(())
    }
}

/// The check passes if and only if every entry has shapes of one length.
pub proof fn lemma_check_shapes(entries: Seq<DynamicShapeInfo>)
    ensures
        check_shapes(entries) is Ok <==> forall|i: int|
            0 <= i < entries.len() ==> (#[trigger] entries[i]).consistent(),
{
    if exists|i: int| first_inconsistent(entries, i) {
        let i = choose|i: int| first_inconsistent(entries, i);
        assert(!entries[i].consistent());
    } else if exists|i: int| 0 <= i < entries.len() && !(#[trigger] entries[i]).consistent() {
        let i = choose|i: int| 0 <= i < entries.len() && !(#[trigger] entries[i]).consistent();
        lemma_first_inconsistent_exists(entries, i);
    }
}

/// Where some entry is inconsistent, one is the first.
proof fn lemma_first_inconsistent_exists(entries: Seq<DynamicShapeInfo>, i: int)
    requires
        0 <= i < entries.len(),
        !entries[i].consistent(),
    ensures
        exists|k: int| first_inconsistent(entries, k),
    decreases i,
{
    if forall|j: int| 0 <= j < i ==> (#[trigger] entries[j]).consistent() {
        assert(first_inconsistent(entries, i));
    } else {
        let j = choose|j: int| 0 <= j < i && !(#[trigger] entries[j]).consistent();
        lemma_first_inconsistent_exists(entries, j);
    }
}

/// The one call that installs the dynamic shapes of `entries`: the entries
/// flattened into parallel arrays, slot `i` of each array taken from entry
/// `i`.
pub open spec fn dynamic_shape_call(entries: Seq<DynamicShapeInfo>, disable_plugin_fp16: bool)
    -> Call {
    Call::SetTrtDynamicShapeInfo {
        tensor_names: Seq::new(entries.len(), |i: int| c_str_bytes(entries[i].name@)),
        shapes_num: Seq::new(entries.len(), |i: int| entries[i].min_shape.len()),
        min_shapes: Seq::new(entries.len(), |i: int| entries[i].min_shape@),
        max_shapes: Seq::new(entries.len(), |i: int| entries[i].max_shape@),
        optim_shapes: Seq::new(entries.len(), |i: int| entries[i].optim_shape@),
        disable_plugin_fp16: flag_of(disable_plugin_fp16),
    }
}

/// Checks every entry, in order, before anything is built from them.
pub fn check_dynamic_shapes(entries: &Vec<DynamicShapeInfo>) -> (checked: Result<
    (),
    ConfigError,
>)
    ensures
        checked == check_shapes(entries@),
        checked is Ok <==> forall|i: int|
            0 <= i < entries@.len() ==> (#[trigger] entries@[i]).consistent(),
{
    let mut i: usize = 0;
    while i < entries.len()
        invariant
            0 <= i <= entries.len(),
            forall|j: int| 0 <= j < i ==> (#[trigger] entries@[j]).consistent(),
        decreases entries.len() - i,
    {
        match entries[i].check_and_get_shape_size() {
            Ok(_) => {},
            Err(e) => {
                proof {
                    assert(first_inconsistent(entries@, i as int));
                    let k = choose|k: int| first_inconsistent(entries@, k);
                    if k < i {
                        assert(entries@[k].consistent());
                    } else if i < k {
                        assert(entries@[i as int].consistent());
                    }
                }
                return Err(e);
            },
        }
        i = i + 1;
    }
    proof {
        if exists|k: int| first_inconsistent(entries@, k) {
            let k = choose|k: int| first_inconsistent(entries@, k);
            assert(entries@[k].consistent());
        }
    }
    Ok(())
}

/// Flattens the entries into the parallel arrays of the one call that
/// installs them. Every entry is checked before anything is flattened: if
/// one of them has shapes of different lengths, no call is built.
pub fn flatten_dynamic_shapes(entries: &Vec<DynamicShapeInfo>, disable_plugin_fp16: bool) -> (flat:
    Result<ConfigCall, ConfigError>)
    ensures
        match flat {
            Ok(call) => {
                &&& check_shapes(entries@) is Ok
                &&& call@ == dynamic_shape_call(entries@, disable_plugin_fp16)
                &&& call@.well_formed()
            },
            Err(e) => check_shapes(entries@) == Err::<(), ConfigError>(e),
        },
{
    match check_dynamic_shapes(entries) {
        Ok(()) => Ok(flatten_checked(entries, disable_plugin_fp16)),
        Err(e) => Err(e),
    }
}

/// Flattens entries that have passed the check.
fn flatten_checked(entries: &Vec<DynamicShapeInfo>, disable_plugin_fp16: bool) -> (call: ConfigCall)
    requires
        forall|i: int| 0 <= i < entries@.len() ==> (#[trigger] entries@[i]).consistent(),
    ensures
        call@ == dynamic_shape_call(entries@, disable_plugin_fp16),
        call@.well_formed(),
{
    let mut tensor_names: Vec<Vec<u8>> = Vec::new();
    let mut shapes_num: Vec<usize> = Vec::new();
    let mut min_shapes: Vec<Vec<i32>> = Vec::new();
    let mut max_shapes: Vec<Vec<i32>> = Vec::new();
    let mut optim_shapes: Vec<Vec<i32>> = Vec::new();
    let mut i: usize = 0;
    while i < entries.len()
        invariant
            0 <= i <= entries.len(),
            tensor_names@.len() == i,
            shapes_num@.len() == i,
            min_shapes@.len() == i,
            max_shapes@.len() == i,
            optim_shapes@.len() == i,
            forall|j: int| 0 <= j < entries@.len() ==> (#[trigger] entries@[j]).consistent(),
            forall|j: int|
                0 <= j < i ==> (#[trigger] tensor_names@[j])@ == c_str_bytes(entries@[j].name@),
            forall|j: int|
                0 <= j < i ==> #[trigger] shapes_num@[j] == entries@[j].min_shape.len(),
            forall|j: int| 0 <= j < i ==> (#[trigger] min_shapes@[j])@ == entries@[j].min_shape@,
            forall|j: int| 0 <= j < i ==> (#[trigger] max_shapes@[j])@ == entries@[j].max_shape@,
            forall|j: int|
                0 <= j < i ==> (#[trigger] optim_shapes@[j])@ == entries@[j].optim_shape@,
        decreases entries.len() - i,
    {
        let info = &entries[i];
        assert(info.consistent());
        let name = to_c_str(info.name.as_str());
        tensor_names.push(name);
        shapes_num.push(info.min_shape.len());
        min_shapes.push(info.min_shape.clone());
        max_shapes.push(info.max_shape.clone());
        optim_shapes.push(info.optim_shape.clone());
        i = i + 1;
    }
    let call = ConfigCall::SetTrtDynamicShapeInfo {
        tensor_names,
        shapes_num,
        min_shapes,
        max_shapes,
        optim_shapes,
        disable_plugin_fp16: to_pd_bool(disable_plugin_fp16),
    };
    proof {
        let want = dynamic_shape_call(entries@, disable_plugin_fp16);
        assert(call@->SetTrtDynamicShapeInfo_tensor_names =~= want->SetTrtDynamicShapeInfo_tensor_names);
        assert(call@->SetTrtDynamicShapeInfo_shapes_num =~= want->SetTrtDynamicShapeInfo_shapes_num);
        assert(call@->SetTrtDynamicShapeInfo_min_shapes =~= want->SetTrtDynamicShapeInfo_min_shapes);
        assert(call@->SetTrtDynamicShapeInfo_max_shapes =~= want->SetTrtDynamicShapeInfo_max_shapes);
        assert(call@->SetTrtDynamicShapeInfo_optim_shapes =~= want->SetTrtDynamicShapeInfo_optim_shapes);
    }
    call
}

impl TensorRT {
    /// The call that switches the engine on, with its scalar settings.
    pub open spec fn engine_call(&self) -> Call {
        Call::EnableTensorRtEngine {
            workspace_size: self.workspace_size,
            max_batch_size: self.max_batch_size,
            min_subgraph_size: self.min_subgraph_size,
            precision: self.precision_type,
            use_static: flag_of(self.use_static),
            use_calib_mode: flag_of(self.use_calib_mode),
        }
    }

    /// The calls that TensorRT adds to those of the GPU: the engine, the
    /// dynamic shapes if there are any, and then the OSS plugins and the
    /// DLA core, each only if asked for.
    pub open spec fn calls(&self) -> Seq<Call> {
        seq![self.engine_call()] + call_if(
            self.dynamic_shape_info@.len() > 0,
            dynamic_shape_call(self.dynamic_shape_info@, self.disable_plugin_fp16),
        ) + call_if(self.enable_oss, Call::EnableTensorRtOSS) + (match self.dla_core {
            Some(dla_core) => seq![Call::EnableTensorRtDla { dla_core }],
            None => Seq::empty(),
        })
    }

    /// Makes the calls of a descriptor whose dynamic shapes have been
    /// checked.
    fn apply(self, config: &mut NativeConfig)
        requires
            check_shapes(self.dynamic_shape_info@) is Ok,
        ensures
            final(config)@ == old(config)@ + self.calls(),
    {
        let TensorRT {
            workspace_size,
            max_batch_size,
            min_subgraph_size,
            precision_type,
            use_static,
            use_calib_mode,
            dynamic_shape_info,
            disable_plugin_fp16,
            enable_oss,
            dla_core,
        } = self;
        config.push(
            ConfigCall::EnableTensorRtEngine {
                workspace_size,
                max_batch_size,
                min_subgraph_size,
                precision: precision_type,
                use_static: to_pd_bool(use_static),
                use_calib_mode: to_pd_bool(use_calib_mode),
            },
        );
        if !dynamic_shape_info.is_empty() {
            proof {
                lemma_check_shapes(dynamic_shape_info@);
            }
            config.push(flatten_checked(&dynamic_shape_info, disable_plugin_fp16));
        }
        config.push_if(enable_oss, ConfigCall::EnableTensorRtOSS);
        if let Some(dla_core) = dla_core {
            config.push(ConfigCall::EnableTensorRtDla { dla_core });
        }
        assert(config@ =~= old(config)@ + self.calls());
    }
}

impl Gpu {
    /// Checks the part without applying it.
    pub fn validate(&self) -> (checked: Result<(), ConfigError>)
        ensures
            checked == self.check(),
    {
        match &self.enable_tensor_rt {
            Some(tensor_rt) => check_dynamic_shapes(&tensor_rt.dynamic_shape_info),
            None => Ok(()),
        }
    }

    /// Makes the calls of a part that has passed its check.
    pub(crate) fn apply(self, config: &mut NativeConfig)
        requires
            self.check() is Ok,
        ensures
            final(config)@ == old(config)@ + self.calls(),
    {
        let Gpu {
            memory_pool_init_size_mb,
            device_id,
            enable_multi_stream,
            enable_cudnn,
            enable_tensor_rt,
        } = self;

        config.push(ConfigCall::EnableUseGpu { memory_pool_init_size_mb, device_id });
        config.push_if(enable_multi_stream, ConfigCall::EnableGpuMultiStream);
        config.push_if(enable_cudnn, ConfigCall::EnableCudnn);
        assert(config@ =~= old(config)@ + self.device_calls());
        if let Some(tensor_rt) = enable_tensor_rt {
            tensor_rt.apply(config);
        }
        assert(config@ =~= old(config)@ + self.calls());
    }

    /// The calls of the GPU itself, before those of TensorRT.
    pub open spec fn device_calls(&self) -> Seq<Call> {
        seq![
            Call::EnableUseGpu {
                memory_pool_init_size_mb: self.memory_pool_init_size_mb,
                device_id: self.device_id,
            },
        ] + call_if(self.enable_multi_stream, Call::EnableGpuMultiStream) + call_if(
            self.enable_cudnn,
            Call::EnableCudnn,
        )
    }
}

impl SetConfig for Gpu {
    /// A GPU part is refused if and only if it asks for TensorRT with a
    /// dynamic-shape entry whose shapes differ in length.
    open spec fn check(&self) -> Result<(), ConfigError> {
        match self.enable_tensor_rt {
            Some(tensor_rt) => check_shapes(tensor_rt.dynamic_shape_info@),
            None => Ok(()),
        }
    }

    open spec fn calls(&self) -> Seq<Call> {
        self.device_calls() + (match self.enable_tensor_rt {
            Some(tensor_rt) => tensor_rt.calls(),
            None => Seq::empty(),
        })
    }

    /// Checks the whole part first, TensorRT and its dynamic shapes
    /// included, and only then makes the first call.
    fn set_to(self, config: &mut NativeConfig) -> (applied: Result<(), ConfigError>) {
        match self.validate() {
            Ok(()) => {
                self.apply(config);
                Ok(())
            },
            Err(e) => Err(e),
        }
    }
}

impl Default for Cpu {
    /// No thread count and no MKLDNN: the CPU part then makes no call.
    fn default() -> (cpu: Cpu)
        ensures
            cpu.threads is None,
            cpu.mkldnn is None,
    {
        Cpu { threads: None, mkldnn: None }
    }
}

impl Default for Mkldnn {
    /// No cache capacity and no operator list.
    fn default() -> (mkldnn: Mkldnn)
        ensures
            mkldnn.cache_size is None,
            mkldnn.op is None,
            mkldnn.op_f16 is None,
    {
        Mkldnn { cache_size: None, op: None, op_f16: None }
    }
}

impl Mkldnn {
    /// The calls of MKLDNN: the cache capacity if it is positive, the list
    /// of accelerated operators if there is one, and, if there is a list of
    /// bfloat16 operators, the bfloat16 switch followed by that list.
    pub open spec fn calls(&self) -> Seq<Call> {
        (match self.cache_size {
            Some(capacity) => call_if(capacity > 0, Call::SetMkldnnCacheCapacity { capacity }),
            None => Seq::empty(),
        }) + (match self.op {
            Some(ops) => seq![Call::SetMkldnnOp { ops: c_strs(ops@) }],
            None => Seq::empty(),
        }) + (match self.op_f16 {
            Some(ops) => seq![Call::EnableMkldnnBfloat16, Call::SetBfloat16Op { ops: c_strs(ops@) }],
            None => Seq::empty(),
        })
    }

    /// Makes the calls of the descriptor.
    fn apply(self, config: &mut NativeConfig)
        ensures
            final(config)@ == old(config)@ + self.calls(),
    {
        let Mkldnn { cache_size, op, op_f16 } = self;
        if let Some(cache) = cache_size {
            config.push_if(cache > 0, ConfigCall::SetMkldnnCacheCapacity { capacity: cache });
        }
        if let Some(op) = op {
            config.push(ConfigCall::SetMkldnnOp { ops: to_c_strs(&op) });
        }
        if let Some(op) = op_f16 {
            config.push(ConfigCall::EnableMkldnnBfloat16);
            config.push(ConfigCall::SetBfloat16Op { ops: to_c_strs(&op) });
        }
        assert(config@ =~= old(config)@ + self.calls());
    }
}

impl SetConfig for Cpu {
    open spec fn check(&self) -> Result<(), ConfigError> {
        Ok(())
    }

    /// The thread count if it is positive, then the calls of MKLDNN.
    open spec fn calls(&self) -> Seq<Call> {
        (match self.threads {
            Some(threads) => call_if(threads > 0, Call::SetCpuMathLibraryNumThreads { threads }),
            None => Seq::empty(),
        }) + (match self.mkldnn {
            Some(mkldnn) => mkldnn.calls(),
            None => Seq::empty(),
        })
    }

    fn set_to(self, config: &mut NativeConfig) -> (applied: Result<(), ConfigError>) {
        let Cpu { threads, mkldnn } = self;
        if let Some(t) = threads {
            config.push_if(t > 0, ConfigCall::SetCpuMathLibraryNumThreads { threads: t });
        }
        if let Some(mkldnn) = mkldnn {
            mkldnn.apply(config);
        }
        assert(config@ =~= old(config)@ + self.calls());
        Ok(())
    }
}

impl Xpu {
    /// The one call of the XPU.
    pub open spec fn enable_call(&self) -> Call {
        Call::EnableXpu {
            l3_workspace_size: self.l3_workspace_size_mb,
            locked: flag_of(self.locked),
            autotune: flag_of(self.autorune),
            autotune_file: match self.autotune_file {
                Some(file) => Some(c_str_bytes(file@)),
                None => None,
            },
            encoder_precision: c_str_bytes(self.precision@),
            adaptive_seqlen: flag_of(self.adaptive_seqlen),
        }
    }
}

impl SetConfig for Xpu {
    open spec fn check(&self) -> Result<(), ConfigError> {
        Ok(())
    }

    open spec fn calls(&self) -> Seq<Call> {
        seq![self.enable_call()]
    }

    fn set_to(self, config: &mut NativeConfig) -> (applied: Result<(), ConfigError>) {
        let Xpu {
            l3_workspace_size_mb,
            locked,
            autorune,
            autotune_file,
            precision,
            adaptive_seqlen,
        } = self;
        let autotune_file = match autotune_file {
            Some(file) => Some(to_c_str(file.as_str())),
            None => None,
        };
        let encoder_precision = to_c_str(precision.as_str());
        config.push(
            ConfigCall::EnableXpu {
                l3_workspace_size: l3_workspace_size_mb,
                locked: to_pd_bool(locked),
                autotune: to_pd_bool(autorune),
                autotune_file,
                encoder_precision,
                adaptive_seqlen: to_pd_bool(adaptive_seqlen),
            },
        );
        Ok(())
    }
}

impl SetConfig for ONNXRuntime {
    open spec fn check(&self) -> Result<(), ConfigError> {
        Ok(())
    }

    /// The runtime, and after it its optimisation if that is asked for.
    open spec fn calls(&self) -> Seq<Call> {
        seq![Call::EnableONNXRuntime] + call_if(
            self.enable_optimization,
            Call::EnableORTOptimization,
        )
    }

    fn set_to(self, config: &mut NativeConfig) -> (applied: Result<(), ConfigError>) {
        config.push(ConfigCall::EnableONNXRuntime);
        config.push_if(self.enable_optimization, ConfigCall::EnableORTOptimization);
        assert(config@ =~= old(config)@ + self.calls());
        Ok(())
    }
}

} // verus!
