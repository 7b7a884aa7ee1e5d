//! The native configuration handle, as the ordered record of the calls made
//! on it.
//!
//! Nothing here reaches the engine. A [`NativeConfig`] records, in order,
//! every call that is made on the handle it stands for; whoever
//! owns the real handle replays the record on it, one call after the other,
//! and then hands the handle over to predictor creation.

use vstd::prelude::*;
use crate::common::{PD_Bool, PrecisionType};
use crate::utils::{all_nul_terminated, nul_terminated, seq_views};

verus! {

/// The part of a configuration that a call belongs to, in the order in which
/// the engine wants the parts applied.
#[derive(Debug, Clone, Copy, PartialEq, Eq, Structural)]
pub enum Section {
    /// Loading of the model; always first.
    Model,
    /// CPU threading and MKLDNN.
    Cpu,
    /// GPU, cuDNN and TensorRT.
    Gpu,
    /// XPU.
    Xpu,
    /// ONNX runtime.
    OnnxRuntime,
    /// The IR optimisation switch.
    IrOptim,
    /// The IR debug switch.
    IrDebug,
    /// The Lite subgraph engine.
    Lite,
    /// The memory optimisation switch.
    MemoryOptim,
    /// The optimisation cache directory.
    CacheDir,
    /// Disabling of FC padding.
    FcPadding,
    /// Profiling.
    Profile,
    /// Suppression of the engine's log.
    Log,
}

/// One call on the native configuration handle, with its arguments in the
/// form in which they cross the boundary: native flags, and strings as
/// null-terminated buffers that the call owns until it has returned.
#[derive(Debug, PartialEq, Eq)]
pub enum ConfigCall {
    /// Load the model from a program file and a parameter file.
    SetModel { prog_file: Vec<u8>, params_file: Vec<u8> },
    /// Load the model from two buffers in memory.
    SetModelBuffer { prog_buffer: Vec<u8>, params_buffer: Vec<u8> },
    /// Set the number of threads of the CPU math library.
    SetCpuMathLibraryNumThreads { threads: i32 },
    /// Set the capacity of the MKLDNN shape cache.
    SetMkldnnCacheCapacity { capacity: i32 },
    /// Name the operators that MKLDNN accelerates.
    SetMkldnnOp { ops: Vec<Vec<u8>> },
    /// Switch MKLDNN bfloat16 on.
    EnableMkldnnBfloat16,
    /// Name the operators that MKLDNN runs in bfloat16.
    SetBfloat16Op { ops: Vec<Vec<u8>> },
    /// Switch the GPU on, with the initial size of its memory pool.
    EnableUseGpu { memory_pool_init_size_mb: u64, device_id: i32 },
    /// Bind a stream to each thread.
    EnableGpuMultiStream,
    /// Switch cuDNN on.
    EnableCudnn,
    /// Switch the TensorRT engine on.
    EnableTensorRtEngine {
        workspace_size: i32,
        max_batch_size: i32,
        min_subgraph_size: i32,
        precision: PrecisionType,
        use_static: PD_Bool,
        use_calib_mode: PD_Bool,
    },
    /// Install the dynamic shapes of all tensors at once, as parallel arrays
    /// with one slot per tensor.
    SetTrtDynamicShapeInfo {
        tensor_names: Vec<Vec<u8>>,
        shapes_num: Vec<usize>,
        min_shapes: Vec<Vec<i32>>,
        max_shapes: Vec<Vec<i32>>,
        optim_shapes: Vec<Vec<i32>>,
        disable_plugin_fp16: PD_Bool,
    },
    /// Switch the TensorRT OSS plugins on.
    EnableTensorRtOSS,
    /// Run TensorRT on a DLA core.
    EnableTensorRtDla { dla_core: i32 },
    /// Switch the XPU on. An absent autotune file crosses as a null pointer.
    EnableXpu {
        l3_workspace_size: i32,
        locked: PD_Bool,
        autotune: PD_Bool,
        autotune_file: Option<Vec<u8>>,
        encoder_precision: Vec<u8>,
        adaptive_seqlen: PD_Bool,
    },
    /// Switch the ONNX runtime on.
    EnableONNXRuntime,
    /// Switch the ONNX runtime's own optimisation on.
    EnableORTOptimization,
    /// Set the IR optimisation switch.
    SwitchIrOptim { enable: PD_Bool },
    /// Set the IR debug switch.
    SwitchIrDebug { enable: PD_Bool },
    /// Switch the Lite subgraph engine on.
    EnableLiteEngine {
        precision: PrecisionType,
        zero_copy: PD_Bool,
        passes_filter: Vec<Vec<u8>>,
        ops_filter: Vec<Vec<u8>>,
    },
    /// Set the memory optimisation switch.
    EnableMemoryOptim { enable: PD_Bool },
    /// Set the directory of the optimisation cache.
    SetOptimCacheDir { dir: Vec<u8> },
    /// Switch FC padding off.
    DisableFCPadding,
    /// Switch profiling on.
    EnableProfile,
    /// Switch the engine's log off.
    DisableGlogInfo,
}

/// The mathematical content of a [`ConfigCall`].
pub enum Call {
    SetModel { prog_file: Seq<u8>, params_file: Seq<u8> },
    SetModelBuffer { prog_buffer: Seq<u8>, params_buffer: Seq<u8> },
    SetCpuMathLibraryNumThreads { threads: i32 },
    SetMkldnnCacheCapacity { capacity: i32 },
    SetMkldnnOp { ops: Seq<Seq<u8>> },
    EnableMkldnnBfloat16,
    SetBfloat16Op { ops: Seq<Seq<u8>> },
    EnableUseGpu { memory_pool_init_size_mb: u64, device_id: i32 },
    EnableGpuMultiStream,
    EnableCudnn,
    EnableTensorRtEngine {
        workspace_size: i32,
        max_batch_size: i32,
        min_subgraph_size: i32,
        precision: PrecisionType,
        use_static: PD_Bool,
        use_calib_mode: PD_Bool,
    },
    SetTrtDynamicShapeInfo {
        tensor_names: Seq<Seq<u8>>,
        shapes_num: Seq<usize>,
        min_shapes: Seq<Seq<i32>>,
        max_shapes: Seq<Seq<i32>>,
        optim_shapes: Seq<Seq<i32>>,
        disable_plugin_fp16: PD_Bool,
    },
    EnableTensorRtOSS,
    EnableTensorRtDla { dla_core: i32 },
    EnableXpu {
        l3_workspace_size: i32,
        locked: PD_Bool,
        autotune: PD_Bool,
        autotune_file: Option<Seq<u8>>,
        encoder_precision: Seq<u8>,
        adaptive_seqlen: PD_Bool,
    },
    EnableONNXRuntime,
    EnableORTOptimization,
    SwitchIrOptim { enable: PD_Bool },
    SwitchIrDebug { enable: PD_Bool },
    EnableLiteEngine {
        precision: PrecisionType,
        zero_copy: PD_Bool,
        passes_filter: Seq<Seq<u8>>,
        ops_filter: Seq<Seq<u8>>,
    },
    EnableMemoryOptim { enable: PD_Bool },
    SetOptimCacheDir { dir: Seq<u8> },
    DisableFCPadding,
    EnableProfile,
    DisableGlogInfo,
}

impl View for ConfigCall {
    type V = Call;

    open spec fn view(&self) -> Call {
        match *self {
            ConfigCall::SetModel { prog_file, params_file } => Call::SetModel {
                prog_file: prog_file@,
                params_file: params_file@,
            },
            ConfigCall::SetModelBuffer { prog_buffer, params_buffer } => Call::SetModelBuffer {
                prog_buffer: prog_buffer@,
                params_buffer: params_buffer@,
            },
            ConfigCall::SetCpuMathLibraryNumThreads { threads } => {
                Call::SetCpuMathLibraryNumThreads { threads }
            },
            ConfigCall::SetMkldnnCacheCapacity { capacity } => Call::SetMkldnnCacheCapacity {
                capacity,
            },
            ConfigCall::SetMkldnnOp { ops } => Call::SetMkldnnOp { ops: seq_views(ops@) },
            ConfigCall::EnableMkldnnBfloat16 => Call::EnableMkldnnBfloat16,
            ConfigCall::SetBfloat16Op { ops } => Call::SetBfloat16Op { ops: seq_views(ops@) },
            ConfigCall::EnableUseGpu { memory_pool_init_size_mb, device_id } => {
                Call::EnableUseGpu { memory_pool_init_size_mb, device_id }
            },
            ConfigCall::EnableGpuMultiStream => Call::EnableGpuMultiStream,
            ConfigCall::EnableCudnn => Call::EnableCudnn,
            ConfigCall::EnableTensorRtEngine {
                workspace_size,
                max_batch_size,
                min_subgraph_size,
                precision,
                use_static,
                use_calib_mode,
            } => Call::EnableTensorRtEngine {
                workspace_size,
                max_batch_size,
                min_subgraph_size,
                precision,
                use_static,
                use_calib_mode,
            },
            ConfigCall::SetTrtDynamicShapeInfo {
                tensor_names,
                shapes_num,
                min_shapes,
                max_shapes,
                optim_shapes,
                disable_plugin_fp16,
            } => Call::SetTrtDynamicShapeInfo {
                tensor_names: seq_views(tensor_names@),
                shapes_num: shapes_num@,
                min_shapes: seq_views(min_shapes@),
                max_shapes: seq_views(max_shapes@),
                optim_shapes: seq_views(optim_shapes@),
                disable_plugin_fp16,
            },
            ConfigCall::EnableTensorRtOSS => Call::EnableTensorRtOSS,
            ConfigCall::EnableTensorRtDla { dla_core } => Call::EnableTensorRtDla { dla_core },
            ConfigCall::EnableXpu {
                l3_workspace_size,
                locked,
                autotune,
                autotune_file,
                encoder_precision,
                adaptive_seqlen,
            } => Call::EnableXpu {
                l3_workspace_size,
                locked,
                autotune,
                autotune_file: match autotune_file {
                    Some(file) => Some(file@),
                    None => None,
                },
                encoder_precision: encoder_precision@,
                adaptive_seqlen,
            },
            ConfigCall::EnableONNXRuntime => Call::EnableONNXRuntime,
            ConfigCall::EnableORTOptimization => Call::EnableORTOptimization,
            ConfigCall::SwitchIrOptim { enable } => Call::SwitchIrOptim { enable },
            ConfigCall::SwitchIrDebug { enable } => Call::SwitchIrDebug { enable },
            ConfigCall::EnableLiteEngine { precision, zero_copy, passes_filter, ops_filter } => {
                Call::EnableLiteEngine {
                    precision,
                    zero_copy,
                    passes_filter: seq_views(passes_filter@),
                    ops_filter: seq_views(ops_filter@),
                }
            },
            ConfigCall::EnableMemoryOptim { enable } => Call::EnableMemoryOptim { enable },
            ConfigCall::SetOptimCacheDir { dir } => Call::SetOptimCacheDir { dir: dir@ },
            ConfigCall::DisableFCPadding => Call::DisableFCPadding,
            ConfigCall::EnableProfile => Call::EnableProfile,
            ConfigCall::DisableGlogInfo => Call::DisableGlogInfo,
        }
    }
}

impl Call {
    /// The place of the call in the order that the engine mandates. The
    /// calls of one configuration are made in strictly rising order.
    pub open spec fn order(self) -> nat {
        match self {
            Call::SetModel { .. } => 0,
            Call::SetModelBuffer { .. } => 0,
            Call::SetCpuMathLibraryNumThreads { .. } => 1,
            Call::SetMkldnnCacheCapacity { .. } => 2,
            Call::SetMkldnnOp { .. } => 3,
            Call::EnableMkldnnBfloat16 => 4,
            Call::SetBfloat16Op { .. } => 5,
            Call::EnableUseGpu { .. } => 6,
            Call::EnableGpuMultiStream => 7,
            Call::EnableCudnn => 8,
            Call::EnableTensorRtEngine { .. } => 9,
            Call::SetTrtDynamicShapeInfo { .. } => 10,
            Call::EnableTensorRtOSS => 11,
            Call::EnableTensorRtDla { .. } => 12,
            Call::EnableXpu { .. } => 13,
            Call::EnableONNXRuntime => 14,
            Call::EnableORTOptimization => 15,
            Call::SwitchIrOptim { .. } => 16,
            Call::SwitchIrDebug { .. } => 17,
            Call::EnableLiteEngine { .. } => 18,
            Call::EnableMemoryOptim { .. } => 19,
            Call::SetOptimCacheDir { .. } => 20,
            Call::DisableFCPadding => 21,
            Call::EnableProfile => 22,
            Call::DisableGlogInfo => 23,
        }
    }

    /// The part of the configuration that the call belongs to.
    pub open spec fn section(self) -> Section {
        match self {
            Call::SetModel { .. } | Call::SetModelBuffer { .. } => Section::Model,
            Call::SetCpuMathLibraryNumThreads { .. }
            | Call::SetMkldnnCacheCapacity { .. }
            | Call::SetMkldnnOp { .. }
            | Call::EnableMkldnnBfloat16
            | Call::SetBfloat16Op { .. } => Section::Cpu,
            Call::EnableUseGpu { .. }
            | Call::EnableGpuMultiStream
            | Call::EnableCudnn
            | Call::EnableTensorRtEngine { .. }
            | Call::SetTrtDynamicShapeInfo { .. }
            | Call::EnableTensorRtOSS
            | Call::EnableTensorRtDla { .. } => Section::Gpu,
            Call::EnableXpu { .. } => Section::Xpu,
            Call::EnableONNXRuntime | Call::EnableORTOptimization => Section::OnnxRuntime,
            Call::SwitchIrOptim { .. } => Section::IrOptim,
            Call::SwitchIrDebug { .. } => Section::IrDebug,
            Call::EnableLiteEngine { .. } => Section::Lite,
            Call::EnableMemoryOptim { .. } => Section::MemoryOptim,
            Call::SetOptimCacheDir { .. } => Section::CacheDir,
            Call::DisableFCPadding => Section::FcPadding,
            Call::EnableProfile => Section::Profile,
            Call::DisableGlogInfo => Section::Log,
        }
    }

    /// What the engine relies on when it reads the arguments: every string
    /// ends in a zero byte, and the parallel arrays of a dynamic-shape call
    /// have one slot per tensor, each shape as long as its slot says.
    pub open spec fn well_formed(self) -> bool {
        match self {
            Call::SetModel { prog_file, params_file } => nul_terminated(prog_file)
                && nul_terminated(params_file),
            Call::SetMkldnnOp { ops } => all_nul_terminated(ops),
            Call::SetBfloat16Op { ops } => all_nul_terminated(ops),
            Call::SetTrtDynamicShapeInfo {
                tensor_names,
                shapes_num,
                min_shapes,
                max_shapes,
                optim_shapes,
                ..
            } => {
                &&& shapes_num.len() == tensor_names.len()
                &&& min_shapes.len() == tensor_names.len()
                &&& max_shapes.len() == tensor_names.len()
                &&& optim_shapes.len() == tensor_names.len()
                &&& all_nul_terminated(tensor_names)
                &&& forall|i: int|
                    0 <= i < tensor_names.len() ==> {
                        &&& (#[trigger] min_shapes[i]).len() == shapes_num[i]
                        &&& (#[trigger] max_shapes[i]).len() == shapes_num[i]
                        &&& (#[trigger] optim_shapes[i]).len() == shapes_num[i]
                    }
            },
            Call::EnableXpu { autotune_file, encoder_precision, .. } => {
                &&& nul_terminated(encoder_precision)
                &&& autotune_file matches Some(file) ==> nul_terminated(file)
            },
            Call::EnableLiteEngine { passes_filter, ops_filter, .. } => all_nul_terminated(
                passes_filter,
            ) && all_nul_terminated(ops_filter),
            Call::SetOptimCacheDir { dir } => nul_terminated(dir),
            _ => true,
        }
    }
}

/// The test that a call belongs to `section`.
pub open spec fn in_section(section: Section) -> spec_fn(Call) -> bool {
    |call: Call| call.section() == section
}

/// The call, if it is wanted, and nothing if it is not.
pub open spec fn call_if(wanted: bool, call: Call) -> Seq<Call> {
    if wanted {
        seq![call]
    } else {
        Seq::empty()
    }
}

/// A sequence of calls in strictly rising order.
pub open spec fn ordered(calls: Seq<Call>) -> bool {
    forall|i: int, j: int|
        0 <= i < j < calls.len() ==> (#[trigger] calls[i]).order() < (#[trigger] calls[j]).order()
}

/// A sequence of calls whose places all lie from `low` up to, but not
/// including, `high`.
pub open spec fn within(calls: Seq<Call>, low: nat, high: nat) -> bool {
    forall|i: int| 0 <= i < calls.len() ==> low <= (#[trigger] calls[i]).order() < high
}

/// Two ordered runs of calls, the first wholly below the second, make one
/// ordered run.
pub proof fn lemma_ordered_concat(a: Seq<Call>, b: Seq<Call>, low: nat, mid: nat, high: nat)
    requires
        low <= mid <= high,
        ordered(a),
        ordered(b),
        within(a, low, mid),
        within(b, mid, high),
    ensures
        ordered(a + b),
        within(a + b, low, high),
{
    let c = a + b;
    assert forall|i: int| 0 <= i < c.len() implies low <= (#[trigger] c[i]).order() < high by {
        if i < a.len() {
            assert(c[i] == a[i]);
        } else {
            assert(c[i] == b[i - a.len()]);
        }
    }
    assert forall|i: int, j: int| 0 <= i < j < c.len() implies (#[trigger] c[i]).order() < (
    #[trigger] c[j]).order() by {
        if j < a.len() {
            assert(c[i] == a[i] && c[j] == a[j]);
        } else if i < a.len() {
            assert(c[i] == a[i] && c[j] == b[j - a.len()]);
        } else {
            assert(c[i] == b[i - a.len()] && c[j] == b[j - a.len()]);
        }
    }
}

impl ConfigCall {
    /// The place of the call in the order that the engine mandates.
    pub fn order(&self) -> (place: u8)
        ensures
            place == self@.order(),
    {
        match self {
            ConfigCall::SetModel { .. } => 0,
            ConfigCall::SetModelBuffer { .. } => 0,
            ConfigCall::SetCpuMathLibraryNumThreads { .. } => 1,
            ConfigCall::SetMkldnnCacheCapacity { .. } => 2,
            ConfigCall::SetMkldnnOp { .. } => 3,
            ConfigCall::EnableMkldnnBfloat16 => 4,
            ConfigCall::SetBfloat16Op { .. } => 5,
            ConfigCall::EnableUseGpu { .. } => 6,
            ConfigCall::EnableGpuMultiStream => 7,
            ConfigCall::EnableCudnn => 8,
            ConfigCall::EnableTensorRtEngine { .. } => 9,
            ConfigCall::SetTrtDynamicShapeInfo { .. } => 10,
            ConfigCall::EnableTensorRtOSS => 11,
            ConfigCall::EnableTensorRtDla { .. } => 12,
            ConfigCall::EnableXpu { .. } => 13,
            ConfigCall::EnableONNXRuntime => 14,
            ConfigCall::EnableORTOptimization => 15,
            ConfigCall::SwitchIrOptim { .. } => 16,
            ConfigCall::SwitchIrDebug { .. } => 17,
            ConfigCall::EnableLiteEngine { .. } => 18,
            ConfigCall::EnableMemoryOptim { .. } => 19,
            ConfigCall::SetOptimCacheDir { .. } => 20,
            ConfigCall::DisableFCPadding => 21,
            ConfigCall::EnableProfile => 22,
            ConfigCall::DisableGlogInfo => 23,
        }
    }

    /// The part of the configuration that the call belongs to.
    pub fn section(&self) -> (section: Section)
        ensures
            section == self@.section(),
    {
        match self {
            ConfigCall::SetModel { .. } | ConfigCall::SetModelBuffer { .. } => Section::Model,
            ConfigCall::SetCpuMathLibraryNumThreads { .. }
            | ConfigCall::SetMkldnnCacheCapacity { .. }
            | ConfigCall::SetMkldnnOp { .. }
            | ConfigCall::EnableMkldnnBfloat16
            | ConfigCall::SetBfloat16Op { .. } => Section::Cpu,
            ConfigCall::EnableUseGpu { .. }
            | ConfigCall::EnableGpuMultiStream
            | ConfigCall::EnableCudnn
            | ConfigCall::EnableTensorRtEngine { .. }
            | ConfigCall::SetTrtDynamicShapeInfo { .. }
            | ConfigCall::EnableTensorRtOSS
            | ConfigCall::EnableTensorRtDla { .. } => Section::Gpu,
            ConfigCall::EnableXpu { .. } => Section::Xpu,
            ConfigCall::EnableONNXRuntime | ConfigCall::EnableORTOptimization => {
                Section::OnnxRuntime
            },
            ConfigCall::SwitchIrOptim { .. } => Section::IrOptim,
            ConfigCall::SwitchIrDebug { .. } => Section::IrDebug,
            ConfigCall::EnableLiteEngine { .. } => Section::Lite,
            ConfigCall::EnableMemoryOptim { .. } => Section::MemoryOptim,
            ConfigCall::SetOptimCacheDir { .. } => Section::CacheDir,
            ConfigCall::DisableFCPadding => Section::FcPadding,
            ConfigCall::EnableProfile => Section::Profile,
            ConfigCall::DisableGlogInfo => Section::Log,
        }
    }
}

/// The calls that a sequence of recorded calls stands for, one for one.
pub open spec fn call_views(calls: Seq<ConfigCall>) -> Seq<Call> {
    Seq::new(calls.len(), |i: int| calls[i]@)
}

/// The native configuration handle: created empty, written by the
/// configuration's parts alone, and given up whole when the predictor is
/// created.
///
/// It cannot be copied, and every call in it is well formed.
#[derive(Debug)]
pub struct NativeConfig {
    calls: Vec<ConfigCall>,
}

impl View for NativeConfig {
    type V = Seq<Call>;

    closed spec fn view(&self) -> Seq<Call> {
        call_views(self.calls@)
    }
}

impl NativeConfig {
    #[verifier::type_invariant]
    spec fn sound(self) -> bool {
        forall|i: int| 0 <= i < self.calls@.len() ==> (#[trigger] self.calls@[i])@.well_formed()
    }

    /// A fresh handle, on which no call has been made.
    pub fn new() -> (config: NativeConfig)
        ensures
            config@ == Seq::<Call>::empty(),
    {
        let config = NativeConfig { calls: Vec::new() };
        assert(config@ =~= Seq::<Call>::empty());
        config
    }

    /// Records one more call, after all those made so far.
    pub(crate) fn push(&mut self, call: ConfigCall)
        requires
            call@.well_formed(),
        ensures
            final(self)@ == old(self)@ + seq![call@],
    {
        proof {
            use_type_invariant(&*self);
        }
        let mut calls: Vec<ConfigCall> = Vec::new();
        std::mem::swap(&mut self.calls, &mut calls);
        calls.push(call);
        self.calls = calls;
        assert(self@ =~= old(self)@ + seq![call@]);
    }

    /// Records one more call if it is wanted, and nothing if it is not.
    pub(crate) fn push_if(&mut self, wanted: bool, call: ConfigCall)
        requires
            call@.well_formed(),
        ensures
            final(self)@ == old(self)@ + call_if(wanted, call@),
    {
        if wanted {
            self.push(call);
        }
        assert(self@ =~= old(self)@ + call_if(wanted, call@));
    }

    /// Records the calls of `other`, in their order, after all those made
    /// so far.
    pub(crate) fn append(&mut self, other: NativeConfig)
        ensures
            final(self)@ == old(self)@ + other@,
    {
        proof {
            use_type_invariant(&*self);
            use_type_invariant(&other);
        }
        let mut calls: Vec<ConfigCall> = Vec::new();
        std::mem::swap(&mut self.calls, &mut calls);
        let mut more = other.calls;
        calls.append(&mut more);
        self.calls = calls;
        assert(self@ =~= old(self)@ + other@);
    }

    /// The calls made so far, first to last, each of them well formed.
    pub fn calls(&self) -> (calls: &Vec<ConfigCall>)
        ensures
            call_views(calls@) == self@,
            forall|i: int| 0 <= i < calls@.len() ==> (#[trigger] calls@[i])@.well_formed(),
    {
        proof {
            use_type_invariant(self);
        }
        &self.calls
    }

    /// The number of calls made so far.
    pub fn len(&self) -> (n: usize)
        ensures
            n == self@.len(),
    {
        self.calls.len()
    }

    /// The number of calls made so far that belong to `section`.
    pub fn count(&self, section: Section) -> (n: usize)
        ensures
            n == self@.filter(in_section(section)).len(),
    {
        let mut n: usize = 0;
        let mut i: usize = 0;
        let ghost wanted = in_section(section);
        while i < self.calls.len()
            invariant
                0 <= i <= self.calls.len(),
                wanted == in_section(section),
                n == self@.take(i as int).filter(wanted).len(),
                n <= i,
            decreases self.calls.len() - i,
        {
            let found = self.calls[i].section();
            proof {
                let before = self@.take(i as int);
                assert(self@.take(i + 1) =~= before.push(self@[i as int]));
                before.lemma_filter_push(self@[i as int], wanted);
            }
            if found == section {
                n = n + 1;
            }
            i = i + 1;
        }
        assert(self@.take(i as int) =~= self@);
        n
    }
}

} // verus!
