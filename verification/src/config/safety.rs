//! What the engine relies on when it reads the arguments of a call.
//!
//! The engine reads a string up to its terminator and a shape up to the
//! length that it is told, and it checks neither. Here it is proved that
//! every call of every configuration that passes its check can be read so:
//! each string ends in a zero byte, and in the call that installs the
//! dynamic shapes each array has one slot for each tensor and each shape
//! the length that its slot says. A [`NativeConfig`] records no other call.
//!
//! [`NativeConfig`]: crate::config::native::NativeConfig

use vstd::prelude::*;
use crate::config::native::{call_if, Call, Section};
use crate::config::setting::{
    dynamic_shape_call, lemma_check_shapes, Cpu, DynamicShapeInfo, Gpu, Mkldnn, TensorRT,
};
use crate::config::{Config, SetConfig};
use crate::utils::{all_nul_terminated, c_strs};

verus! {

/// Every call of `calls` is well formed.
pub open spec fn all_well_formed(calls: Seq<Call>) -> bool {
    forall|i: int| 0 <= i < calls.len() ==> (#[trigger] calls[i]).well_formed()
}

/// Two runs of well-formed calls make one.
proof fn lemma_well_formed_concat(a: Seq<Call>, b: Seq<Call>)
    requires
        all_well_formed(a),
        all_well_formed(b),
    ensures
        all_well_formed(a + b),
{
    let c = a + b;
    assert forall|i: int| 0 <= i < c.len() implies (#[trigger] c[i]).well_formed() by {
        if i < a.len() {
            assert(c[i] == a[i]);
        } else {
            assert(c[i] == b[i - a.len()]);
        }
    }
}

/// The buffers of a list of strings all end in a zero byte.
proof fn lemma_c_strs_terminated(texts: Seq<String>)
    ensures
        all_nul_terminated(c_strs(texts)),
{
}

/// The call that installs the dynamic shapes of consistent entries is well
/// formed.
proof fn lemma_dynamic_shape_call_well_formed(
    entries: Seq<DynamicShapeInfo>,
    disable_plugin_fp16: bool,
)
    requires
        forall|i: int| 0 <= i < entries.len() ==> (#[trigger] entries[i]).consistent(),
    ensures
        dynamic_shape_call(entries, disable_plugin_fp16).well_formed(),
{
    let call = dynamic_shape_call(entries, disable_plugin_fp16);
    let names = call->SetTrtDynamicShapeInfo_tensor_names;
    let sizes = call->SetTrtDynamicShapeInfo_shapes_num;
    let min = call->SetTrtDynamicShapeInfo_min_shapes;
    let max = call->SetTrtDynamicShapeInfo_max_shapes;
    let optim = call->SetTrtDynamicShapeInfo_optim_shapes;
    assert forall|i: int| 0 <= i < names.len() implies {
        &&& (#[trigger] min[i]).len() == sizes[i]
        &&& (#[trigger] max[i]).len() == sizes[i]
        &&& (#[trigger] optim[i]).len() == sizes[i]
    } by {
        assert(entries[i].consistent());
    }
}

/// The calls of consistent TensorRT settings are well formed.
proof fn lemma_tensor_rt_well_formed(tensor_rt: TensorRT)
    requires
        forall|i: int|
            0 <= i < tensor_rt.dynamic_shape_info@.len() ==> (
            #[trigger] tensor_rt.dynamic_shape_info@[i]).consistent(),
    ensures
        all_well_formed(tensor_rt.calls()),
{
    let engine = seq![tensor_rt.engine_call()];
    let shapes = call_if(
        tensor_rt.dynamic_shape_info@.len() > 0,
        dynamic_shape_call(tensor_rt.dynamic_shape_info@, tensor_rt.disable_plugin_fp16),
    );
    let oss = call_if(tensor_rt.enable_oss, Call::EnableTensorRtOSS);
    let dla = match tensor_rt.dla_core {
        Some(dla_core) => seq![Call::EnableTensorRtDla { dla_core }],
        None => Seq::empty(),
    };
    lemma_dynamic_shape_call_well_formed(
        tensor_rt.dynamic_shape_info@,
        tensor_rt.disable_plugin_fp16,
    );
    lemma_well_formed_concat(engine, shapes);
    lemma_well_formed_concat(engine + shapes, oss);
    lemma_well_formed_concat(engine + shapes + oss, dla);
}

/// The calls of GPU settings that pass their check are well formed.
proof fn lemma_gpu_well_formed(gpu: Gpu)
    requires
        gpu.check() is Ok,
    ensures
        all_well_formed(gpu.calls()),
{
    let rest = match gpu.enable_tensor_rt {
        Some(tensor_rt) => tensor_rt.calls(),
        None => Seq::empty(),
    };
    if let Some(tensor_rt) = gpu.enable_tensor_rt {
        lemma_check_shapes(tensor_rt.dynamic_shape_info@);
        lemma_tensor_rt_well_formed(tensor_rt);
    }
    assert(all_well_formed(gpu.device_calls()));
    lemma_well_formed_concat(gpu.device_calls(), rest);
}

/// The calls of MKLDNN settings are well formed.
proof fn lemma_mkldnn_well_formed(mkldnn: Mkldnn)
    ensures
        all_well_formed(mkldnn.calls()),
{
    let cache = match mkldnn.cache_size {
        Some(capacity) => call_if(capacity > 0, Call::SetMkldnnCacheCapacity { capacity }),
        None => Seq::empty(),
    };
    let op = match mkldnn.op {
        Some(ops) => seq![Call::SetMkldnnOp { ops: c_strs(ops@) }],
        None => Seq::empty(),
    };
    let bf16 = match mkldnn.op_f16 {
        Some(ops) => seq![Call::EnableMkldnnBfloat16, Call::SetBfloat16Op { ops: c_strs(ops@) }],
        None => Seq::empty(),
    };
    if let Some(ops) = mkldnn.op {
        lemma_c_strs_terminated(ops@);
    }
    if let Some(ops) = mkldnn.op_f16 {
        lemma_c_strs_terminated(ops@);
    }
    assert(all_well_formed(cache));
    assert(all_well_formed(op));
    assert(all_well_formed(bf16));
    lemma_well_formed_concat(cache, op);
    lemma_well_formed_concat(cache + op, bf16);
}

/// The calls of CPU settings are well formed.
proof fn lemma_cpu_well_formed(cpu: Cpu)
    ensures
        all_well_formed(cpu.calls()),
{
    let threads = match cpu.threads {
        Some(threads) => call_if(threads > 0, Call::SetCpuMathLibraryNumThreads { threads }),
        None => Seq::empty(),
    };
    let rest = match cpu.mkldnn {
        Some(mkldnn) => mkldnn.calls(),
        None => Seq::empty(),
    };
    if let Some(mkldnn) = cpu.mkldnn {
        lemma_mkldnn_well_formed(mkldnn);
    }
    assert(all_well_formed(threads));
    lemma_well_formed_concat(threads, rest);
}

/// The calls of each section of a configuration that passes its check are
/// well formed.
pub proof fn lemma_part_well_formed(config: Config, section: Section)
    requires
        config.check() is Ok,
    ensures
        all_well_formed(config.part(section)),
{
    match section {
        Section::Cpu => {
            lemma_cpu_well_formed(config.cpu);
        },
        Section::Gpu => {
            if let Some(gpu) = config.gpu {
                lemma_gpu_well_formed(gpu);
            }
        },
        Section::Lite => {
            if let Some(lite) = config.lite {
                lemma_c_strs_terminated(lite.passes_filter@);
                lemma_c_strs_terminated(lite.ops_filter@);
            }
        },
        _ => {},
    }
}

/// Every call of a configuration that passes its check is well formed:
/// the engine can read each of its arguments without leaving the buffer
/// that holds it.
pub proof fn lemma_calls_well_formed(config: Config)
    requires
        config.check() is Ok,
    ensures
        all_well_formed(config.calls()),
{
    lemma_part_well_formed(config, Section::Model);
    lemma_part_well_formed(config, Section::Cpu);
    lemma_part_well_formed(config, Section::Gpu);
    lemma_part_well_formed(config, Section::Xpu);
    lemma_part_well_formed(config, Section::OnnxRuntime);
    lemma_part_well_formed(config, Section::IrOptim);
    lemma_part_well_formed(config, Section::IrDebug);
    lemma_part_well_formed(config, Section::Lite);
    lemma_part_well_formed(config, Section::MemoryOptim);
    lemma_part_well_formed(config, Section::CacheDir);
    lemma_part_well_formed(config, Section::FcPadding);
    lemma_part_well_formed(config, Section::Profile);
    lemma_part_well_formed(config, Section::Log);
    let a1 = config.part(Section::Model);
    let a2 = a1 + config.part(Section::Cpu);
    let a3 = a2 + config.part(Section::Gpu);
    let a4 = a3 + config.part(Section::Xpu);
    let a5 = a4 + config.part(Section::OnnxRuntime);
    let a6 = a5 + config.part(Section::IrOptim);
    let a7 = a6 + config.part(Section::IrDebug);
    let a8 = a7 + config.part(Section::Lite);
    let a9 = a8 + config.part(Section::MemoryOptim);
    let a10 = a9 + config.part(Section::CacheDir);
    let a11 = a10 + config.part(Section::FcPadding);
    let a12 = a11 + config.part(Section::Profile);
    lemma_well_formed_concat(a1, config.part(Section::Cpu));
    lemma_well_formed_concat(a2, config.part(Section::Gpu));
    lemma_well_formed_concat(a3, config.part(Section::Xpu));
    lemma_well_formed_concat(a4, config.part(Section::OnnxRuntime));
    lemma_well_formed_concat(a5, config.part(Section::IrOptim));
    lemma_well_formed_concat(a6, config.part(Section::IrDebug));
    lemma_well_formed_concat(a7, config.part(Section::Lite));
    lemma_well_formed_concat(a8, config.part(Section::MemoryOptim));
    lemma_well_formed_concat(a9, config.part(Section::CacheDir));
    lemma_well_formed_concat(a10, config.part(Section::FcPadding));
    lemma_well_formed_concat(a11, config.part(Section::Profile));
    lemma_well_formed_concat(a12, config.part(Section::Log));
}

} // verus!
