//! The order of the native calls of a configuration.
//!
//! The engine ties most settings to the model that is loaded, and some to
//! the device that is enabled before them, so the calls of a configuration
//! come in one fixed order: section by section, and within a section call
//! by call. What is proved here holds of every configuration, whatever its
//! fields hold.

use vstd::prelude::*;
use crate::config::native::{
    call_if, in_section, lemma_ordered_concat, ordered, within, Call, Section,
};
use crate::config::setting::{dynamic_shape_call, Cpu, Gpu, Mkldnn, TensorRT};
use crate::config::{Config, SetConfig};
use crate::utils::c_strs;

verus! {

impl Section {
    /// The place of the first call that the section can make.
    pub open spec fn low(self) -> nat {
        match self {
            Section::Model => 0,
            Section::Cpu => 1,
            Section::Gpu => 6,
            Section::Xpu => 13,
            Section::OnnxRuntime => 14,
            Section::IrOptim => 16,
            Section::IrDebug => 17,
            Section::Lite => 18,
            Section::MemoryOptim => 19,
            Section::CacheDir => 20,
            Section::FcPadding => 21,
            Section::Profile => 22,
            Section::Log => 23,
        }
    }

    /// The place after that of the last call that the section can make.
    pub open spec fn high(self) -> nat {
        match self {
            Section::Model => 1,
            Section::Cpu => 6,
            Section::Gpu => 13,
            Section::Xpu => 14,
            Section::OnnxRuntime => 16,
            Section::IrOptim => 17,
            Section::IrDebug => 18,
            Section::Lite => 19,
            Section::MemoryOptim => 20,
            Section::CacheDir => 21,
            Section::FcPadding => 22,
            Section::Profile => 23,
            Section::Log => 24,
        }
    }
}

/// A call belongs to the section in whose range of places its own lies.
pub proof fn lemma_section_of_place(call: Call, section: Section)
    ensures
        call.section() == section <==> section.low() <= call.order() < section.high(),
{
}

/// The calls of MKLDNN are in order, at the places from 2 to 5.
proof fn lemma_mkldnn_ordered(mkldnn: Mkldnn)
    ensures
        ordered(mkldnn.calls()),
        within(mkldnn.calls(), 2, 6),
{
    let cache = match mkldnn.cache_size {
        Some(capacity) => call_if(capacity > 0, Call::SetMkldnnCacheCapacity { capacity }),
        None => Seq::empty(),
    };
    let op = match mkldnn.op {
        Some(ops) => seq![Call::SetMkldnnOp { ops: c_strs(ops@) }],
        None => Seq::empty(),
    };
    let bf16 = match mkldnn.op_f16 {
        Some(ops) => seq![
            Call::EnableMkldnnBfloat16,
            Call::SetBfloat16Op { ops: c_strs(ops@) },
        ],
        None => Seq::empty(),
    };
    assert(ordered(cache) && within(cache, 2, 3));
    assert(ordered(op) && within(op, 3, 4));
    assert(ordered(bf16) && within(bf16, 4, 6));
    lemma_ordered_concat(cache, op, 2, 3, 4);
    lemma_ordered_concat(cache + op, bf16, 2, 4, 6);
}

/// The calls of the CPU are in order, at the places from 1 to 5.
proof fn lemma_cpu_ordered(cpu: Cpu)
    ensures
        ordered(cpu.calls()),
        within(cpu.calls(), 1, 6),
{
    let threads = match cpu.threads {
        Some(threads) => call_if(threads > 0, Call::SetCpuMathLibraryNumThreads { threads }),
        None => Seq::empty(),
    };
    let rest = match cpu.mkldnn {
        Some(mkldnn) => mkldnn.calls(),
        None => Seq::empty(),
    };
    assert(ordered(threads) && within(threads, 1, 2));
    if let Some(mkldnn) = cpu.mkldnn {
        lemma_mkldnn_ordered(mkldnn);
    }
    lemma_ordered_concat(threads, rest, 1, 2, 6);
}

/// The calls of TensorRT are in order, at the places from 9 to 12.
proof fn lemma_tensor_rt_ordered(tensor_rt: TensorRT)
    ensures
        ordered(tensor_rt.calls()),
        within(tensor_rt.calls(), 9, 13),
{
    let engine = seq![tensor_rt.engine_call()];
    let shapes = call_if(
        tensor_rt.dynamic_shape_info@.len() > 0,
        dynamic_shape_call(tensor_rt.dynamic_shape_info@, tensor_rt.disable_plugin_fp16),
    );
    let oss = call_if(tensor_rt.enable_oss, Call::EnableTensorRtOSS);
    let dla = match tensor_rt.dla_core {
        Some(dla_core) => seq![Call::EnableTensorRtDla { dla_core }],
        None => Seq::empty(),
    };
    assert(ordered(engine) && within(engine, 9, 10));
    assert(ordered(shapes) && within(shapes, 10, 11));
    assert(ordered(oss) && within(oss, 11, 12));
    assert(ordered(dla) && within(dla, 12, 13));
    lemma_ordered_concat(engine, shapes, 9, 10, 11);
    lemma_ordered_concat(engine + shapes, oss, 9, 11, 12);
    lemma_ordered_concat(engine + shapes + oss, dla, 9, 12, 13);
}

/// The calls of the GPU are in order, at the places from 6 to 12.
proof fn lemma_gpu_ordered(gpu: Gpu)
    ensures
        ordered(gpu.calls()),
        within(gpu.calls(), 6, 13),
{
    let enable = seq![
        Call::EnableUseGpu {
            memory_pool_init_size_mb: gpu.memory_pool_init_size_mb,
            device_id: gpu.device_id,
        },
    ];
    let streams = call_if(gpu.enable_multi_stream, Call::EnableGpuMultiStream);
    let cudnn = call_if(gpu.enable_cudnn, Call::EnableCudnn);
    let rest = match gpu.enable_tensor_rt {
        Some(tensor_rt) => tensor_rt.calls(),
        None => Seq::empty(),
    };
    assert(ordered(enable) && within(enable, 6, 7));
    assert(ordered(streams) && within(streams, 7, 8));
    assert(ordered(cudnn) && within(cudnn, 8, 9));
    if let Some(tensor_rt) = gpu.enable_tensor_rt {
        lemma_tensor_rt_ordered(tensor_rt);
    }
    lemma_ordered_concat(enable, streams, 6, 7, 8);
    lemma_ordered_concat(enable + streams, cudnn, 6, 8, 9);
    lemma_ordered_concat(gpu.device_calls(), rest, 6, 9, 13);
}

/// The calls of each section are in order, and each lies in the range of
/// places of its section.
pub proof fn lemma_part_ordered(config: Config, section: Section)
    ensures
        ordered(config.part(section)),
        within(config.part(section), section.low(), section.high()),
{
    match section {
        Section::Cpu => {
            lemma_cpu_ordered(config.cpu);
        },
        Section::Gpu => {
            if let Some(gpu) = config.gpu {
                lemma_gpu_ordered(gpu);
            }
        },
        _ => {},
    }
}

/// A configuration's calls are made in strictly rising order of their
/// places: each kind of call at most once, and always in the one order
/// that the engine mandates.
pub proof fn lemma_calls_ordered(config: Config)
    ensures
        ordered(config.calls()),
        within(config.calls(), 0, 24),
{
    lemma_part_ordered(config, Section::Model);
    lemma_part_ordered(config, Section::Cpu);
    lemma_part_ordered(config, Section::Gpu);
    lemma_part_ordered(config, Section::Xpu);
    lemma_part_ordered(config, Section::OnnxRuntime);
    lemma_part_ordered(config, Section::IrOptim);
    lemma_part_ordered(config, Section::IrDebug);
    lemma_part_ordered(config, Section::Lite);
    lemma_part_ordered(config, Section::MemoryOptim);
    lemma_part_ordered(config, Section::CacheDir);
    lemma_part_ordered(config, Section::FcPadding);
    lemma_part_ordered(config, Section::Profile);
    lemma_part_ordered(config, Section::Log);
    let a1 = config.part(Section::Model);
    let a2 = a1 + config.part(Section::Cpu);
    let a3 = a2 + config.part(Section::Gpu);
    let a4 = a3 + config.part(Section::Xpu);
    let a5 = a4 + config.part(Section::OnnxRuntime);
    let a6 = a5 + config.part(Section::IrOptim);
    let a7 = a6 + config.part(Section::IrDebug);
    let a8 = a7 + config.part(Section::Lite);
    let a9 = a8 + config.part(Section::MemoryOptim);
    let a10 = a9 + config.part(Section::CacheDir);
    let a11 = a10 + config.part(Section::FcPadding);
    let a12 = a11 + config.part(Section::Profile);
    lemma_ordered_concat(a1, config.part(Section::Cpu), 0, 1, 6);
    lemma_ordered_concat(a2, config.part(Section::Gpu), 0, 6, 13);
    lemma_ordered_concat(a3, config.part(Section::Xpu), 0, 13, 14);
    lemma_ordered_concat(a4, config.part(Section::OnnxRuntime), 0, 14, 16);
    lemma_ordered_concat(a5, config.part(Section::IrOptim), 0, 16, 17);
    lemma_ordered_concat(a6, config.part(Section::IrDebug), 0, 17, 18);
    lemma_ordered_concat(a7, config.part(Section::Lite), 0, 18, 19);
    lemma_ordered_concat(a8, config.part(Section::MemoryOptim), 0, 19, 20);
    lemma_ordered_concat(a9, config.part(Section::CacheDir), 0, 20, 21);
    lemma_ordered_concat(a10, config.part(Section::FcPadding), 0, 21, 22);
    lemma_ordered_concat(a11, config.part(Section::Profile), 0, 22, 23);
    lemma_ordered_concat(a12, config.part(Section::Log), 0, 23, 24);
}

/// Of a run of calls that lies in the range of one section, those that
/// belong to a section are all of them, or none.
proof fn lemma_filter_section(calls: Seq<Call>, of: Section, section: Section)
    requires
        within(calls, of.low(), of.high()),
    ensures
        calls.filter(in_section(section)) == (if section == of {
            calls
        } else {
            Seq::<Call>::empty()
        }),
    decreases calls.len(),
{
    reveal(Seq::filter);
    if calls.len() == 0 {
        assert(calls =~= Seq::<Call>::empty());
    } else {
        let init = calls.drop_last();
        assert forall|i: int| 0 <= i < init.len() implies of.low() <= (#[trigger] init[i]).order()
            < of.high() by {
            assert(init[i] == calls[i]);
        }
        lemma_filter_section(init, of, section);
        lemma_section_of_place(calls.last(), of);
        if section == of {
            assert(init.push(calls.last()) =~= calls);
        }
    }
}

/// What a walk through the sections has met of one section once it has
/// passed the section `last`.
#[verifier::opaque]
spec fn met(config: Config, section: Section, last: Section) -> Seq<Call> {
    if section.high() <= last.high() {
        config.part(section)
    } else {
        Seq::empty()
    }
}

/// One step of the walk through the sections: what has been met of one
/// section after the calls of the next section are added.
proof fn lemma_filter_next(
    config: Config,
    done: Seq<Call>,
    last: Section,
    next: Section,
    section: Section,
)
    requires
        next.low() == last.high(),
        done.filter(in_section(section)) == met(config, section, last),
    ensures
        (done + config.part(next)).filter(in_section(section)) == met(config, section, next),
{
    reveal(met);
    lemma_part_ordered(config, next);
    lemma_filter_section(config.part(next), next, section);
    Seq::filter_distributes_over_add(done, config.part(next), in_section(section));
    assert(config.part(section) + Seq::<Call>::empty() =~= config.part(section));
    assert(Seq::<Call>::empty() + config.part(section) =~= config.part(section));
    assert(Seq::<Call>::empty() + Seq::<Call>::empty() =~= Seq::<Call>::empty());
}

/// The walk through the model and the devices.
proof fn lemma_walk_devices(config: Config, section: Section)
    ensures
        (config.part(Section::Model) + config.part(Section::Cpu) + config.part(Section::Gpu)
            + config.part(Section::Xpu) + config.part(Section::OnnxRuntime)).filter(
            in_section(section),
        ) == met(config, section, Section::OnnxRuntime),
{
    let a1 = config.part(Section::Model);
    let a2 = a1 + config.part(Section::Cpu);
    let a3 = a2 + config.part(Section::Gpu);
    let a4 = a3 + config.part(Section::Xpu);
    assert(a1.filter(in_section(section)) == met(config, section, Section::Model)) by {
        reveal(met);
        lemma_part_ordered(config, Section::Model);
        lemma_filter_section(a1, Section::Model, section);
    }
    lemma_filter_next(config, a1, Section::Model, Section::Cpu, section);
    lemma_filter_next(config, a2, Section::Cpu, Section::Gpu, section);
    lemma_filter_next(config, a3, Section::Gpu, Section::Xpu, section);
    lemma_filter_next(config, a4, Section::Xpu, Section::OnnxRuntime, section);
}

/// The walk from the IR switches to the memory switch.
proof fn lemma_walk_switches(config: Config, done: Seq<Call>, section: Section)
    requires
        done.filter(in_section(section)) == met(config, section, Section::OnnxRuntime),
    ensures
        (done + config.part(Section::IrOptim) + config.part(Section::IrDebug) + config.part(
            Section::Lite,
        ) + config.part(Section::MemoryOptim)).filter(in_section(section)) == met(
            config,
            section,
            Section::MemoryOptim,
        ),
{
    let a6 = done + config.part(Section::IrOptim);
    let a7 = a6 + config.part(Section::IrDebug);
    let a8 = a7 + config.part(Section::Lite);
    lemma_filter_next(config, done, Section::OnnxRuntime, Section::IrOptim, section);
    lemma_filter_next(config, a6, Section::IrOptim, Section::IrDebug, section);
    lemma_filter_next(config, a7, Section::IrDebug, Section::Lite, section);
    lemma_filter_next(config, a8, Section::Lite, Section::MemoryOptim, section);
}

/// The walk from the cache directory to the end.
proof fn lemma_walk_flags(config: Config, done: Seq<Call>, section: Section)
    requires
        done.filter(in_section(section)) == met(config, section, Section::MemoryOptim),
    ensures
        (done + config.part(Section::CacheDir) + config.part(Section::FcPadding) + config.part(
            Section::Profile,
        ) + config.part(Section::Log)).filter(in_section(section)) == config.part(section),
{
    let a10 = done + config.part(Section::CacheDir);
    let a11 = a10 + config.part(Section::FcPadding);
    let a12 = a11 + config.part(Section::Profile);
    lemma_filter_next(config, done, Section::MemoryOptim, Section::CacheDir, section);
    lemma_filter_next(config, a10, Section::CacheDir, Section::FcPadding, section);
    lemma_filter_next(config, a11, Section::FcPadding, Section::Profile, section);
    lemma_filter_next(config, a12, Section::Profile, Section::Log, section);
    assert(met(config, section, Section::Log) == config.part(section)) by {
        reveal(met);
    }
}

/// The calls of a configuration that belong to one section are the calls
/// of that part of the configuration, in their order, and no others.
pub proof fn lemma_section_calls(config: Config, section: Section)
    ensures
        config.calls().filter(in_section(section)) == config.part(section),
{
    let devices = config.part(Section::Model) + config.part(Section::Cpu) + config.part(
        Section::Gpu,
    ) + config.part(Section::Xpu) + config.part(Section::OnnxRuntime);
    let switches = devices + config.part(Section::IrOptim) + config.part(Section::IrDebug)
        + config.part(Section::Lite) + config.part(Section::MemoryOptim);
    lemma_walk_devices(config, section);
    lemma_walk_switches(config, devices, section);
    lemma_walk_flags(config, switches, section);
}

/// A section whose part of the configuration makes no call has no call
/// among those of the configuration.
pub proof fn lemma_absent_section(config: Config, section: Section)
    requires
        config.part(section).len() == 0,
    ensures
        forall|i: int|
            0 <= i < config.calls().len() ==> (#[trigger] config.calls()[i]).section() != section,
{
    lemma_section_calls(config, section);
    let calls = config.calls();
    assert forall|i: int| 0 <= i < calls.len() implies (#[trigger] calls[i]).section()
        != section by {
        if calls[i].section() == section {
            calls.lemma_filter_contains(in_section(section), i);
        }
    }
}

/// A configuration without GPU settings makes no call that concerns the
/// GPU: none that enables it, none for its streams or cuDNN, none for
/// TensorRT.
pub proof fn lemma_no_gpu_call_without_gpu(config: Config)
    requires
        config.gpu is None,
    ensures
        forall|i: int|
            0 <= i < config.calls().len() ==> (#[trigger] config.calls()[i]).section()
                != Section::Gpu,
{
    lemma_absent_section(config, Section::Gpu);
}

/// The model is loaded before anything else: the first call of every
/// configuration is the one that loads its model, and no later call
/// belongs to the model.
pub proof fn lemma_model_first(config: Config)
    ensures
        config.calls().len() > 0,
        config.calls()[0] == config.model.load_call(),
        config.calls()[0].section() == Section::Model,
        forall|i: int|
            0 < i < config.calls().len() ==> (#[trigger] config.calls()[i]).section()
                != Section::Model,
{
    let calls = config.calls();
    let a1 = config.part(Section::Model);
    assert(a1.len() == 1 && a1[0] == config.model.load_call());
    assert(a1.is_prefix_of(calls));
    assert(calls[0] == a1[0]);
    lemma_calls_ordered(config);
    assert forall|i: int| 0 < i < calls.len() implies (#[trigger] calls[i]).section()
        != Section::Model by {
        assert(calls[0].order() < calls[i].order());
        lemma_section_of_place(calls[i], Section::Model);
    }
}

} // verus!
