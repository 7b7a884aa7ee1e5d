use paddle_inference::common::PrecisionType;
use paddle_inference::config::lite_engine::LiteEngine;
use paddle_inference::config::model::Model;
use paddle_inference::config::native::{ConfigCall, NativeConfig, Section};
use paddle_inference::config::setting::{
    Cpu, DynamicShapeInfo, Gpu, Mkldnn, ONNXRuntime, TensorRT, Xpu,
};
use paddle_inference::config::{Config, ConfigError, SetConfig};
use paddle_inference::predictor::State;
use paddle_inference::Predictor;

fn model() -> Model {
    Model::Path { model_file: "m.pdmodel".to_string(), params_file: "m.pdiparams".to_string() }
}

fn load_call() -> ConfigCall {
    ConfigCall::SetModel {
        prog_file: b"m.pdmodel\0".to_vec(),
        params_file: b"m.pdiparams\0".to_vec(),
    }
}

fn shape(name: &str, min: usize, max: usize, optim: usize) -> DynamicShapeInfo {
    DynamicShapeInfo {
        name: name.to_string(),
        min_shape: vec![1; min],
        max_shape: vec![8; max],
        optim_shape: vec![4; optim],
    }
}

fn tensor_rt(shapes: Vec<DynamicShapeInfo>) -> TensorRT {
    TensorRT {
        workspace_size: 1 << 20,
        max_batch_size: 1,
        min_subgraph_size: 3,
        precision_type: PrecisionType::Float32,
        use_static: false,
        use_calib_mode: false,
        dynamic_shape_info: shapes,
        disable_plugin_fp16: false,
        enable_oss: false,
        dla_core: None,
    }
}

fn gpu(tensor_rt: Option<TensorRT>) -> Gpu {
    Gpu {
        memory_pool_init_size_mb: 512,
        device_id: 0,
        enable_multi_stream: false,
        enable_cudnn: true,
        enable_tensor_rt: tensor_rt,
    }
}

fn everything() -> Config {
    let mut trt = tensor_rt(vec![shape("x", 3, 3, 3), shape("y", 4, 4, 4)]);
    trt.enable_oss = true;
    trt.dla_core = Some(0);
    let mut with_trt = gpu(Some(trt));
    with_trt.enable_multi_stream = true;
    Config::new(model())
        .disable_log_info()
        .enable_profile()
        .disable_fc_padding()
        .set_optimization_cache_dir("cache")
        .enable_lite_engine(LiteEngine {
            precision: PrecisionType::Float32,
            zero_copy: false,
            passes_filter: vec![],
            ops_filter: vec![],
        })
        .onnx_runtime(ONNXRuntime { enable_optimization: true })
        .xpu(Xpu {
            l3_workspace_size_mb: 1,
            locked: false,
            autorune: false,
            autotune_file: None,
            precision: "int16".to_string(),
            adaptive_seqlen: false,
        })
        .gpu(with_trt)
        .cpu(Cpu {
            threads: Some(2),
            mkldnn: Some(Mkldnn {
                cache_size: Some(1),
                op: Some(vec![]),
                op_f16: Some(vec![]),
            }),
        })
}

fn count(calls: &[ConfigCall], section: Section) -> usize {
    calls.iter().filter(|call| call.section() == section).count()
}

#[test]
fn cpu_threads_only() {
    let config = Config::new(model()).cpu(Cpu { threads: Some(4), mkldnn: None });
    let predictor = Predictor::new(config).unwrap();
    assert_eq!(predictor.state(), State::Configuring);
    let calls = predictor.config_calls();
    assert_eq!(
        calls,
        &vec![
            load_call(),
            ConfigCall::SetCpuMathLibraryNumThreads { threads: 4 },
            ConfigCall::SwitchIrOptim { enable: 1 },
            ConfigCall::SwitchIrDebug { enable: 0 },
            ConfigCall::EnableMemoryOptim { enable: 1 },
        ]
    );
    assert_eq!(count(calls, Section::Cpu), 1);
    assert_eq!(count(calls, Section::IrOptim), 1);
    assert_eq!(count(calls, Section::MemoryOptim), 1);
    assert_eq!(count(calls, Section::Gpu), 0);
    assert_eq!(count(calls, Section::Xpu), 0);
    assert_eq!(count(calls, Section::OnnxRuntime), 0);
    assert_eq!(count(calls, Section::Lite), 0);
    let predictor = predictor.created(0x1000, vec![], vec![]);
    assert_eq!(predictor.state(), State::Ready);
    assert!(predictor.config_calls().is_empty());
}

#[test]
fn gpu_with_cudnn_and_tensor_rt() {
    let config = Config::new(model()).gpu(gpu(Some(tensor_rt(vec![]))));
    let predictor = Predictor::new(config).unwrap();
    let calls = predictor.config_calls();
    assert_eq!(
        calls,
        &vec![
            load_call(),
            ConfigCall::EnableUseGpu { memory_pool_init_size_mb: 512, device_id: 0 },
            ConfigCall::EnableCudnn,
            ConfigCall::EnableTensorRtEngine {
                workspace_size: 1048576,
                max_batch_size: 1,
                min_subgraph_size: 3,
                precision: PrecisionType::Float32,
                use_static: 0,
                use_calib_mode: 0,
            },
            ConfigCall::SwitchIrOptim { enable: 1 },
            ConfigCall::SwitchIrDebug { enable: 0 },
            ConfigCall::EnableMemoryOptim { enable: 1 },
        ]
    );
    assert!(!calls.iter().any(|call| matches!(call, ConfigCall::SetTrtDynamicShapeInfo { .. })));
    assert_eq!(count(calls, Section::Gpu), 3);
}

#[test]
fn mismatched_dynamic_shapes_fail_the_construction() {
    let config = Config::new(model())
        .gpu(gpu(Some(tensor_rt(vec![shape("x", 3, 4, 3), shape("y", 4, 3, 4)]))));
    let copy = config.clone();
    assert_eq!(
        Predictor::new(config).err(),
        Some(ConfigError::ShapeSizeMismatch { min: 3, max: 4, optim: 3 })
    );
    let mut native = NativeConfig::new();
    assert_eq!(
        copy.set_to(&mut native),
        Err(ConfigError::ShapeSizeMismatch { min: 3, max: 4, optim: 3 })
    );
    assert_eq!(native.len(), 0);
    assert!(!native.calls().iter().any(|call| matches!(call, ConfigCall::EnableTensorRtEngine { .. })));
}

#[test]
fn a_mismatch_in_a_later_entry_fails_too() {
    let config = Config::new(model())
        .cpu(Cpu { threads: Some(4), mkldnn: None })
        .gpu(gpu(Some(tensor_rt(vec![shape("x", 3, 3, 3), shape("y", 4, 4, 5)]))));
    let mut native = NativeConfig::new();
    assert_eq!(
        config.set_to(&mut native),
        Err(ConfigError::ShapeSizeMismatch { min: 4, max: 4, optim: 5 })
    );
    assert_eq!(native.len(), 0);
    assert_eq!(native.count(Section::Gpu), 0);
    assert_eq!(native.count(Section::Model), 0);
}

#[test]
fn validate_makes_no_call_and_says_what_set_to_will() {
    let refused = Config::new(model()).gpu(gpu(Some(tensor_rt(vec![shape("x", 1, 2, 3)]))));
    assert_eq!(
        refused.validate(),
        Err(ConfigError::ShapeSizeMismatch { min: 1, max: 2, optim: 3 })
    );
    let mut native = NativeConfig::new();
    assert_eq!(refused.validate(), refused.clone().set_to(&mut native));
    assert_eq!(Config::new(model()).validate(), Ok(()));
    assert_eq!(everything().validate(), Ok(()));
}

#[test]
fn a_corrected_configuration_is_accepted() {
    let refused = Config::new(model()).gpu(gpu(Some(tensor_rt(vec![shape("x", 3, 4, 3)]))));
    assert!(Predictor::new(refused).is_err());
    let corrected = Config::new(model()).gpu(gpu(Some(tensor_rt(vec![shape("x", 3, 3, 3)]))));
    let predictor = Predictor::new(corrected).unwrap();
    assert_eq!(count(predictor.config_calls(), Section::Gpu), 4);
}

#[test]
fn without_gpu_no_gpu_call() {
    let configs = vec![
        Config::new(model()),
        Config::new(model()).cpu(Cpu { threads: Some(1), mkldnn: Some(Mkldnn::default()) }),
        {
            let mut config = everything();
            config.gpu = None;
            config
        },
    ];
    for config in configs {
        let predictor = Predictor::new(config).unwrap();
        assert_eq!(count(predictor.config_calls(), Section::Gpu), 0);
    }
}

#[test]
fn the_model_is_loaded_first() {
    let configs = vec![
        Config::new(model()),
        Config::new(model()).disable_log_info().gpu(gpu(None)),
        Config::new(Model::Memory { model_buffer: vec![1], params_buffer: vec![2] })
            .cpu(Cpu { threads: Some(3), mkldnn: None }),
        everything(),
    ];
    for config in configs {
        let predictor = Predictor::new(config).unwrap();
        let calls = predictor.config_calls();
        assert_eq!(calls[0].section(), Section::Model);
        assert_eq!(count(calls, Section::Model), 1);
        assert!(calls[1..].iter().all(|call| call.section() != Section::Model));
    }
}

#[test]
fn the_order_of_the_builders_does_not_matter() {
    let one = Config::new(model())
        .disable_log_info()
        .gpu(gpu(None))
        .cpu(Cpu { threads: Some(2), mkldnn: None });
    let other = Config::new(model())
        .cpu(Cpu { threads: Some(2), mkldnn: None })
        .gpu(gpu(None))
        .disable_log_info();
    assert_eq!(
        Predictor::new(one).unwrap().config_calls(),
        Predictor::new(other).unwrap().config_calls()
    );
}

#[test]
fn every_call_in_the_mandated_order() {
    let predictor = Predictor::new(everything()).unwrap();
    let calls = predictor.config_calls();
    let places: Vec<u8> = calls.iter().map(|call| call.order()).collect();
    assert_eq!(places, (0u8..24).collect::<Vec<u8>>());
    assert_eq!(
        calls.iter().map(|call| call.section()).collect::<Vec<Section>>(),
        vec![
            Section::Model,
            Section::Cpu,
            Section::Cpu,
            Section::Cpu,
            Section::Cpu,
            Section::Cpu,
            Section::Gpu,
            Section::Gpu,
            Section::Gpu,
            Section::Gpu,
            Section::Gpu,
            Section::Gpu,
            Section::Gpu,
            Section::Xpu,
            Section::OnnxRuntime,
            Section::OnnxRuntime,
            Section::IrOptim,
            Section::IrDebug,
            Section::Lite,
            Section::MemoryOptim,
            Section::CacheDir,
            Section::FcPadding,
            Section::Profile,
            Section::Log,
        ]
    );
}

#[test]
fn the_switches_reflect_their_fields() {
    let mut config = Config::new(model()).ir_optimization(false).ir_debug(true);
    config.memory_optimization = 0;
    let predictor = Predictor::new(config).unwrap();
    assert_eq!(
        predictor.config_calls(),
        &vec![
            load_call(),
            ConfigCall::SwitchIrOptim { enable: 0 },
            ConfigCall::SwitchIrDebug { enable: 1 },
            ConfigCall::EnableMemoryOptim { enable: 0 },
        ]
    );
}

#[test]
fn the_optional_knobs_come_last() {
    let config = Config::new(model())
        .set_optimization_cache_dir("/var/cache/trt")
        .disable_fc_padding()
        .enable_profile()
        .disable_log_info();
    let predictor = Predictor::new(config).unwrap();
    assert_eq!(
        predictor.config_calls()[4..],
        vec![
            ConfigCall::SetOptimCacheDir { dir: b"/var/cache/trt\0".to_vec() },
            ConfigCall::DisableFCPadding,
            ConfigCall::EnableProfile,
            ConfigCall::DisableGlogInfo,
        ]
    );
}

#[test]
fn every_recorded_string_ends_in_a_zero_byte() {
    let predictor = Predictor::new(everything()).unwrap();
    for call in predictor.config_calls() {
        match call {
            ConfigCall::SetModel { prog_file, params_file } => {
                assert_eq!(prog_file.last(), Some(&0));
                assert_eq!(params_file.last(), Some(&0));
            }
            ConfigCall::SetTrtDynamicShapeInfo {
                tensor_names,
                shapes_num,
                min_shapes,
                max_shapes,
                optim_shapes,
                ..
            } => {
                assert_eq!(tensor_names.len(), 2);
                assert_eq!(shapes_num, &vec![3, 4]);
                for i in 0..2 {
                    assert_eq!(tensor_names[i].last(), Some(&0));
                    assert_eq!(min_shapes[i].len(), shapes_num[i]);
                    assert_eq!(max_shapes[i].len(), shapes_num[i]);
                    assert_eq!(optim_shapes[i].len(), shapes_num[i]);
                }
            }
            ConfigCall::EnableXpu { encoder_precision, autotune_file, .. } => {
                assert_eq!(encoder_precision.last(), Some(&0));
                assert!(autotune_file.is_none());
            }
            ConfigCall::SetOptimCacheDir { dir } => assert_eq!(dir.last(), Some(&0)),
            _ => {}
        }
    }
}
