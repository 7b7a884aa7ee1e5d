use paddle_inference::common::PrecisionType;
use paddle_inference::config::lite_engine::LiteEngine;
use paddle_inference::config::model::Model;
use paddle_inference::config::setting::{Cpu, Gpu, Mkldnn, ONNXRuntime, Xpu};
use paddle_inference::config::Config;

fn model() -> Model {
    Model::Path {
        model_file: "inference.pdmodel".to_string(),
        params_file: "inference.pdiparams".to_string(),
    }
}

#[test]
fn new_has_the_defaults() {
    let config = Config::new(model());
    assert!(matches!(
        &config.model,
        Model::Path { model_file, params_file }
            if model_file == "inference.pdmodel" && params_file == "inference.pdiparams"
    ));
    assert!(config.cpu.threads.is_none());
    assert!(config.cpu.mkldnn.is_none());
    assert!(config.gpu.is_none());
    assert!(config.xpu.is_none());
    assert!(config.onnx_runtime.is_none());
    assert_eq!(config.ir_optimization, 1);
    assert_eq!(config.ir_debug, 0);
    assert!(config.lite.is_none());
    assert_eq!(config.memory_optimization, 1);
    assert!(config.optimization_cache_dir.is_none());
    assert!(!config.disable_fc_padding);
    assert!(!config.profile);
    assert!(!config.disable_log);
}

#[test]
fn cpu_default_is_empty() {
    let cpu = Cpu::default();
    assert!(cpu.threads.is_none());
    assert!(cpu.mkldnn.is_none());
    let mkldnn = Mkldnn::default();
    assert!(mkldnn.cache_size.is_none());
    assert!(mkldnn.op.is_none());
    assert!(mkldnn.op_f16.is_none());
}

#[test]
fn disable_log_info_sets_only_its_flag() {
    let config = Config::new(model()).disable_log_info();
    assert!(config.disable_log);
    assert!(!config.profile);
    assert!(!config.disable_fc_padding);
    assert_eq!(config.ir_optimization, 1);
    assert_eq!(config.memory_optimization, 1);
}

#[test]
fn enable_profile_sets_only_its_flag() {
    let config = Config::new(model()).enable_profile();
    assert!(config.profile);
    assert!(!config.disable_log);
    assert!(!config.disable_fc_padding);
}

#[test]
fn disable_fc_padding_sets_only_its_flag() {
    let config = Config::new(model()).disable_fc_padding();
    assert!(config.disable_fc_padding);
    assert!(!config.disable_log);
    assert!(!config.profile);
}

#[test]
fn set_optimization_cache_dir_keeps_the_text() {
    let config = Config::new(model()).set_optimization_cache_dir("/tmp/cache");
    assert_eq!(config.optimization_cache_dir, Some("/tmp/cache".to_string()));
    assert!(config.gpu.is_none());
}

#[test]
fn enable_memory_optimization_turns_it_on_again() {
    let mut config = Config::new(model());
    config.memory_optimization = 0;
    let config = config.enable_memory_optimization();
    assert_eq!(config.memory_optimization, 1);
}

#[test]
fn ir_switches_map_without_inversion() {
    let config = Config::new(model()).ir_optimization(false).ir_debug(true);
    assert_eq!(config.ir_optimization, 0);
    assert_eq!(config.ir_debug, 1);
    let config = config.ir_optimization(true).ir_debug(false);
    assert_eq!(config.ir_optimization, 1);
    assert_eq!(config.ir_debug, 0);
}

#[test]
fn device_builders_store_what_they_are_given() {
    let config = Config::new(model())
        .cpu(Cpu { threads: Some(8), mkldnn: None })
        .gpu(Gpu {
            memory_pool_init_size_mb: 256,
            device_id: 1,
            enable_multi_stream: true,
            enable_cudnn: false,
            enable_tensor_rt: None,
        })
        .xpu(Xpu {
            l3_workspace_size_mb: 16,
            locked: true,
            autorune: false,
            autotune_file: None,
            precision: "int16".to_string(),
            adaptive_seqlen: false,
        })
        .onnx_runtime(ONNXRuntime { enable_optimization: true })
        .enable_lite_engine(LiteEngine {
            precision: PrecisionType::Int8,
            zero_copy: true,
            passes_filter: vec![],
            ops_filter: vec!["softmax".to_string()],
        });
    assert_eq!(config.cpu.threads, Some(8));
    let gpu = config.gpu.as_ref().unwrap();
    assert_eq!(gpu.memory_pool_init_size_mb, 256);
    assert_eq!(gpu.device_id, 1);
    assert!(gpu.enable_multi_stream);
    let xpu = config.xpu.as_ref().unwrap();
    assert_eq!(xpu.l3_workspace_size_mb, 16);
    assert_eq!(xpu.precision, "int16");
    assert!(config.onnx_runtime.as_ref().unwrap().enable_optimization);
    let lite = config.lite.as_ref().unwrap();
    assert_eq!(lite.precision, PrecisionType::Int8);
    assert_eq!(lite.ops_filter, vec!["softmax".to_string()]);
}

#[test]
fn a_config_can_be_copied() {
    let config = Config::new(model()).set_optimization_cache_dir("cache").enable_profile();
    let copy = config.clone();
    assert_eq!(copy.optimization_cache_dir, config.optimization_cache_dir);
    assert_eq!(copy.profile, config.profile);
    assert_eq!(copy.ir_optimization, config.ir_optimization);
}
