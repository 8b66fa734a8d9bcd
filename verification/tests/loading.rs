use std::path::{Path, PathBuf};

use candle_core::DType;
use normal_pipeline::calibrate::ChatTemplate;
use normal_pipeline::config::{ChunkSize, LayerTopology, NormalSpecificConfig, Topology};
use normal_pipeline::device::Device;
use normal_pipeline::error::LoadError;
use normal_pipeline::kinds::{
    AdapterKind, AttentionImplementation, CacheKind, CacheReset, ImatrixDataSource, IsqOrganization, IsqType, ModelKind,
    TokenSource,
};
use normal_pipeline::load::{
    calibration_turns, Load, LoadAction, LoadEvent, LoadPhase, LoadRequest, MappingChoice, ModelBuild, ModelFiles,
};
use normal_pipeline::loader::{AdapterOrdering, NormalLoader, NormalLoaderBuilder};
use normal_pipeline::parallel::{BarrierPlan, IdExchange, ParallelEnv};
use normal_pipeline::pipeline::{CacheConfig, ModelInfo, NonGranularState, NormalPipeline};
use normal_pipeline::sizing::UqffArtifact;

fn env() -> ParallelEnv {
    ParallelEnv {
        no_nccl: None,
        pipeline_parallel: None,
        global_world_size: None,
        head_num_workers: None,
        head_port: None,
        worker_server_addr: None,
        worker_id: None,
    }
}

fn request() -> LoadRequest<u8> {
    LoadRequest {
        default_chunk: ChunkSize::new(1024).unwrap(),
        device: Device::Cuda { gpu_id: 0 },
        silent: true,
        auto_mapping: false,
        in_situ_quant: None,
        paged_attn_config: None,
        nccl_built: true,
        env: env(),
    }
}

fn files() -> ModelFiles {
    ModelFiles { template_filename: Some(PathBuf::from("template.json")), generation_config: None }
}

type Loader = NormalLoader<Vec<String>>;
type Running<'a> = Load<'a, u8, Vec<String>>;

fn loader(config: NormalSpecificConfig) -> Loader {
    NormalLoaderBuilder::new(config, None, None, Some("m".to_string())).build(None).unwrap()
}

fn model(device: Device) -> ModelInfo {
    ModelInfo {
        device,
        cache: CacheKind::Normal,
        cache_layers: 32,
        is_xlora: false,
        max_seq_len: 4096,
        sliding_window: Some(512),
    }
}

fn advance(s: Running<'_>, e: LoadEvent) -> (Running<'_>, LoadAction<u8>) {
    assert!(s.is_acceptable(&e));
    s.step(e).ok().unwrap()
}

fn refuse(s: Running<'_>, e: LoadEvent) -> LoadError {
    assert!(s.is_acceptable(&e));
    s.step(e).err().unwrap()
}

fn listed(l: &Loader, r: LoadRequest<u8>, devices: Vec<Device>) -> (Running<'_>, LoadAction<u8>) {
    let (s, a) = l.load_model_from_path(files(), r);
    assert!(matches!(a, LoadAction::ReadConfig));
    let (s, a) = advance(s, LoadEvent::ConfigRead { config: "{}".to_string() });
    assert!(matches!(a, LoadAction::ListDevices));
    advance(s, LoadEvent::DevicesListed { devices })
}

fn mapped(unique_devices: Vec<Device>) -> LoadEvent {
    LoadEvent::Mapped { unique_devices, dtype: DType::BF16 }
}

fn gpu() -> Device {
    Device::Cuda { gpu_id: 0 }
}

fn to_models(l: &Loader, r: LoadRequest<u8>) -> (Running<'_>, LoadAction<u8>) {
    let (s, _) = listed(l, r, vec![gpu()]);
    advance(s, mapped(vec![gpu()]))
}

fn to_tokenizer(l: &Loader, r: LoadRequest<u8>) -> Running<'_> {
    let (s, _) = to_models(l, r);
    let (s, a) = advance(s, LoadEvent::ModelsLoaded { models: vec![model(gpu())] });
    assert!(matches!(a, LoadAction::LoadTokenizer));
    s
}

fn tokenizer_loaded() -> LoadEvent {
    LoadEvent::TokenizerLoaded {
        chat_template: ChatTemplate { bos_tok: Some("<s>".to_string()) },
        eos_tok: vec![2],
    }
}

fn finished(a: LoadAction<u8>) -> NormalPipeline {
    match a {
        LoadAction::Finish { pipeline } => pipeline,
        _ => panic!(),
    }
}

#[test]
fn plain_load_goes_straight_through() {
    let l = loader(NormalSpecificConfig::default());
    let (s, a) = listed(&l, request(), vec![gpu()]);
    assert!(matches!(a, LoadAction::BuildMappers { choice: MappingChoice::Given }));
    let (s, a) = advance(s, mapped(vec![gpu()]));
    match a {
        LoadAction::LoadModel { build } => {
            assert_eq!(build.kind, ModelKind::Normal);
            assert!(!build.loading_isq);
            assert!(!build.from_uqff);
            assert!(!build.moe_experts_only);
            assert_eq!(build.load_device, gpu());
            assert_eq!(build.attention, AttentionImplementation::Eager);
        }
        _ => panic!(),
    }
    let (s, _) = advance(s, LoadEvent::ModelsLoaded { models: vec![model(gpu())] });
    let (s, a) = advance(s, tokenizer_loaded());
    assert_eq!(s.state().phase, LoadPhase::Done);
    let p = finished(a);
    assert_eq!(p.parts().parallel_models, vec![model(gpu())]);
    assert_eq!(p.name(), "m");
    assert_eq!(p.parts().config, "{}");
    assert_eq!(p.parts().template_filename.as_deref(), Some(Path::new("template.json")));
    assert!(p.parts().generation_config.is_none());
    assert!(p.parts().silent);
    assert_eq!(p.get_metadata().max_seq_len, 4096);
    assert_eq!(p.get_metadata().num_hidden_layers, 32);
    assert_eq!(p.get_metadata().sliding_window, Some(512));
    assert_eq!(p.get_metadata().eos_tok, vec![2]);
    assert_eq!(p.get_metadata().activation_dtype, DType::BF16);
    assert_eq!(p.get_metadata().prompt_chunksize.unwrap().get(), 1024);
    assert!(!p.get_metadata().no_prefix_cache);
    assert!(p.get_metadata().cache_config.is_none());
    assert!(p.get_metadata().cache_engines.is_none());
    assert!(p.parts().non_granular_state.is_none());
    assert_eq!(p.get_chat_template().unwrap().bos_tok.as_deref(), Some("<s>"));
}

#[test]
fn events_out_of_turn_are_not_accepted() {
    let l = loader(NormalSpecificConfig::default());
    let (s, _) = l.load_model_from_path(files(), request());
    assert!(!s.is_acceptable(&LoadEvent::Placed));
    assert!(!s.is_acceptable(&LoadEvent::DevicesListed { devices: vec![] }));
    let (s, _) = to_models(&l, request());
    assert!(!s.is_acceptable(&LoadEvent::ModelsLoaded { models: vec![] }));
}

#[test]
fn automatic_placement_measures_the_model_first() {
    let l = loader(NormalSpecificConfig::default());
    let mut r = request();
    r.auto_mapping = true;
    let (s, a) = listed(&l, r, vec![gpu()]);
    assert!(matches!(a, LoadAction::ResolveDtype));
    let (s, a) = advance(s, LoadEvent::DtypeResolved);
    assert!(matches!(a, LoadAction::MeasureModel { weight_pack_factor: 1 }));
    let big = LoadEvent::Measured {
        layer_sizes_in_bytes: vec![usize::MAX, 1],
        non_mapped_size_in_bytes: 0,
    };
    assert!(!s.is_acceptable(&big));
    let (s, a) = advance(s,
        LoadEvent::Measured { layer_sizes_in_bytes: vec![10, 20], non_mapped_size_in_bytes: 5 },
    );
    match a {
        LoadAction::PlaceLayers {
            layer_sizes_in_bytes,
            non_mapped_size_in_bytes,
            total_model_size_in_bytes,
            prompt_chunksize,
        } => {
            assert_eq!(layer_sizes_in_bytes, vec![10, 20]);
            assert_eq!(non_mapped_size_in_bytes, 5);
            assert_eq!(total_model_size_in_bytes, 35);
            assert_eq!(prompt_chunksize, 1024);
        }
        _ => panic!(),
    }
    let (_, a) = advance(s, LoadEvent::Placed);
    assert!(matches!(a, LoadAction::BuildMappers { choice: MappingChoice::Placed }));
}

#[test]
fn requested_quantisation_gives_the_pack_factor() {
    let l = loader(NormalSpecificConfig::default());
    let mut r = request();
    r.auto_mapping = true;
    r.in_situ_quant = Some(IsqType::Q4K);
    let (s, _) = listed(&l, r, vec![gpu()]);
    let (s, a) = advance(s, LoadEvent::DtypeResolved);
    assert!(matches!(a, LoadAction::AskPackFactor { isq: IsqType::Q4K }));
    let (_, a) = advance(s, LoadEvent::PackFactorKnown { pack_factor: 4 });
    assert!(matches!(a, LoadAction::MeasureModel { weight_pack_factor: 4 }));
}

fn uqff_loader() -> Loader {
    let mut config = NormalSpecificConfig::default();
    config.from_uqff = Some(PathBuf::from("q.uqff"));
    let mut l = loader(config);
    let begun: Result<_, ()> = l.load_model_from_hf(
        None,
        TokenSource { text: "none".to_string() },
        Ok(files()),
        Some(Ok(PathBuf::from("/c/q.uqff"))),
        request(),
    );
    assert!(begun.is_ok());
    l
}

#[test]
fn serialised_tensors_take_priority_for_the_pack_factor() {
    let l = uqff_loader();
    let mut r = request();
    r.auto_mapping = true;
    r.in_situ_quant = Some(IsqType::Q4K);
    let (s, _) = listed(&l, r, vec![gpu()]);
    let (s, a) = advance(s, LoadEvent::DtypeResolved);
    match a {
        LoadAction::ReadArtifacts { path } => assert_eq!(path, Path::new("/c/q.uqff")),
        _ => panic!(),
    }
    assert!(!s.is_acceptable(&LoadEvent::ArtifactsRead { artifacts: vec![] }));
    let artifacts =
        vec![UqffArtifact::Hqq { pack_factor: 4 }, UqffArtifact::Unquant, UqffArtifact::Unquant];
    let (_, a) = advance(s, LoadEvent::ArtifactsRead { artifacts });
    assert!(matches!(a, LoadAction::MeasureModel { weight_pack_factor: 2 }));
}

#[test]
fn serialised_tensors_are_loaded_instead_of_quantising() {
    let l = uqff_loader();
    let mut r = request();
    r.in_situ_quant = Some(IsqType::Q4K);
    let (s, a) = to_models(&l, r);
    match a {
        LoadAction::LoadModel { build } => {
            assert!(build.loading_isq);
            assert!(build.from_uqff);
            assert_eq!(build.load_device, Device::Cpu);
        }
        _ => panic!(),
    }
    let (s, _) = advance(s, LoadEvent::ModelsLoaded { models: vec![model(gpu())] });
    let (s, a) = advance(s, tokenizer_loaded());
    match a {
        LoadAction::LoadArtifacts { path, device, topology, silent } => {
            assert_eq!(path, Path::new("/c/q.uqff"));
            assert_eq!(device, gpu());
            assert!(topology.is_none());
            assert!(silent);
        }
        _ => panic!(),
    }
    let (_, a) = advance(s, LoadEvent::Quantized);
    finished(a);
}

#[test]
fn contradictory_config_is_refused_before_any_weights() {
    let mut config = NormalSpecificConfig::default();
    config.imatrix = Some(PathBuf::from("i"));
    config.calibration_file = Some(PathBuf::from("c"));
    let l = loader(config);
    let (s, _) = listed(&l, request(), vec![gpu()]);
    let e = refuse(s, mapped(vec![gpu()]));
    assert!(matches!(e, LoadError::ImatrixAndCalibration));
    assert_eq!(
        e.message(),
        "`imatrix` and `calibration_file` were both specified, this is not allowed."
    );
}

#[test]
fn quantisation_follows_the_request_and_the_importance_matrix() {
    let mut config = NormalSpecificConfig::default();
    config.imatrix = Some(PathBuf::from("i.dat"));
    config.organization = IsqOrganization::MoeExpertsOnly;
    config.write_uqff = Some(PathBuf::from("out.uqff"));
    let l = loader(config);
    let mut r = request();
    r.in_situ_quant = Some(IsqType::Q8_0);
    let s = to_tokenizer(&l, r);
    assert_eq!(s.state().load_device, Device::Cpu);
    let (s, a) = advance(s, tokenizer_loaded());
    match a {
        LoadAction::Quantize { plan } => {
            assert_eq!(plan.isq, Some(IsqType::Q8_0));
            assert_eq!(plan.devices, vec![gpu()]);
            assert!(matches!(plan.imatrix, Some(ImatrixDataSource::File { ref path }) if path == Path::new("i.dat")));
            assert_eq!(plan.organization, IsqOrganization::MoeExpertsOnly);
            assert_eq!(plan.write_uqff.as_deref(), Some(Path::new("out.uqff")));
            assert!(plan.silent);
        }
        _ => panic!(),
    }
    let (_, a) = advance(s, LoadEvent::Quantized);
    let p = finished(a);
    assert_eq!(p.parts().imatrix.as_deref(), Some(Path::new("i.dat")));
    assert_eq!(p.parts().organization, IsqOrganization::MoeExpertsOnly);
}

#[test]
fn topology_alone_calls_for_a_quantisation_pass() {
    let mut config = NormalSpecificConfig::default();
    config.topology = Some(Topology {
        layers: vec![Some(LayerTopology { isq: None, device: Some(gpu()) })],
    });
    let l = loader(config);
    let s = to_tokenizer(&l, request());
    assert!(!s.state().loading_isq);
    assert_eq!(s.state().load_device, gpu());
    let (_, a) = advance(s, tokenizer_loaded());
    match a {
        LoadAction::Quantize { plan } => {
            assert_eq!(plan.isq, None);
            assert!(plan.imatrix.is_none());
            assert_eq!(plan.topology.unwrap().layers.len(), 1);
        }
        _ => panic!(),
    }
}

#[test]
fn calibration_runs_on_the_device_and_feeds_quantisation() {
    let mut config = NormalSpecificConfig::default();
    config.calibration_file = Some(PathBuf::from("text"));
    let l = loader(config);
    let mut r = request();
    r.in_situ_quant = Some(IsqType::Q4K);
    let s = to_tokenizer(&l, r);
    assert!(!s.state().loading_isq);
    assert_eq!(s.state().load_device, gpu());
    let (s, a) = advance(s, tokenizer_loaded());
    match a {
        LoadAction::ReadCalibration { path } => assert_eq!(path, Path::new("text")),
        _ => panic!(),
    }
    let (s, a) =
        advance(s, LoadEvent::CalibrationRead { bos: 1, tokens: (0..1025).collect() });
    match a {
        LoadAction::Calibrate { organization, device, turns } => {
            assert_eq!(device, gpu());
            assert_eq!(organization, IsqOrganization::Default);
            assert_eq!(turns.len(), 2);
            assert_eq!(turns[0].tokens.len(), 1025);
            assert_eq!(turns[1].tokens, vec![1, 1024]);
            for turn in &turns {
                assert_eq!(turn.offset, 0);
                assert_eq!(turn.resets, vec![CacheReset::ZeroLengths]);
            }
        }
        _ => panic!(),
    }
    let (_, a) = advance(s, LoadEvent::Calibrated);
    match a {
        LoadAction::Quantize { plan } => {
            assert!(matches!(plan.imatrix, Some(ImatrixDataSource::Collected)))
        }
        _ => panic!(),
    }
}

#[test]
fn paged_attention_gets_an_engine_for_each_model() {
    let l = loader(NormalSpecificConfig::default());
    let mut r = request();
    r.paged_attn_config = Some(9);
    let (s, a) = to_models(&l, r);
    match a {
        LoadAction::LoadModel { build } => {
            assert_eq!(build.attention, AttentionImplementation::PagedAttention)
        }
        _ => panic!(),
    }
    let (s, _) = advance(s, LoadEvent::ModelsLoaded { models: vec![model(gpu())] });
    let (s, a) = advance(s, tokenizer_loaded());
    match a {
        LoadAction::BuildCache { config, engines } => {
            assert_eq!(config, 9);
            assert_eq!(engines, vec![gpu()]);
        }
        _ => panic!(),
    }
    let cache_config = CacheConfig { block_size: 16, num_gpu_blocks: 100, num_cpu_blocks: 10 };
    let (_, a) = advance(s, LoadEvent::CacheBuilt { cache_config });
    let p = finished(a);
    assert_eq!(p.get_metadata().cache_config, Some(cache_config));
    assert_eq!(p.get_metadata().cache_engines, Some(vec![gpu()]));
}

#[test]
fn layers_on_the_cpu_switch_paging_off() {
    let l = loader(NormalSpecificConfig::default());
    let mut r = request();
    r.paged_attn_config = Some(9);
    let (s, _) = listed(&l, r, vec![gpu()]);
    let (s, a) = advance(s, mapped(vec![gpu(), Device::Cpu]));
    match a {
        LoadAction::LoadModel { build } => {
            assert_eq!(build.attention, AttentionImplementation::Eager)
        }
        _ => panic!(),
    }
    let (s, _) = advance(s, LoadEvent::ModelsLoaded { models: vec![model(gpu())] });
    let (_, a) = advance(s, tokenizer_loaded());
    assert!(finished(a).get_metadata().cache_engines.is_none());
}

#[test]
fn adapters_switch_paging_off_after_loading() {
    let l = NormalLoaderBuilder::new(NormalSpecificConfig::default(), None, None, None)
        .with_xlora(
            "x".to_string(),
            AdapterOrdering { base_model_id: "b".to_string(), adapters: vec!["x".to_string()] },
            true,
            Some(4),
        )
        .build(None)
        .unwrap();
    let mut r = request();
    r.paged_attn_config = Some(9);
    let (s, a) = to_models(&l, r);
    match a {
        LoadAction::LoadModel { build } => {
            assert!(build.kind.is_xlora());
            assert_eq!(build.attention, AttentionImplementation::PagedAttention);
        }
        _ => panic!(),
    }
    let (s, _) = advance(s, LoadEvent::ModelsLoaded { models: vec![model(gpu())] });
    let (_, a) = advance(s, tokenizer_loaded());
    let p = finished(a);
    assert!(p.get_metadata().cache_engines.is_none());
    assert!(p.get_metadata().no_prefix_cache);
    assert!(p.get_metadata().is_xlora);
    assert!(p.parts().no_kv_cache);
    assert!(p.get_metadata().no_kv_cache);
    assert_eq!(p.name(), "b");
    assert_eq!(
        p.parts().non_granular_state,
        Some(NonGranularState { non_granular_index: 0, tgt_non_granular_index: 4 })
    );
}

fn four() -> Vec<Device> {
    (0..4).map(|gpu_id| Device::Cuda { gpu_id }).collect()
}

#[test]
fn nccl_load_seats_every_device() {
    let mut config = NormalSpecificConfig::default();
    config.from_uqff = Some(PathBuf::from("q"));
    let l = loader(config);
    let mut r = request();
    r.auto_mapping = true;
    r.env.pipeline_parallel = Some("2".to_string());
    let (s, a) = listed(&l, r, four());
    match a {
        LoadAction::BuildMappers { choice: MappingChoice::Nccl { devices } } => {
            assert_eq!(devices, four())
        }
        _ => panic!(),
    }
    let (s, a) = advance(s, mapped(four()));
    assert!(matches!(a, LoadAction::JoinWorld { ids: 2, exchange: IdExchange::Skip }));
    let (s, a) = advance(s, LoadEvent::WorldJoined);
    match a {
        LoadAction::ConnectRanks { seats, barrier } => {
            assert!(matches!(barrier, BarrierPlan::Local { local_world_size: 2 }));
            assert_eq!(seats.len(), 2);
            assert_eq!(seats[1][1].device, Device::Cuda { gpu_id: 3 });
            assert_eq!(seats[1][1].rank, 1);
            assert_eq!(seats[1][1].stage, 1);
            assert_eq!(seats[1][1].world_size, 2);
        }
        _ => panic!(),
    }
    let (s, a) = advance(s, LoadEvent::RanksConnected);
    match a {
        LoadAction::LoadShards { build, ranks, dummy_layers, move_shards } => {
            assert!(build.loading_isq);
            assert_eq!(ranks.len(), 2);
            assert_eq!(ranks[1][0].device, Device::Cuda { gpu_id: 1 });
            assert_eq!(ranks[1][1].device, Device::Cuda { gpu_id: 3 });
            assert_eq!(dummy_layers, Some(IsqOrganization::Default));
            assert!(!move_shards);
        }
        _ => panic!(),
    }
    let one = LoadEvent::ModelsLoaded { models: vec![model(gpu())] };
    assert!(!s.is_acceptable(&one));
    let models = vec![model(gpu()), model(Device::Cuda { gpu_id: 1 })];
    let (s, _) = advance(s, LoadEvent::ModelsLoaded { models });
    let (_, a) = advance(s, tokenizer_loaded());
    assert_eq!(finished(a).parts().parallel_models.len(), 2);
}

#[test]
fn nccl_load_is_refused_where_the_world_does_not_work_out() {
    let l = loader(NormalSpecificConfig::default());
    let mut r = request();
    r.env.global_world_size = Some("6".to_string());
    let (s, _) = listed(&l, r, four());
    assert!(matches!(
        refuse(s, mapped(four())),
        LoadError::WorldSize { global: 6, local: 4 }
    ));

    let mut r = request();
    r.env.pipeline_parallel = Some("3".to_string());
    let (s, _) = listed(&l, r, four());
    let (s, _) = advance(s, mapped(four()));
    assert!(matches!(
        refuse(s, LoadEvent::WorldJoined),
        LoadError::UnevenStages { stages: 3, devices: 4 }
    ));

    let mut r = request();
    r.env.worker_server_addr = Some("h:1".to_string());
    let (s, _) = listed(&l, r, four());
    let (s, _) = advance(s, mapped(four()));
    assert!(matches!(refuse(s, LoadEvent::WorldJoined), LoadError::NoWorkerId));

    let mut r = request();
    r.env.pipeline_parallel = Some("9".to_string());
    let (s, _) = listed(&l, r, four());
    assert!(!s.is_acceptable(&mapped(four())));
}

#[test]
fn shards_move_to_their_device_unless_quantised() {
    let l = loader(NormalSpecificConfig::default());
    let mut r = request();
    r.env.worker_server_addr = Some("h:1".to_string());
    r.env.worker_id = Some("0".to_string());
    r.env.global_world_size = Some("8".to_string());
    let (s, _) = listed(&l, r, four());
    let (s, a) = advance(s, mapped(four()));
    assert!(matches!(a, LoadAction::JoinWorld { ids: 1, exchange: IdExchange::Follow { .. } }));
    let (s, a) = advance(s, LoadEvent::WorldJoined);
    match a {
        LoadAction::ConnectRanks { seats, .. } => {
            assert_eq!(seats[0][0].rank, 4);
            assert_eq!(seats[0][3].rank, 7);
            assert_eq!(seats[0][3].world_size, 8);
        }
        _ => panic!(),
    }
    let (_, a) = advance(s, LoadEvent::RanksConnected);
    match a {
        LoadAction::LoadShards { dummy_layers, move_shards, ranks, .. } => {
            assert!(dummy_layers.is_none());
            assert!(move_shards);
            assert_eq!(ranks.len(), 4);
            assert_eq!(ranks[2].len(), 1);
        }
        _ => panic!(),
    }
}

#[test]
fn hub_load_begins_with_what_was_asked_for() {
    let mut l = loader(NormalSpecificConfig::default());
    let mut r = request();
    r.in_situ_quant = Some(IsqType::Q8_0);
    let begun: Result<_, &str> = l.load_model_from_hf(
        Some("v2".to_string()),
        TokenSource { text: "cache".to_string() },
        Ok(files()),
        None,
        r,
    );
    let (s, a) = begun.ok().unwrap();
    assert!(matches!(a, LoadAction::ReadConfig));
    assert_eq!(s.state().phase, LoadPhase::ConfigWanted);
    assert_eq!(s.state().request.in_situ_quant, Some(IsqType::Q8_0));
    assert_eq!(s.state().request.device, gpu());
    assert!(s.state().request.silent);
    assert_eq!(s.state().files.template_filename.as_deref(), Some(Path::new("template.json")));
    assert_eq!(l.revision().as_deref(), Some("v2"));
}

#[test]
fn only_models_without_adapters_take_shards() {
    let mut build = ModelBuild {
        kind: ModelKind::Normal,
        use_flash_attn: false,
        loading_isq: false,
        load_device: Device::Cpu,
        attention: AttentionImplementation::Eager,
        from_uqff: false,
        moe_experts_only: false,
    };
    assert!(build.takes_shards());
    build.kind = ModelKind::Adapter { adapter: AdapterKind::Lora };
    assert!(!build.takes_shards());
    build.kind = ModelKind::Adapter { adapter: AdapterKind::XLora };
    assert!(!build.takes_shards());
}

#[test]
fn calibration_empties_every_cache_after_each_chunk() {
    let mut full = model(gpu());
    full.cache = CacheKind::Full;
    let turns = calibration_turns(9, &(0..2500).collect(), &vec![full, model(gpu())]);
    assert_eq!(turns.len(), 3);
    assert_eq!(turns[0].tokens[..3], [9, 0, 1]);
    assert_eq!(turns[2].tokens[..2], [9, 2048]);
    assert_eq!(turns[2].tokens.len(), 453);
    for turn in &turns {
        assert_eq!(turn.offset, 0);
        assert_eq!(turn.resets, vec![CacheReset::DropLayers, CacheReset::ZeroLengths]);
    }
    assert!(calibration_turns(9, &vec![], &vec![full]).is_empty());
}
