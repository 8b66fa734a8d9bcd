use std::path::{Path, PathBuf};

use normal_pipeline::config::{ChunkSize, LayerTopology, NormalSpecificConfig, Topology};
use normal_pipeline::device::Device;
use normal_pipeline::kinds::{
    AdapterKind, ArchitectureLoader, IsqOrganization, IsqType, ModelKind, NormalLoaderType,
    TokenSource,
};
use normal_pipeline::load::{LoadAction, LoadRequest, ModelFiles};
use normal_pipeline::loader::{AdapterOrdering, NormalLoader, NormalLoaderBuilder};
use normal_pipeline::parallel::ParallelEnv;

fn order(base: &str) -> AdapterOrdering<u8> {
    AdapterOrdering { base_model_id: base.to_string(), adapters: 7 }
}

fn begun(
    loader: &mut NormalLoader<u8>,
    revision: Option<&str>,
    token_source: &str,
    files: Result<(), &'static str>,
    uqff: Option<Result<&str, &'static str>>,
) -> Result<(), &'static str> {
    let request = LoadRequest::<u8> {
        default_chunk: ChunkSize::new(8).unwrap(),
        device: Device::Cpu,
        silent: false,
        auto_mapping: false,
        in_situ_quant: None,
        paged_attn_config: None,
        nccl_built: false,
        env: ParallelEnv {
            no_nccl: None,
            pipeline_parallel: None,
            global_world_size: None,
            head_num_workers: None,
            head_port: None,
            worker_server_addr: None,
            worker_id: None,
        },
    };
    loader
        .load_model_from_hf(
            revision.map(|x| x.to_string()),
            TokenSource { text: token_source.to_string() },
            files.map(|_| ModelFiles { template_filename: None, generation_config: None }),
            uqff.map(|r| r.map(PathBuf::from)),
            request,
        )
        .map(|(_, action)| assert!(matches!(action, LoadAction::ReadConfig)))
}

fn builder(model_id: Option<&str>) -> NormalLoaderBuilder<u8> {
    NormalLoaderBuilder::new(
        NormalSpecificConfig::default(),
        Some("template".to_string()),
        Some("tokenizer.json".to_string()),
        model_id.map(|x| x.to_string()),
    )
}

#[test]
fn plain_builder_makes_a_normal_loader() {
    let loader = builder(Some("base")).build(None).unwrap();
    assert_eq!(loader.get_id(), "base");
    assert_eq!(loader.get_kind(), ModelKind::Normal);
    assert_eq!(loader.inner(), ArchitectureLoader::AutoLoader);
    assert_eq!(loader.chat_template().as_deref(), Some("template"));
    assert_eq!(loader.tokenizer_json().as_deref(), Some("tokenizer.json"));
    assert!(!loader.no_kv_cache());
    assert!(loader.xlora_order().is_none());
    assert!(loader.xlora_model_id().is_none());
    assert_eq!(loader.tgt_non_granular_index(), None);
    assert!(loader.token_source().is_none());
    assert!(loader.revision().is_none());
    assert!(loader.from_uqff().is_none());
}

#[test]
fn each_loader_type_has_its_architecture() {
    let pairs = vec![
        (NormalLoaderType::Mistral, ArchitectureLoader::MistralLoader),
        (NormalLoaderType::Gemma, ArchitectureLoader::GemmaLoader),
        (NormalLoaderType::Llama, ArchitectureLoader::LlamaLoader),
        (NormalLoaderType::Mixtral, ArchitectureLoader::MixtralLoader),
        (NormalLoaderType::Phi2, ArchitectureLoader::Phi2Loader),
        (NormalLoaderType::Phi3, ArchitectureLoader::Phi3Loader),
        (NormalLoaderType::Qwen2, ArchitectureLoader::Qwen2Loader),
        (NormalLoaderType::Gemma2, ArchitectureLoader::Gemma2Loader),
        (NormalLoaderType::Starcoder2, ArchitectureLoader::Starcoder2Loader),
        (NormalLoaderType::Phi3_5MoE, ArchitectureLoader::Phi3_5MoELoader),
        (NormalLoaderType::DeepSeekV2, ArchitectureLoader::DeepSeekV2Loader),
        (NormalLoaderType::DeepSeekV3, ArchitectureLoader::DeepSeekV3Loader),
    ];
    for (tp, arch) in pairs {
        assert_eq!(builder(Some("m")).build(Some(tp)).unwrap().inner(), arch);
    }
}

#[test]
fn lora_names_the_base_model_where_none_is_named() {
    let loader = builder(None).with_lora("adapter".to_string(), order("base")).build(None).unwrap();
    assert_eq!(loader.model_id(), "base");
    assert_eq!(loader.get_id(), "adapter");
    assert_eq!(loader.get_kind(), ModelKind::Adapter { adapter: AdapterKind::Lora });
    assert!(!loader.no_kv_cache());
    assert_eq!(loader.tgt_non_granular_index(), None);
    assert_eq!(loader.xlora_order().as_ref().unwrap().base_model_id, "base");
}

#[test]
fn named_model_stays_under_an_adapter() {
    let loader = builder(Some("mine"))
        .with_xlora("adapter".to_string(), order("base"), true, Some(3))
        .build(Some(NormalLoaderType::Llama))
        .unwrap();
    assert_eq!(loader.model_id(), "mine");
    assert_eq!(loader.get_id(), "adapter");
    assert_eq!(loader.get_kind(), ModelKind::Adapter { adapter: AdapterKind::XLora });
    assert!(loader.no_kv_cache());
    assert_eq!(loader.tgt_non_granular_index(), Some(3));
}

#[test]
fn last_adapter_wins_and_the_first_names_the_model() {
    let loader = builder(None)
        .with_xlora("first".to_string(), order("one"), true, Some(3))
        .with_lora("last".to_string(), order("two"))
        .build(None)
        .unwrap();
    assert_eq!(loader.model_id(), "one");
    assert_eq!(loader.get_id(), "last");
    assert_eq!(loader.get_kind(), ModelKind::Adapter { adapter: AdapterKind::Lora });
    assert!(!loader.no_kv_cache());
    assert_eq!(loader.tgt_non_granular_index(), None);
}

#[test]
fn kv_cache_setting_is_kept_until_an_adapter_overrides_it() {
    assert!(builder(Some("m")).with_no_kv_cache(true).build(None).unwrap().no_kv_cache());
    assert!(!builder(Some("m"))
        .with_no_kv_cache(true)
        .with_lora("a".to_string(), order("b"))
        .build(None)
        .unwrap()
        .no_kv_cache());
    assert!(builder(Some("m"))
        .with_lora("a".to_string(), order("b"))
        .with_no_kv_cache(true)
        .build(None)
        .unwrap()
        .no_kv_cache());
}

#[test]
fn default_builder_settles_nothing() {
    let loader = NormalLoaderBuilder::<u8>::default()
        .with_lora("a".to_string(), order("b"))
        .build(None)
        .unwrap();
    assert!(loader.chat_template().is_none());
    assert!(loader.tokenizer_json().is_none());
    assert!(!loader.config().use_flash_attn);
    assert_eq!(loader.config().organization, IsqOrganization::Default);
    assert_eq!(loader.model_id(), "b");
}

#[test]
fn hub_load_is_recorded_before_the_paths_are_looked_at() {
    let mut loader = builder(Some("m")).build(None).unwrap();
    assert_eq!(begun(&mut loader, Some("v1"), "cache", Err("no paths"), None), Err("no paths"));
    assert_eq!(loader.revision().as_deref(), Some("v1"));
    assert_eq!(loader.token_source().as_ref().unwrap().text, "cache");
    assert!(loader.from_uqff().is_none());
    assert_eq!(begun(&mut loader, None, "none", Ok(()), None), Ok(()));
    assert!(loader.revision().is_none());
}

#[test]
fn quantised_weights_that_fail_stop_a_hub_load_first() {
    let mut config = NormalSpecificConfig::default();
    config.from_uqff = Some(PathBuf::from("q.uqff"));
    let mut loader = NormalLoaderBuilder::new(config, None, None, Some("m".to_string()))
        .build(None)
        .unwrap();
    assert_eq!(
        begun(&mut loader, Some("v1"), "cache", Ok(()), Some(Err("no weights"))),
        Err("no weights")
    );
    assert!(loader.revision().is_none());
    assert!(loader.token_source().is_none());
    assert!(loader.from_uqff().is_none());
    assert_eq!(
        begun(&mut loader, Some("v1"), "cache", Ok(()), Some(Ok("/cache/q.uqff"))),
        Ok(())
    );
    assert_eq!(loader.from_uqff().as_deref(), Some(Path::new("/cache/q.uqff")));
    assert_eq!(loader.revision().as_deref(), Some("v1"));
}

#[test]
fn chunk_size_is_never_zero() {
    assert!(ChunkSize::new(0).is_none());
    assert_eq!(ChunkSize::new(512).unwrap().get(), 512);
    let mut config = NormalSpecificConfig::default();
    assert_eq!(config.chunk_size_or(ChunkSize::new(1024).unwrap()).get(), 1024);
    config.prompt_chunksize = ChunkSize::new(2);
    assert_eq!(config.chunk_size_or(ChunkSize::new(1024).unwrap()).get(), 2);
}

#[test]
fn quantisation_is_wanted_by_request_by_weights_or_by_a_layer() {
    let mut config = NormalSpecificConfig::default();
    assert!(!config.wants_quantised(None));
    assert!(config.wants_quantised(Some(IsqType::Q4K)));
    config.topology = Some(Topology {
        layers: vec![None, Some(LayerTopology { isq: None, device: None })],
    });
    assert!(!config.wants_quantised(None));
    config.topology = Some(Topology {
        layers: vec![None, Some(LayerTopology { isq: Some(IsqType::HQQ4), device: None })],
    });
    assert!(config.wants_quantised(None));
    let copy = config.clone();
    assert_eq!(copy.topology.as_ref().unwrap().layers, config.topology.as_ref().unwrap().layers);
    let mut uqff = NormalSpecificConfig::default();
    uqff.from_uqff = Some(PathBuf::from("q"));
    assert!(uqff.wants_quantised(None));
    assert_eq!(uqff.clone().from_uqff.as_deref(), Some(Path::new("q")));
}
