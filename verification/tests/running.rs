use std::path::{Path, PathBuf};

use candle_core::DType;
use normal_pipeline::amoe::{AmoeError, AmoeRequest};
use normal_pipeline::calibrate::ChatTemplate;
use normal_pipeline::config::ChunkSize;
use normal_pipeline::device::Device;
use normal_pipeline::error::ForwardError;
use normal_pipeline::kinds::{
    CacheKind, CacheReset, ImatrixDataSource, IsqOrganization, IsqType, ModelCategory, ModelKind,
};
use normal_pipeline::pipeline::{
    forward_result, CloneCall, ForwardInputsResult, ForwardPlan, GeneralMetadata, ModelInfo,
    ModelInputs, NonGranularState, NormalPipeline, PipelineParts, RankCall, SetNoneCall,
};

fn model(gpu_id: usize, is_xlora: bool, cache: CacheKind) -> ModelInfo {
    ModelInfo {
        device: Device::Cuda { gpu_id },
        cache,
        cache_layers: 2,
        is_xlora,
        max_seq_len: 10,
        sliding_window: None,
    }
}

fn pipeline(models: Vec<ModelInfo>, engines: Option<Vec<Device>>) -> NormalPipeline {
    NormalPipeline::new(parts(models, engines)).unwrap()
}

fn parts(models: Vec<ModelInfo>, engines: Option<Vec<Device>>) -> PipelineParts {
    PipelineParts {
        parallel_models: models,
        no_kv_cache: true,
        chat_template: ChatTemplate { bos_tok: None },
        non_granular_state: None,
        model_id: "id".to_string(),
        metadata: GeneralMetadata {
            max_seq_len: 10,
            no_kv_cache: true,
            no_prefix_cache: false,
            num_hidden_layers: 2,
            eos_tok: vec![],
            kind: ModelKind::Normal,
            is_xlora: false,
            activation_dtype: DType::F32,
            sliding_window: None,
            cache_config: None,
            cache_engines: engines,
            prompt_chunksize: ChunkSize::new(8),
        },
        topology: None,
        silent: true,
        organization: IsqOrganization::Default,
        template_filename: None,
        generation_config: None,
        config: "{}".to_string(),
        imatrix: Some(PathBuf::from("i")),
    }
}

/// A pipeline with a non-granular state that has come to 2 of 5.
fn counting(is_xlora: bool) -> NormalPipeline {
    let mut parts = parts(vec![model(0, is_xlora, CacheKind::Full)], None);
    parts.non_granular_state =
        Some(NonGranularState { non_granular_index: 2, tgt_non_granular_index: 5 });
    NormalPipeline::new(parts).unwrap()
}

fn inputs(paged: bool, full: bool) -> ModelInputs<u8, u16, u32> {
    ModelInputs {
        input_ids: 1,
        input_ids_full: if full { Some(2) } else { None },
        seqlen_offsets: vec![3],
        seqlen_offsets_full: if full { Some(vec![4]) } else { None },
        context_lens: vec![(0, 1)],
        position_ids: vec![5],
        paged_attn_meta: if paged { Some(6) } else { None },
        flash_meta: 7,
        flash_meta_full: if full { Some(8) } else { None },
    }
}

#[test]
fn metadata_must_fit_the_engines() {
    let with = pipeline(
        vec![model(0, false, CacheKind::Normal)],
        Some(vec![Device::Cuda { gpu_id: 0 }]),
    );
    let without = pipeline(vec![model(0, false, CacheKind::Normal)], None);
    let e = with.forward_inputs(&inputs(false, false)).unwrap_err();
    assert_eq!(e, ForwardError::MissingPagedMetadata);
    assert_eq!(e.message(), "Forward step expected a PagedAttention input metadata. This was not provided, please ensure that the scheduler config is correctly configured for PagedAttention.");
    let e = without.forward_inputs(&inputs(true, false)).unwrap_err();
    assert_eq!(e, ForwardError::UnexpectedPagedMetadata);
    assert_eq!(e.message(), "Forward step got a PagedAttention input metadata but there is no cache engine. Please raise an issue.");
    assert!(matches!(
        with.forward_inputs(&inputs(true, false)),
        Ok(ForwardPlan::Single { engine: Some(0) })
    ));
    assert!(matches!(
        without.forward_inputs(&inputs(false, false)),
        Ok(ForwardPlan::Single { engine: None })
    ));
}

#[test]
fn every_rank_runs_on_its_own_device() {
    let p = pipeline(
        vec![model(0, false, CacheKind::Normal), model(1, false, CacheKind::Normal)],
        Some(vec![Device::Cuda { gpu_id: 0 }, Device::Cuda { gpu_id: 1 }]),
    );
    match p.forward_inputs(&inputs(true, false)).unwrap() {
        ForwardPlan::Parallel { calls } => assert_eq!(
            calls,
            vec![
                RankCall { rank: 0, device: Device::Cuda { gpu_id: 0 }, engine: Some(0) },
                RankCall { rank: 1, device: Device::Cuda { gpu_id: 1 }, engine: Some(1) },
            ]
        ),
        _ => panic!(),
    }
}

#[test]
fn xlora_models_run_with_their_state() {
    let p = counting(true);
    match p.forward_inputs(&inputs(false, true)).unwrap() {
        ForwardPlan::XLora { no_kv_cache, non_granular_state } => {
            assert!(no_kv_cache);
            assert_eq!(non_granular_state, p.parts().non_granular_state);
        }
        _ => panic!(),
    }
}

#[test]
fn whole_sequences_default_to_the_step() {
    let i = inputs(false, true);
    assert_eq!(*i.full_input_ids(), 2);
    assert_eq!(*i.full_seqlen_offsets(), vec![4]);
    assert_eq!(*i.full_flash_meta(), 8);
    let i = inputs(false, false);
    assert_eq!(*i.full_input_ids(), 1);
    assert_eq!(*i.full_seqlen_offsets(), vec![3]);
    assert_eq!(*i.full_flash_meta(), 7);
}

#[test]
fn logits_are_those_of_the_first_rank() {
    let r: Result<_, &str> = forward_result(vec![Ok(1), Ok(2)], true);
    assert!(matches!(r, Ok(ForwardInputsResult::RawLogits { logits: 1 })));
    let r: Result<_, &str> = forward_result(vec![Ok(1), Ok(2)], false);
    assert!(matches!(r, Ok(ForwardInputsResult::CausalGeneration { logits: 1 })));
    let r = forward_result(vec![Ok(1), Err("second"), Err("third")], false);
    assert!(matches!(r, Err("second")));
}

#[test]
fn caches_are_handled_by_the_manager_of_their_kind() {
    let full = pipeline(vec![model(0, false, CacheKind::Full)], None);
    let normal = pipeline(vec![model(0, false, CacheKind::Normal)], None);
    assert_eq!(full.cache(), CacheKind::Full);
    assert_eq!(
        full.clone_in_cache(),
        CloneCall { manager: CacheKind::Full, modify_draft_cache: false }
    );
    assert_eq!(
        normal.clone_out_cache(),
        CloneCall { manager: CacheKind::Normal, modify_draft_cache: false }
    );
    assert_eq!(CacheKind::Full.reset(), CacheReset::DropLayers);
    assert_eq!(CacheKind::Normal.reset(), CacheReset::ZeroLengths);
}

#[test]
fn clearing_caches_starts_the_non_granular_state_over_on_request() {
    let mut p = counting(false);
    assert_eq!(
        p.set_none_cache(false, true, true),
        SetNoneCall {
            manager: CacheKind::Full,
            modify_draft_cache: true,
            load_preallocated_cache: false,
            drop_scalings: false
        }
    );
    assert_eq!(p.parts().non_granular_state.unwrap().non_granular_index, 2);
    assert!(p.set_none_cache(true, false, false).drop_scalings);
    assert_eq!(
        p.parts().non_granular_state,
        Some(NonGranularState { non_granular_index: 0, tgt_non_granular_index: 5 })
    );
    assert!(p.reset_non_granular_state());
    assert_eq!(p.parts().non_granular_state.unwrap().non_granular_index, 0);
    let mut q = pipeline(vec![model(0, false, CacheKind::Normal)], None);
    let call = q.set_none_cache(true, false, true);
    assert!(call.load_preallocated_cache);
    assert!(!call.drop_scalings);
    assert!(!q.reset_non_granular_state());
}

#[test]
fn requantising_uses_the_first_device_for_all() {
    let p = pipeline(
        vec![model(3, false, CacheKind::Normal), model(4, false, CacheKind::Normal)],
        None,
    );
    let plan = p.re_isq_model(IsqType::F8E4M3);
    assert_eq!(plan.isq, Some(IsqType::F8E4M3));
    assert_eq!(plan.devices, vec![Device::Cuda { gpu_id: 3 }, Device::Cuda { gpu_id: 3 }]);
    assert!(matches!(plan.imatrix, Some(ImatrixDataSource::File { ref path }) if path == Path::new("i")));
    assert!(plan.write_uqff.is_none());
    assert!(plan.silent);
}

#[test]
fn models_answer_together() {
    let p = pipeline(
        vec![model(0, false, CacheKind::Normal), model(1, false, CacheKind::Normal)],
        None,
    );
    assert_eq!(p.activate_adapters::<&str>(vec![Ok(2), Ok(3)]), Ok(5));
    assert_eq!(p.activate_adapters(vec![Ok(2), Err("no")]), Err("no"));
    assert_eq!(p.amoe_finish_training::<&str>(vec![Ok(()), Ok(())]), Ok(()));
    assert_eq!(p.amoe_finish_training(vec![Err("a"), Err("b")]), Err("a"));
    assert_eq!(p.amoe_layer_vars(vec![vec![1, 2], vec![3]]), vec![1, 2, 3]);
    assert_eq!(p.amoe_base_model_trainable_params(&vec![10, 20]), 30);
    assert_eq!(p.amoe_take_cached_gating_outputs(vec![vec!['a'], vec!['b']]), vec!['a', 'b']);
    assert!(p.amoe_supported(&vec![true, true]));
    assert!(!p.amoe_supported(&vec![true, false]));
}

#[test]
fn pipeline_tells_about_itself() {
    let p = pipeline(vec![model(7, false, CacheKind::Normal)], None);
    assert_eq!(p.device(), Device::Cuda { gpu_id: 7 });
    assert_eq!(p.name(), "id");
    assert_eq!(p.category(), ModelCategory::Text);
    assert_eq!(p.get_metadata().max_seq_len, 10);
}

fn experts(pattern: &str) -> AmoeRequest<u8, char> {
    AmoeRequest {
        model_ids: vec!["a/one".to_string()],
        revision: Some("v1".to_string()),
        match_regex: pattern.to_string(),
        config: 11,
        prefix: "model.layers".to_string(),
        mlp: "mlp".to_string(),
        layers: vec![3],
        expert_type: 'f',
        silent: false,
        gate_model_id: None,
        cache_dir: None,
    }
}

#[test]
fn pipeline_plans_its_experts() {
    let p = pipeline(vec![model(0, false, CacheKind::Normal)], None);
    let plan = p.amoe_create_layers(experts("mlp")).ok().unwrap();
    assert_eq!(plan.experts.len(), 1);
    assert_eq!(plan.experts[0].model_id, "a/one");
    assert_eq!(plan.experts[0].revision, "v1");
    assert!(plan.experts[0].progress);
    assert_eq!(plan.matcher.selects("layers.3.mlp", &plan.layers), Some(true));
    assert_eq!(plan.matcher.selects("layers.4.mlp", &plan.layers), Some(false));
    assert!(matches!(
        p.amoe_create_layers(experts("(")),
        Err(AmoeError::InvalidPattern { .. })
    ));
}

#[test]
fn pipeline_without_a_model_or_an_engine_is_not_made() {
    assert!(NormalPipeline::new(parts(vec![], None)).is_none());
    let two = vec![model(0, false, CacheKind::Normal), model(1, false, CacheKind::Normal)];
    assert!(NormalPipeline::new(parts(two, Some(vec![Device::Cpu]))).is_none());
}

#[test]
fn steps_leave_their_mark_on_the_non_granular_state() {
    let mut p = counting(true);
    p.set_non_granular_index(3);
    assert_eq!(
        p.parts().non_granular_state,
        Some(NonGranularState { non_granular_index: 3, tgt_non_granular_index: 5 })
    );
    match p.forward_inputs(&inputs(false, true)).unwrap() {
        ForwardPlan::XLora { non_granular_state, .. } => {
            assert_eq!(non_granular_state.unwrap().non_granular_index, 3)
        }
        _ => panic!(),
    }
    assert!(p.reset_non_granular_state());
    assert_eq!(p.parts().non_granular_state.unwrap().non_granular_index, 0);
    let mut q = pipeline(vec![model(0, false, CacheKind::Normal)], None);
    q.set_non_granular_index(3);
    assert!(q.parts().non_granular_state.is_none());
}

#[test]
fn requantising_succeeds_where_every_model_does() {
    let p = pipeline(
        vec![model(0, false, CacheKind::Normal), model(1, false, CacheKind::Normal)],
        None,
    );
    assert_eq!(p.re_isq_done::<&str>(vec![Ok(()), Ok(())]), Ok(()));
    assert_eq!(p.re_isq_done(vec![Ok(()), Err("full")]), Err("full"));
}

#[test]
fn models_are_turned_in_rank_order_up_to_the_first_error() {
    let p = pipeline(
        vec![
            model(0, false, CacheKind::Normal),
            model(1, false, CacheKind::Normal),
            model(2, false, CacheKind::Normal),
        ],
        None,
    );
    let plan = p.amoe_create_layers(experts("mlp")).ok().unwrap();
    let call = plan.layers_call(vec!["weights"], None);
    assert_eq!(call.experts, vec!["weights"]);
    assert_eq!(call.config, 11);
    assert_eq!((call.prefix.as_str(), call.mlp.as_str()), ("model.layers", "mlp"));
    assert_eq!(call.layers, vec![3]);
    assert_eq!(call.expert_type, 'f');
    assert!(call.gate.is_none());

    let mut created: Vec<Result<(), &str>> = vec![];
    let mut called = vec![];
    while let Some(rank) = p.amoe_next_rank(&created) {
        called.push(rank);
        created.push(if rank == 1 { Err("second") } else { Ok(()) });
    }
    assert_eq!(called, vec![0, 1]);
    assert_eq!(p.amoe_layers_created(created), Err("second"));

    let mut created: Vec<Result<(), &str>> = vec![];
    while p.amoe_next_rank(&created).is_some() {
        created.push(Ok(()));
    }
    assert_eq!(created.len(), 3);
    assert_eq!(p.amoe_layers_created(created), Ok(()));
}
