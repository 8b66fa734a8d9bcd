//! What a load does with what it is told, from what comes in to what goes out.

#[allow(unused_imports)]
use std::path::PathBuf;
#[allow(unused_imports)]
use candle_core::DType;
#[allow(unused_imports)]
use tokenizers::Tokenizer;
use vstd::prelude::*;
#[allow(unused_imports)]
use crate::calibrate::{law_every_token_has_its_chunk, leading_token, ChatTemplate};
#[allow(unused_imports)]
use crate::config::NormalSpecificConfig;
#[allow(unused_imports)]
use crate::device::Device;
#[allow(unused_imports)]
use crate::error::LoadError;
#[allow(unused_imports)]
use crate::kinds::{
    AdapterKind, AttentionImplementation, CacheKind, CacheReset, ImatrixDataSource,
    IsqOrganization, ModelKind, NormalLoaderType, TokenSource,
};
#[allow(unused_imports)]
use crate::load::{
    is_calibration, is_run, law_load_ends, law_step_advances, law_step_keeps_wf, turn_chunks,
    LoadAction, LoadEvent, LoadRequest, LoadState, LoadStep, MappingChoice, ModelBuild, ModelFiles,
};
#[allow(unused_imports)]
use crate::loader::{LoaderView, NormalLoader, NormalLoaderBuilder};
#[allow(unused_imports)]
use crate::outside::encodings;
#[allow(unused_imports)]
use crate::parallel::{
    first_rank, law_ranks_count_on_from_node_to_node, law_world_shares_out_the_devices,
    law_worlds_are_refused_in_order, world_of, BarrierPlan, IdExchange,
};
#[allow(unused_imports)]
use crate::pipeline::NormalPipeline;
#[allow(unused_imports)]
use crate::sizing::{factors, law_like_tensors_average_to_their_factor, sum, UqffArtifact};
#[allow(unused_imports)]
use crate::text::{number_in, parsed};

verus! {

/// Every rank keeps its own device: the device that its weights are quantised on, that its cache
/// engine is made on and that its engine is kept under is that of the model of the same rank.
pub proof fn law_every_rank_keeps_its_device<P, O>(
    pre: LoadState<P>,
    loader: LoaderView<O>,
    event: LoadEvent,
    out: LoadStep<P>,
    i: int,
)
    requires
        pre.wf(loader),
        pre.accepts(loader, event),
        pre.steps(loader, event, out),
        0 <= i < pre.models@.len(),
    ensures
        out matches Ok((_, LoadAction::Quantize { plan })) ==> plan.devices@.len()
            == pre.models@.len() && plan.devices@[i] == pre.models@[i].device,
        out matches Ok((_, LoadAction::BuildCache { engines, .. })) ==> engines@.len()
            == pre.models@.len() && engines@[i] == pre.models@[i].device,
        out matches Ok((_, LoadAction::Finish { pipeline })) ==> pipeline@.parallel_models@.len()
            == pre.models@.len() && pipeline@.parallel_models@[i] == pre.models@[i] && (
        pipeline@.metadata.cache_engines matches Some(engines) ==> engines@.len()
            == pre.models@.len() && engines@[i] == pre.models@[i].device),
{
}

/// Whatever happens in a step, what was asked for stays, but for the paged-attention config; and so
/// do the files, and what is known already.
pub proof fn law_what_was_asked_for_stays<P, O>(
    pre: LoadState<P>,
    loader: LoaderView<O>,
    event: LoadEvent,
    out: LoadStep<P>,
)
    requires
        pre.wf(loader),
        pre.accepts(loader, event),
        pre.steps(loader, event, out),
    ensures
        out matches Ok((post, action)) ==> !(action is Finish) ==> {
            &&& post.request.default_chunk == pre.request.default_chunk
            &&& post.request.device == pre.request.device
            &&& post.request.silent == pre.request.silent
            &&& post.request.auto_mapping == pre.request.auto_mapping
            &&& post.request.in_situ_quant == pre.request.in_situ_quant
            &&& post.request.nccl_built == pre.request.nccl_built
            &&& post.request.env == pre.request.env
            &&& !(event is Mapped) && !(action is BuildCache) ==> post.request.paged_attn_config
                == pre.request.paged_attn_config
            &&& action is BuildCache ==> post.request.paged_attn_config is None
            &&& post.files == pre.files
            &&& !(event is ConfigRead) ==> post.config == pre.config
            &&& !(event is DevicesListed) ==> post.devices == pre.devices
            &&& !(event is DevicesListed) ==> post.use_nccl == pre.use_nccl
            &&& !(event is Mapped) ==> post.dtype == pre.dtype
            &&& !(event is Mapped) ==> post.load_device == pre.load_device
            &&& !(event is Mapped) ==> post.loading_isq == pre.loading_isq
            &&& !(event is Mapped) ==> post.world == pre.world
            &&& !(event is ModelsLoaded) ==> post.models == pre.models
            &&& !(event is TokenizerLoaded) ==> post.chat_template == pre.chat_template
            &&& !(event is TokenizerLoaded) ==> post.eos_tok == pre.eos_tok
        },
{
}

/// What comes up is kept as it came up.
pub proof fn law_what_comes_up_is_kept<P, O>(
    pre: LoadState<P>,
    loader: LoaderView<O>,
    event: LoadEvent,
    out: LoadStep<P>,
)
    requires
        pre.wf(loader),
        pre.accepts(loader, event),
        pre.steps(loader, event, out),
    ensures
        out matches Ok((post, action)) ==> !(action is Finish) ==> {
            &&& event matches LoadEvent::ConfigRead { config } ==> post.config == Some(config)
            &&& event matches LoadEvent::DevicesListed { devices } ==> post.devices == devices
            &&& event matches LoadEvent::Mapped { dtype, .. } ==> post.dtype == Some(dtype)
            &&& event matches LoadEvent::ModelsLoaded { models } ==> post.models == models
            &&& event matches LoadEvent::TokenizerLoaded { chat_template, eos_tok }
                ==> post.chat_template == Some(chat_template) && post.eos_tok == eos_tok
        },
{
}

/// The devices decide on the mapping: several CUDA devices are all handed to NCCL, unless it is
/// refused or not built; otherwise the layers are placed where that is asked for, and mapped as
/// given where it is not.
pub proof fn law_devices_decide_on_the_mapping<P, O>(
    pre: LoadState<P>,
    loader: LoaderView<O>,
    devices: Vec<Device>,
    out: LoadStep<P>,
    i: int,
)
    requires
        pre.wf(loader),
        pre.accepts(loader, LoadEvent::DevicesListed { devices }),
        pre.steps(loader, LoadEvent::DevicesListed { devices }, out),
    ensures
        out matches Ok((post, action)) && {
            let refused = pre.request.env.no_nccl matches Some(x) && x@ == "1"@;
            let nccl = devices@.len() > 1 && pre.request.nccl_built && !refused && (forall|j: int|
                0 <= j < devices@.len() ==> (#[trigger] devices@[j]) is Cuda);
            &&& post.use_nccl == nccl
            &&& nccl ==> (action matches LoadAction::BuildMappers {
                choice: MappingChoice::Nccl { devices: handed },
            } && handed@.len() == devices@.len() && (0 <= i < devices@.len() ==> handed@[i]
                == devices@[i]) && post.phase is MappersWanted)
            &&& !nccl && pre.request.auto_mapping ==> action is ResolveDtype && post.phase
                is DtypeWanted
            &&& !nccl && !pre.request.auto_mapping ==> (action matches LoadAction::BuildMappers {
                choice: MappingChoice::Given,
            } && post.phase is MappersWanted)
        },
{
}

/// A model is measured with the pack factor of its serialised tensors where it has some, with that
/// of the quantisation where one is asked for, and with none otherwise; and it is placed by exactly
/// the sizes that were measured, and by all of them together.
pub proof fn law_model_is_measured_as_it_will_be<P, O>(
    pre: LoadState<P>,
    loader: LoaderView<O>,
    event: LoadEvent,
    out: LoadStep<P>,
)
    requires
        pre.wf(loader),
        pre.accepts(loader, event),
        pre.steps(loader, event, out),
    ensures
        event is DtypeResolved ==> {
            &&& loader.from_uqff matches Some(uqff) ==> (out matches Ok(
                (_, LoadAction::ReadArtifacts { path }),
            ) && path == uqff)
            &&& loader.from_uqff is None ==> (pre.request.in_situ_quant matches Some(wanted) ==> (
            out matches Ok((_, LoadAction::AskPackFactor { isq })) && isq == wanted))
            &&& loader.from_uqff is None && pre.request.in_situ_quant is None ==> (out matches Ok(
                (_, LoadAction::MeasureModel { weight_pack_factor }),
            ) && weight_pack_factor == 1)
        },
        event matches LoadEvent::PackFactorKnown { pack_factor } ==> (out matches Ok(
            (_, LoadAction::MeasureModel { weight_pack_factor }),
        ) && weight_pack_factor == pack_factor),
        event matches LoadEvent::Measured { layer_sizes_in_bytes, non_mapped_size_in_bytes } ==> (
        out matches Ok(
            (
                _,
                LoadAction::PlaceLayers {
                    layer_sizes_in_bytes: sizes,
                    non_mapped_size_in_bytes: rest,
                    total_model_size_in_bytes: total,
                    prompt_chunksize,
                },
            ),
        ) && sizes == layer_sizes_in_bytes && rest == non_mapped_size_in_bytes && total == sum(
            layer_sizes_in_bytes@,
        ) + non_mapped_size_in_bytes && prompt_chunksize == (match loader.config.prompt_chunksize {
            Some(own) => own@,
            None => pre.request.default_chunk@,
        })),
        event is Placed ==> (out matches Ok(
            (_, LoadAction::BuildMappers { choice: MappingChoice::Placed }),
        )),
{
}

/// Serialised tensors that all hold the pack factor `k` have the model measured with `k`, whatever
/// their formats, and tensors that are not quantised have it measured as it is.
pub proof fn law_like_tensors_are_measured_with_their_factor<P, O>(
    pre: LoadState<P>,
    loader: LoaderView<O>,
    artifacts: Vec<UqffArtifact>,
    out: LoadStep<P>,
    k: usize,
)
    requires
        pre.wf(loader),
        pre.accepts(loader, LoadEvent::ArtifactsRead { artifacts }),
        pre.steps(loader, LoadEvent::ArtifactsRead { artifacts }, out),
    ensures
        (forall|i: int|
            0 <= i < artifacts@.len() ==> {
                ||| #[trigger] artifacts@[i] == (UqffArtifact::Hqq { pack_factor: k })
                ||| artifacts@[i] == (UqffArtifact::Gguf { pack_factor: k })
                ||| artifacts@[i] == (UqffArtifact::Fp8 { pack_factor: k })
            }) ==> (out matches Ok((_, LoadAction::MeasureModel { weight_pack_factor }))
            && weight_pack_factor == k),
        (forall|i: int|
            0 <= i < artifacts@.len() ==> #[trigger] artifacts@[i] == UqffArtifact::Unquant) ==> (
        out matches Ok((_, LoadAction::MeasureModel { weight_pack_factor })) && weight_pack_factor
            == 1),
{
    law_like_tensors_average_to_their_factor(artifacts@, k);
}

/// The weights go to the CPU to be quantised there, and to the device that was asked for in any
/// other case; nothing is quantised on the way where a calibration run is to come.
pub proof fn law_where_the_weights_go<P, O>(
    pre: LoadState<P>,
    loader: LoaderView<O>,
    unique_devices: Vec<Device>,
    dtype: DType,
    out: LoadStep<P>,
    i: int,
)
    requires
        pre.wf(loader),
        pre.accepts(loader, LoadEvent::Mapped { unique_devices, dtype }),
        pre.steps(loader, LoadEvent::Mapped { unique_devices, dtype }, out),
    ensures
        loader.config.imatrix is Some && loader.config.calibration_file is Some ==> (out matches Err(
            e,
        ) && e is ImatrixAndCalibration),
        out matches Ok((post, _)) ==> {
            let layer_quantised = loader.config.topology matches Some(t) && exists|j: int|
                0 <= j < t.layers@.len() && (#[trigger] t.layers@[j]) is Some && t.layers@[j]->0.isq
                    is Some;
            let quantised = pre.request.in_situ_quant is Some || loader.config.from_uqff is Some
                || layer_quantised;
            &&& quantised && loader.config.calibration_file is None ==> post.load_device
                == Device::Cpu && post.loading_isq
            &&& !quantised || loader.config.calibration_file is Some ==> post.load_device
                == pre.request.device && !post.loading_isq
            &&& 0 <= i < unique_devices@.len() && unique_devices@[i] == Device::Cpu
                ==> post.request.paged_attn_config is None
            &&& (forall|j: int|
                0 <= j < unique_devices@.len() ==> #[trigger] unique_devices@[j] != Device::Cpu)
                ==> post.request.paged_attn_config == pre.request.paged_attn_config
            &&& !(loader.config.imatrix is Some && loader.config.calibration_file is Some)
        },
{
}

/// Models are built as the loader and the load say: with the loader's kind and flash attention,
/// with paged attention where it is still asked for, with stand-ins where quantised weights are to
/// come, and with the experts alone quantised where that is settled.
pub proof fn law_models_are_built_as_settled<P, O>(
    pre: LoadState<P>,
    loader: LoaderView<O>,
    event: LoadEvent,
    out: LoadStep<P>,
    build: ModelBuild,
)
    requires
        pre.wf(loader),
        pre.accepts(loader, event),
        pre.steps(loader, event, out),
        out matches Ok((_, action)) && ((action matches LoadAction::LoadModel { build: b } && b
            == build) || (action matches LoadAction::LoadShards { build: b, .. } && b == build)),
    ensures
        build.kind == loader.kind,
        build.use_flash_attn == loader.config.use_flash_attn,
        out matches Ok((post, _)) && build.loading_isq == post.loading_isq && build.load_device
            == post.load_device && (post.request.paged_attn_config is Some ==> build.attention
            == AttentionImplementation::PagedAttention) && (post.request.paged_attn_config is None
            ==> build.attention == AttentionImplementation::Eager),
        build.from_uqff <==> loader.config.from_uqff is Some,
        build.moe_experts_only <==> loader.config.organization == IsqOrganization::MoeExpertsOnly,
        event is Mapped ==> !pre.use_nccl && (out matches Ok((_, action)) && action is LoadModel),
        event is RanksConnected ==> (out matches Ok((_, action)) && action is LoadShards),
{
}

/// A load that uses NCCL settles its world before it loads anything: as many ids as stages are made
/// and shared as the environment says; one that does not loads its model at once.
pub proof fn law_world_is_settled_first<P, O>(
    pre: LoadState<P>,
    loader: LoaderView<O>,
    unique_devices: Vec<Device>,
    dtype: DType,
    out: LoadStep<P>,
)
    requires
        pre.wf(loader),
        pre.accepts(loader, LoadEvent::Mapped { unique_devices, dtype }),
        pre.steps(loader, LoadEvent::Mapped { unique_devices, dtype }, out),
    ensures
        !pre.use_nccl ==> (out matches Ok((_, action)) ==> action is LoadModel),
        pre.use_nccl ==> (out matches Ok((post, action)) ==> {
            &&& action matches LoadAction::JoinWorld { ids, exchange }
            &&& post.world matches Some(w)
            &&& ids == w.stages
            &&& pre.request.env.pipeline_parallel is None ==> ids == 1
            &&& pre.request.env.pipeline_parallel matches Some(x) ==> number_in(x@) == Some(ids)
            &&& ids * w.local_world_size <= pre.devices@.len() < ids * w.local_world_size + ids
            &&& pre.request.env.global_world_size is None ==> w.global_world_size
                == w.local_world_size
            &&& pre.request.env.global_world_size matches Some(x) ==> number_in(x@) == Some(
                w.global_world_size,
            )
            &&& w.global_world_size == w.local_world_size ==> exchange is Skip
            &&& exchange matches IdExchange::Lead { address, workers, local_world_size } ==> {
                &&& local_world_size == w.local_world_size
                &&& pre.request.env.head_num_workers matches Some(n) && number_in(n@) == Some(
                    workers,
                )
                &&& pre.request.env.head_port matches Some(port) && address@ == "0.0.0.0:"@ + port@
            }
            &&& exchange matches IdExchange::Follow { address, local_world_size } ==> {
                &&& local_world_size == w.local_world_size
                &&& pre.request.env.head_num_workers is None
                &&& pre.request.env.worker_server_addr == Some(address)
            }
            &&& exchange is Skip && w.global_world_size != w.local_world_size
                ==> pre.request.env.head_num_workers is None
                && pre.request.env.worker_server_addr is None
        }),
{
    if pre.use_nccl {
        if let Ok((post, LoadAction::JoinWorld { ids, exchange })) = out {
            assert(pre.devices@.len() == pre.devices.len());
            law_world_shares_out_the_devices(
                pre.devices@.len(),
                pre.request.env,
                post.world->0,
            );
            law_step_keeps_wf(pre, loader, LoadEvent::Mapped { unique_devices, dtype }, out);
        }
    }
}

/// Device `s * local + r` of the node takes place `r` of stage `s`, under a rank that counts on
/// from the nodes before; where the devices cannot be shared out, nobody is seated.
pub proof fn law_devices_take_their_seats<P, O>(
    pre: LoadState<P>,
    loader: LoaderView<O>,
    out: LoadStep<P>,
    s: int,
    r: int,
)
    requires
        pre.wf(loader),
        pre.accepts(loader, LoadEvent::WorldJoined),
        pre.steps(loader, LoadEvent::WorldJoined, out),
        pre.world is Some,
    ensures
        pre.devices@.len() % pre.world->0.stages as nat != 0 ==> (out matches Err(
            LoadError::UnevenStages { stages, devices },
        ) && stages == pre.world->0.stages && devices == pre.devices@.len()),
        out matches Ok((post, action)) ==> {
            let w = pre.world->0;
            let env = pre.request.env;
            &&& action matches LoadAction::ConnectRanks { seats, barrier }
            &&& seats@.len() == w.stages
            &&& 0 <= s < w.stages && 0 <= r < w.local_world_size ==> {
                &&& seats@[s]@.len() == w.local_world_size
                &&& seats@[s]@[r].stage == s
                &&& seats@[s]@[r].device == pre.devices@[s * w.local_world_size + r]
                &&& seats@[s]@[r].world_size == w.global_world_size
                &&& env.worker_server_addr is None ==> seats@[s]@[r].rank == r
                &&& env.worker_server_addr is Some ==> (env.worker_id matches Some(id) && (
                number_in(id@) matches Some(n) && seats@[s]@[r].rank == w.local_world_size + n
                    * w.local_world_size + r))
                &&& post.seats@[s]@ == seats@[s]@
            }
            &&& env.head_num_workers is None && env.worker_server_addr is None ==> (
            barrier matches BarrierPlan::Local { local_world_size } && local_world_size
                == w.local_world_size)
            &&& env.head_num_workers is None ==> (env.worker_server_addr matches Some(server) ==> (
            barrier matches BarrierPlan::Follow { address, local_world_size } && address == server
                && local_world_size == w.local_world_size))
            &&& env.head_num_workers matches Some(n) ==> (barrier matches BarrierPlan::Lead {
                address,
                workers,
                local_world_size,
            } && number_in(n@) == Some(workers) && local_world_size == w.local_world_size && (
            env.head_port matches Some(port) && address@ == "0.0.0.0:"@ + port@))
        },
{
    let w = pre.world->0;
    let env = pre.request.env;
    law_ranks_count_on_from_node_to_node(w, env);
    assert(pre.devices@.len() == pre.devices.len());
    if let Ok((post, LoadAction::ConnectRanks { seats, barrier })) = out {
        if 0 <= s < w.stages && 0 <= r < w.local_world_size {
            let first = first_rank(w, env)->Ok_0;
            assert(first >= 0) by (nonlinear_arith)
                requires
                    first_rank(w, env) is Ok,
                    first == first_rank(w, env)->Ok_0,
            ;
            assert(seats@[s]@.len() == w.local_world_size);
            assert(seats@[s]@[r].stage == s as usize);
            assert(first + r <= usize::MAX);
        }
    }
}

/// Every rank is loaded over its seats in all stages, is moved to its device unless it is quantised
/// on the way, and has stand-ins only where quantised weights are to come over it.
pub proof fn law_ranks_are_loaded_over_their_seats<P, O>(
    pre: LoadState<P>,
    loader: LoaderView<O>,
    out: LoadStep<P>,
    s: int,
    r: int,
)
    requires
        pre.wf(loader),
        pre.accepts(loader, LoadEvent::RanksConnected),
        pre.steps(loader, LoadEvent::RanksConnected, out),
    ensures
        out matches Ok((_, LoadAction::LoadShards { ranks, dummy_layers, move_shards, .. })) && {
            let w = pre.world->0;
            &&& ranks@.len() == w.local_world_size
            &&& 0 <= s < w.stages && 0 <= r < w.local_world_size ==> ranks@[r]@.len() == w.stages
                && ranks@[r]@[s] == pre.seats@[s]@[r] && ranks@[r]@[s].device
                == pre.devices@[s * w.local_world_size + r]
            &&& move_shards != pre.loading_isq
            &&& pre.loading_isq && loader.config.from_uqff is Some ==> dummy_layers == Some(
                loader.config.organization,
            )
            &&& !pre.loading_isq || loader.config.from_uqff is None ==> dummy_layers is None
        },
{
    if 0 <= s < pre.world->0.stages && 0 <= r < pre.world->0.local_world_size {
        if let Ok((_, LoadAction::LoadShards { ranks, .. })) = out {
            assert(pre.seats@[s]@.len() == pre.world->0.local_world_size);
            assert(ranks@[r]@.len() == pre.seats@.len());
            assert(ranks@[r]@[s] == pre.seats@[s]@[r]);
        }
    }
}

/// A calibration goes over every token of the text, in chunks of their own sequence that begin with
/// the leading token, on the device that the weights are on, and leaves every rank's cache empty in
/// the way of its own kind after each chunk.
pub proof fn law_calibration_goes_over_the_text<P, O>(
    pre: LoadState<P>,
    loader: LoaderView<O>,
    bos: u32,
    tokens: Vec<u32>,
    out: LoadStep<P>,
    i: int,
    t: int,
    rank: int,
)
    requires
        pre.wf(loader),
        pre.accepts(loader, LoadEvent::CalibrationRead { bos, tokens }),
        pre.steps(loader, LoadEvent::CalibrationRead { bos, tokens }, out),
    ensures
        out matches Ok((_, LoadAction::Calibrate { organization, device, turns })) && {
            &&& organization == loader.config.organization
            &&& device == pre.load_device
            &&& tokens@.len() == 0 ==> turns@.len() == 0
            &&& 0 <= i < tokens@.len() ==> {
                &&& i / 1024 < turns@.len()
                &&& (turns@.len() - 1) * 1024 < tokens@.len() <= turns@.len() * 1024
                &&& i % 1024 + 1 < turns@[i / 1024].tokens@.len() <= 1025
                &&& turns@[i / 1024].tokens@[0] == bos
                &&& turns@[i / 1024].tokens@[i % 1024 + 1] == tokens@[i]
            }
            &&& 0 <= t < turns@.len() ==> {
                &&& turns@[t].offset == 0
                &&& turns@[t].resets@.len() == pre.models@.len()
                &&& 0 <= rank < pre.models@.len() ==> {
                    &&& pre.models@[rank].cache == CacheKind::Full ==> turns@[t].resets@[rank]
                        == CacheReset::DropLayers
                    &&& pre.models@[rank].cache == CacheKind::Normal ==> turns@[t].resets@[rank]
                        == CacheReset::ZeroLengths
                }
            }
        },
{
    if let Ok((_, LoadAction::Calibrate { turns, .. })) = out {
        let chunks = turn_chunks(turns@);
        assert(chunks.len() == turns@.len());
        if 0 <= i < tokens@.len() {
            law_every_token_has_its_chunk(bos, tokens@, chunks, i);
            assert(chunks[i / 1024] == turns@[i / 1024].tokens);
        }
        if 0 <= t < turns@.len() {
            assert(turns@[t].offset == 0);
        }
    }
}

/// Once the tokenizer is there, the calibration text is read where there is one; once nothing is
/// left to run, the models are quantised where that is asked for and the weights are not quantised
/// already, and given quantised weights where some were fetched.
pub proof fn law_weights_are_settled_in_order<P, O>(
    pre: LoadState<P>,
    loader: LoaderView<O>,
    event: LoadEvent,
    out: LoadStep<P>,
)
    requires
        pre.wf(loader),
        pre.accepts(loader, event),
        pre.steps(loader, event, out),
    ensures
        event is TokenizerLoaded ==> (loader.config.calibration_file matches Some(file) ==> (
        out matches Ok((_, LoadAction::ReadCalibration { path })) && path == file)),
        event is Calibrated || (event is TokenizerLoaded && loader.config.calibration_file is None)
            ==> {
            let quantise = loader.config.from_uqff is None && (pre.request.in_situ_quant is Some
                || loader.config.topology is Some);
            &&& quantise ==> {
                &&& out matches Ok((_, LoadAction::Quantize { plan }))
                &&& plan.isq == pre.request.in_situ_quant
                &&& plan.silent == pre.request.silent
                &&& plan.organization == loader.config.organization
                &&& plan.write_uqff == loader.config.write_uqff
                &&& plan.topology is Some <==> loader.config.topology is Some
                &&& plan.topology matches Some(t) ==> t.layers@ == loader.config.topology->0.layers@
                &&& loader.config.calibration_file is Some ==> plan.imatrix == Some(
                    ImatrixDataSource::Collected,
                )
                &&& loader.config.calibration_file is None ==> {
                    &&& loader.config.imatrix matches Some(path) ==> plan.imatrix == Some(
                        ImatrixDataSource::File { path },
                    )
                    &&& loader.config.imatrix is None ==> plan.imatrix is None
                }
            }
            &&& !quantise ==> (loader.from_uqff matches Some(uqff) ==> {
                &&& out matches Ok(
                    (_, LoadAction::LoadArtifacts { path, device, topology, silent }),
                )
                &&& path == uqff
                &&& device == pre.request.device
                &&& silent == pre.request.silent
                &&& topology is Some <==> loader.config.topology is Some
                &&& topology matches Some(t) ==> t.layers@ == loader.config.topology->0.layers@
            })
            &&& !quantise && loader.from_uqff is None ==> (out matches Ok((_, action)) && (
            action is BuildCache || action is Finish))
        },
        event is Quantized ==> (out matches Ok((_, action)) && (action is BuildCache
            || action is Finish)),
        event is CacheBuilt ==> (out matches Ok((_, action)) && action is Finish),
{
}

/// A paged-attention cache is built by the config that was asked for, where it still is and the
/// model carries no adapter; what was built is what the pipeline has.
pub proof fn law_cache_is_built_where_asked_for<P, O>(
    pre: LoadState<P>,
    loader: LoaderView<O>,
    event: LoadEvent,
    out: LoadStep<P>,
)
    requires
        pre.wf(loader),
        pre.accepts(loader, event),
        pre.steps(loader, event, out),
    ensures
        out matches Ok((_, LoadAction::BuildCache { config, .. })) ==> Some(config)
            == pre.request.paged_attn_config && loader.kind == ModelKind::Normal,
        event is Quantized && pre.request.paged_attn_config is Some && loader.kind
            == ModelKind::Normal ==> (out matches Ok((_, action)) && action is BuildCache),
        out matches Ok((_, LoadAction::Finish { pipeline })) ==> {
            &&& event matches LoadEvent::CacheBuilt { cache_config }
                ==> pipeline@.metadata.cache_config == Some(cache_config)
                && pipeline@.metadata.cache_engines is Some
            &&& !(event is CacheBuilt) ==> pipeline@.metadata.cache_config is None
                && pipeline@.metadata.cache_engines is None && (
            pre.request.paged_attn_config is None || loader.kind != ModelKind::Normal)
        },
{
}

/// An answer to what a load waits for is taken: always, but for numbers that cannot be worked with
/// and for another number of models than there are ranks.
pub proof fn law_answers_are_taken<P, O>(pre: LoadState<P>, loader: LoaderView<O>, event: LoadEvent)
    requires
        pre.wf(loader),
    ensures
        pre.phase is ConfigWanted && event is ConfigRead ==> pre.accepts(loader, event),
        pre.phase is DevicesWanted && event is DevicesListed ==> pre.accepts(loader, event),
        pre.phase is DtypeWanted && event is DtypeResolved ==> pre.accepts(loader, event),
        pre.phase is PackFactorWanted && event is PackFactorKnown ==> pre.accepts(loader, event),
        pre.phase is PlacementWanted && event is Placed ==> pre.accepts(loader, event),
        pre.phase is MappersWanted && event is Mapped && !pre.use_nccl ==> pre.accepts(
            loader,
            event,
        ),
        pre.phase is RanksWanted && event is RanksConnected ==> pre.accepts(loader, event),
        pre.phase is TokenizerWanted && event is TokenizerLoaded ==> pre.accepts(loader, event),
        pre.phase is CalibrationWanted && event is CalibrationRead ==> pre.accepts(loader, event),
        pre.phase is CalibrationRunning && event is Calibrated ==> pre.accepts(loader, event),
        pre.phase is QuantizationRunning && event is Quantized ==> pre.accepts(loader, event),
        pre.phase is CacheWanted && event is CacheBuilt ==> pre.accepts(loader, event),
        pre.phase is ModelsWanted ==> (event matches LoadEvent::ModelsLoaded { models } ==> (
        pre.accepts(loader, event) <==> models@.len() == (if pre.use_nccl {
            pre.world->0.local_world_size as nat
        } else {
            1
        }))),
        pre.phase is SizesWanted ==> (event matches LoadEvent::Measured {
            layer_sizes_in_bytes,
            non_mapped_size_in_bytes,
        } ==> (pre.accepts(loader, event) <==> sum(layer_sizes_in_bytes@) + non_mapped_size_in_bytes
            <= usize::MAX)),
        pre.phase is ArtifactsWanted ==> (event matches LoadEvent::ArtifactsRead { artifacts } ==> (
        pre.accepts(loader, event) <==> artifacts@.len() > 0 && sum(factors(artifacts@))
            <= usize::MAX)),
        pre.phase is Done ==> !pre.accepts(loader, event),
{
}

/// Nothing is taken that the load does not wait for.
pub proof fn law_other_events_are_not_taken<P, O>(
    pre: LoadState<P>,
    loader: LoaderView<O>,
    event: LoadEvent,
)
    requires
        pre.accepts(loader, event),
    ensures
        event is ConfigRead <==> pre.phase is ConfigWanted,
        event is DevicesListed <==> pre.phase is DevicesWanted,
        event is DtypeResolved <==> pre.phase is DtypeWanted,
        event is ArtifactsRead <==> pre.phase is ArtifactsWanted,
        event is PackFactorKnown <==> pre.phase is PackFactorWanted,
        event is Measured <==> pre.phase is SizesWanted,
        event is Placed <==> pre.phase is PlacementWanted,
        event is Mapped <==> pre.phase is MappersWanted,
        event is WorldJoined <==> pre.phase is WorldWanted,
        event is RanksConnected <==> pre.phase is RanksWanted,
        event is ModelsLoaded <==> pre.phase is ModelsWanted,
        event is TokenizerLoaded <==> pre.phase is TokenizerWanted,
        event is CalibrationRead <==> pre.phase is CalibrationWanted,
        event is Calibrated <==> pre.phase is CalibrationRunning,
        event is Quantized <==> pre.phase is QuantizationRunning,
        event is CacheBuilt <==> pre.phase is CacheWanted,
{
}

/// A load waits for the answer to the work that it gave out.
pub proof fn law_load_waits_for_its_answer<P, O>(
    pre: LoadState<P>,
    loader: LoaderView<O>,
    event: LoadEvent,
    out: LoadStep<P>,
)
    requires
        pre.wf(loader),
        pre.accepts(loader, event),
        pre.steps(loader, event, out),
    ensures
        event is ConfigRead ==> (out matches Ok((_, action)) && action is ListDevices),
        event is ModelsLoaded ==> (out matches Ok((_, action)) && action is LoadTokenizer),
        out matches Ok((post, action)) ==> {
            &&& !(action is ReadConfig)
            &&& action is ListDevices <==> post.phase is DevicesWanted
            &&& action is ResolveDtype <==> post.phase is DtypeWanted
            &&& action is ReadArtifacts <==> post.phase is ArtifactsWanted
            &&& action is AskPackFactor <==> post.phase is PackFactorWanted
            &&& action is MeasureModel <==> post.phase is SizesWanted
            &&& action is PlaceLayers <==> post.phase is PlacementWanted
            &&& action is BuildMappers <==> post.phase is MappersWanted
            &&& action is JoinWorld <==> post.phase is WorldWanted
            &&& action is ConnectRanks <==> post.phase is RanksWanted
            &&& action is LoadShards || action is LoadModel <==> post.phase is ModelsWanted
            &&& action is LoadTokenizer <==> post.phase is TokenizerWanted
            &&& action is ReadCalibration <==> post.phase is CalibrationWanted
            &&& action is Calibrate <==> post.phase is CalibrationRunning
            &&& action is Quantize || action is LoadArtifacts
                <==> post.phase is QuantizationRunning
            &&& action is BuildCache <==> post.phase is CacheWanted
            &&& action is Finish <==> post.phase is Done
        },
{
}

/// A load that uses NCCL is refused with its world, in order: for no stages, for a global size that
/// is no number, that is smaller than the local size or no multiple of it, for stages across nodes,
/// and for a head node that cannot be set up where ids are to be shared. Otherwise it goes on.
pub proof fn law_load_is_refused_with_its_world<P, O>(
    pre: LoadState<P>,
    loader: LoaderView<O>,
    unique_devices: Vec<Device>,
    dtype: DType,
    out: LoadStep<P>,
    stages: usize,
    local: usize,
)
    requires
        pre.wf(loader),
        pre.phase is MappersWanted,
        pre.use_nccl,
        !(loader.config.imatrix is Some && loader.config.calibration_file is Some),
        pre.request.env.pipeline_parallel is None ==> stages == 1,
        pre.request.env.pipeline_parallel matches Some(x) ==> number_in(x@) == Some(stages),
        stages <= pre.devices@.len(),
        stages > 0 ==> local == pre.devices@.len() / stages as nat,
        pre.steps(loader, LoadEvent::Mapped { unique_devices, dtype }, out),
    ensures
        pre.accepts(loader, LoadEvent::Mapped { unique_devices, dtype }),
        stages == 0 ==> (out matches Err(e) && e is PipelineParallelZero),
        stages > 0 ==> {
            let env = pre.request.env;
            &&& env.global_world_size is None ==> out is Ok
            &&& env.global_world_size matches Some(x) ==> {
                &&& number_in(x@) is None ==> (out matches Err(
                    LoadError::NotANumber { setting, failure },
                ) && setting is GlobalWorldSize && parsed(x@) == Err::<usize, _>(failure))
                &&& number_in(x@) matches Some(global) ==> {
                    &&& global < local || global % local != 0 ==> (out matches Err(
                        LoadError::WorldSize { global: g, local: l },
                    ) && g == global && l == local)
                    &&& global == local ==> out is Ok
                    &&& global > local && global % local == 0 && stages != 1 ==> (out matches Err(e)
                        && e is PipelineParallelAcrossNodes)
                    &&& global > local && global % local == 0 && stages == 1 ==> {
                        &&& env.head_num_workers is None ==> out is Ok
                        &&& env.head_num_workers matches Some(w) ==> {
                            &&& number_in(w@) is None ==> (out matches Err(
                                LoadError::NotANumber { setting, failure },
                            ) && setting is HeadNumWorkers && parsed(w@) == Err::<usize, _>(
                                failure,
                            ))
                            &&& number_in(w@) is Some && env.head_port is None ==> (
                            out matches Err(e) && e is NoHeadListener)
                            &&& number_in(w@) is Some && env.head_port is Some ==> out is Ok
                        }
                    }
                }
            }
        },
{
    assert(pre.devices@.len() == pre.devices.len());
    law_worlds_are_refused_in_order(pre.devices@.len(), pre.request.env, stages, local);
    if stages > 0 {
        assert(local > 0) by (nonlinear_arith)
            requires
                0 < stages <= pre.devices@.len(),
                local == pre.devices@.len() / stages as nat,
        ;
        assert(local % local == 0) by (nonlinear_arith)
            requires
                local > 0,
        ;
        if let Ok(w) = world_of(pre.devices@.len(), pre.request.env) {
            law_world_shares_out_the_devices(pre.devices@.len(), pre.request.env, w);
        }
    }
}

/// Devices that can be shared out are seated unless a worker does not know its number, or a head
/// node cannot be set up.
pub proof fn law_seating_is_refused_in_order<P, O>(
    pre: LoadState<P>,
    loader: LoaderView<O>,
    out: LoadStep<P>,
)
    requires
        pre.wf(loader),
        pre.accepts(loader, LoadEvent::WorldJoined),
        pre.steps(loader, LoadEvent::WorldJoined, out),
        pre.world matches Some(w) && pre.devices@.len() % w.stages as nat == 0,
    ensures
        ({
            let env = pre.request.env;
            let numbered = env.worker_server_addr is Some ==> (env.worker_id matches Some(id)
                && number_in(id@) is Some);
            &&& env.worker_server_addr is Some && env.worker_id is None ==> (out matches Err(e)
                && e is NoWorkerId)
            &&& env.worker_server_addr is Some ==> (env.worker_id matches Some(id) ==> (number_in(
                id@,
            ) is None ==> (out matches Err(LoadError::NotANumber { setting, failure })
                && setting is WorkerId && parsed(id@) == Err::<usize, _>(failure))))
            &&& numbered && env.head_num_workers is None ==> out is Ok
            &&& numbered ==> (env.head_num_workers matches Some(w) ==> {
                &&& number_in(w@) is None ==> (out matches Err(
                    LoadError::NotANumber { setting, failure },
                ) && setting is HeadNumWorkers && parsed(w@) == Err::<usize, _>(failure))
                &&& number_in(w@) is Some && env.head_port is None ==> (out matches Err(e)
                    && e is NoHeadListener)
                &&& number_in(w@) is Some && env.head_port is Some ==> out is Ok
            })
        }),
{
}

/// Seats can be taken where the last rank of the node is a machine word.
pub proof fn law_ranks_that_fit_are_seated<P, O>(pre: LoadState<P>, loader: LoaderView<O>)
    requires
        pre.wf(loader),
        pre.phase is WorldWanted,
    ensures
        pre.devices@.len() % pre.world->0.stages as nat != 0 ==> pre.accepts(
            loader,
            LoadEvent::WorldJoined,
        ),
        pre.request.env.worker_server_addr is None ==> pre.accepts(loader, LoadEvent::WorldJoined),
        pre.request.env.worker_id is None ==> pre.accepts(loader, LoadEvent::WorldJoined),
        pre.devices@.len() % pre.world->0.stages as nat == 0
            && pre.request.env.worker_server_addr is Some ==> (
        pre.request.env.worker_id matches Some(id) ==> (number_in(id@) matches Some(n) ==> (
        pre.accepts(loader, LoadEvent::WorldJoined) <==> pre.world->0.local_world_size + n
            * pre.world->0.local_world_size + pre.world->0.local_world_size <= usize::MAX + 1))),
{
    law_ranks_count_on_from_node_to_node(pre.world->0, pre.request.env);
}

/// A calibration begins with the leading token and with a tokenisation of the text. Nothing comes of
/// it where there is no leading token, and a tokenizer that fails is reported.
pub proof fn law_calibration_reads_the_text(
    tokenizer: Tokenizer,
    chat_template: ChatTemplate,
    text: Seq<char>,
    r: Result<Option<LoadEvent>, LoadError>,
)
    requires
        is_calibration(tokenizer, chat_template, text, r),
    ensures
        r matches Ok(Some(event)) ==> (event matches LoadEvent::CalibrationRead { bos, tokens }
            && leading_token(tokenizer, chat_template) == Some(bos) && encodings(
            tokenizer,
            text,
        ).contains(Ok(tokens@))),
        leading_token(tokenizer, chat_template) is Some ==> r != Ok::<
            Option<LoadEvent>,
            LoadError,
        >(None),
        (forall|tokens: Seq<u32>| !#[trigger] encodings(tokenizer, text).contains(Ok(tokens)))
            ==> r is Err,
        (forall|e: Seq<char>| !#[trigger] encodings(tokenizer, text).contains(Err(e))) ==> r is Ok,
{
}

/// A load begins with what was asked for and nothing else.
pub proof fn law_load_begins_with_what_was_asked<P, O>(
    loader: LoaderView<O>,
    state: LoadState<P>,
    files: ModelFiles,
    request: LoadRequest<P>,
)
    requires
        state.is_first(files, request),
    ensures
        state.wf(loader),
        state.phase is ConfigWanted,
        state.request == request,
        state.files == files,
        state.config is None,
        state.devices@.len() == 0,
        !state.use_nccl,
        state.models@.len() == 0,
        state.load_device == request.device,
{
}

proof fn lemma_request_of_a_run<P, O>(
    loader: LoaderView<O>,
    states: Seq<LoadState<P>>,
    events: Seq<LoadEvent>,
    i: int,
)
    requires
        is_run(loader, states, events),
        0 <= i < states.len(),
        states[i].phase.rank() < 15,
    ensures
        states[i].request.default_chunk == states[0].request.default_chunk,
        states[i].request.silent == states[0].request.silent,
        states[i].request.in_situ_quant == states[0].request.in_situ_quant,
        states[i].files == states[0].files,
    decreases i,
{
    if i > 0 {
        let j = i - 1;
        law_load_ends(loader, states, events, j);
        assert(states[j].accepts(loader, events[j]));
        let action = choose|action: LoadAction<P>| #[trigger]
            states[j].steps(loader, events[j], Ok((states[i], action)));
        law_step_advances(states[j], loader, events[j], Ok((states[i], action)));
        law_what_was_asked_for_stays(states[j], loader, events[j], Ok((states[i], action)));
        lemma_request_of_a_run(loader, states, events, j);
    }
}

/// Whatever happens in between, a load that finishes ends with a pipeline that is set up as its
/// loader and its request say: with or without a KV cache, as silent, with prompts in chunks as
/// large, under the same name, and with the adapter's sort, target, topology and importance matrix.
pub proof fn law_finished_load_is_set_up_as_settled<P, O>(
    loader: LoaderView<O>,
    states: Seq<LoadState<P>>,
    events: Seq<LoadEvent>,
    event: LoadEvent,
    done: LoadState<P>,
    pipeline: NormalPipeline,
)
    requires
        is_run(loader, states, events),
        states.last().accepts(loader, event),
        states.last().steps(loader, event, Ok((done, LoadAction::Finish { pipeline }))),
    ensures
        pipeline@.no_kv_cache == loader.no_kv_cache,
        pipeline@.metadata.no_kv_cache == loader.no_kv_cache,
        pipeline@.silent == states[0].request.silent,
        pipeline@.model_id@ == loader.model_id,
        loader.config.prompt_chunksize matches Some(own) ==> pipeline@.metadata.prompt_chunksize
            == Some(own),
        loader.config.prompt_chunksize is None ==> pipeline@.metadata.prompt_chunksize == Some(
            states[0].request.default_chunk,
        ),
        loader.tgt_non_granular_index is None ==> pipeline@.non_granular_state is None,
        loader.tgt_non_granular_index matches Some(tgt) ==> (
        pipeline@.non_granular_state matches Some(s) && s.non_granular_index == 0
            && s.tgt_non_granular_index == tgt),
        pipeline@.topology is Some <==> loader.config.topology is Some,
        pipeline@.topology matches Some(t) ==> t.layers@ == loader.config.topology->0.layers@,
        pipeline@.organization == loader.config.organization,
        pipeline@.imatrix == loader.config.imatrix,
        pipeline@.template_filename == states[0].files.template_filename,
        pipeline@.generation_config == states[0].files.generation_config,
        pipeline@.metadata.kind == loader.kind,
        pipeline@.metadata.is_xlora <==> loader.kind == (ModelKind::Adapter {
            adapter: AdapterKind::XLora,
        }),
        pipeline@.metadata.no_prefix_cache <==> loader.kind == (ModelKind::Adapter {
            adapter: AdapterKind::XLora,
        }),
        pipeline@.parallel_models@.len() > 0,
        pipeline@.metadata.max_seq_len == pipeline@.parallel_models@[0].max_seq_len,
        pipeline@.metadata.num_hidden_layers == pipeline@.parallel_models@[0].cache_layers,
        pipeline@.metadata.sliding_window == pipeline@.parallel_models@[0].sliding_window,
{
    let i = states.len() - 1;
    law_load_ends(loader, states, events, i);
    lemma_request_of_a_run(loader, states, events, i);
}

/// A loader that comes straight from its builder, with no word on the KV cache and no adapter, loads
/// pipelines that use the KV cache; one that is told otherwise last loads pipelines that do as told.
/// A load from the hub in between changes nothing of it.
pub proof fn law_kv_cache_is_used_unless_told<P, O>(
    config: NormalSpecificConfig,
    chat_template: Option<String>,
    tokenizer_json: Option<String>,
    model_id: Option<String>,
    fresh: NormalLoaderBuilder<O>,
    no_kv_cache: bool,
    told: NormalLoaderBuilder<O>,
    loader_tp: Option<NormalLoaderType>,
    loader: NormalLoader<O>,
    revision: Option<String>,
    token_source: TokenSource,
    uqff: Option<PathBuf>,
    states: Seq<LoadState<P>>,
    events: Seq<LoadEvent>,
    event: LoadEvent,
    done: LoadState<P>,
    pipeline: NormalPipeline,
)
    requires
        call_ensures(
            NormalLoaderBuilder::<O>::new,
            (config, chat_template, tokenizer_json, model_id),
            fresh,
        ),
        call_ensures(NormalLoaderBuilder::<O>::with_no_kv_cache, (fresh, no_kv_cache), told),
        ({
            let l = loader@.recorded(revision, token_source, uqff);
            &&& is_run(l, states, events)
            &&& states.last().accepts(l, event)
            &&& states.last().steps(l, event, Ok((done, LoadAction::Finish { pipeline })))
        }),
    ensures
        call_ensures(
            NormalLoaderBuilder::<O>::build,
            (fresh, loader_tp),
            Ok::<NormalLoader<O>, LoadError>(loader),
        ) ==> !pipeline@.no_kv_cache && !pipeline@.metadata.no_kv_cache,
        call_ensures(
            NormalLoaderBuilder::<O>::build,
            (told, loader_tp),
            Ok::<NormalLoader<O>, LoadError>(loader),
        ) ==> pipeline@.no_kv_cache == no_kv_cache && pipeline@.metadata.no_kv_cache == no_kv_cache,
{
    let l = loader@.recorded(revision, token_source, uqff);
    law_finished_load_is_set_up_as_settled(l, states, events, event, done, pipeline);
}

/// `e` happened among `events`.
pub open spec fn happened(events: Seq<LoadEvent>, e: LoadEvent) -> bool {
    exists|k: int| 0 <= k < events.len() && #[trigger] events[k] == e
}

proof fn lemma_happened_still(events: Seq<LoadEvent>, j: int, e: LoadEvent)
    requires
        0 <= j < events.len(),
        happened(events.take(j), e) || events[j] == e,
    ensures
        happened(events.take(j + 1), e),
{
    let more = events.take(j + 1);
    if events[j] == e {
        assert(more[j] == e);
    } else {
        let less = events.take(j);
        let k = choose|k: int| 0 <= k < less.len() && #[trigger] less[k] == e;
        assert(more[k] == e);
    }
}

proof fn lemma_known_of_a_run<P, O>(
    loader: LoaderView<O>,
    states: Seq<LoadState<P>>,
    events: Seq<LoadEvent>,
    i: int,
)
    requires
        is_run(loader, states, events),
        0 <= i < states.len(),
        states[i].phase.rank() < 15,
    ensures
        ({
            let n = states[i].phase.rank();
            let so_far = events.take(i);
            &&& n >= 1 ==> happened(so_far, LoadEvent::ConfigRead { config: states[i].config->0 })
            &&& n >= 7 ==> exists|u: Vec<Device>| #[trigger]
                happened(so_far, LoadEvent::Mapped { unique_devices: u, dtype: states[i].dtype->0 })
            &&& n >= 10 ==> happened(so_far, LoadEvent::ModelsLoaded { models: states[i].models })
            &&& n >= 11 ==> happened(
                so_far,
                LoadEvent::TokenizerLoaded {
                    chat_template: states[i].chat_template->0,
                    eos_tok: states[i].eos_tok,
                },
            )
        }),
    decreases i,
{
    if i > 0 {
        let j = i - 1;
        law_load_ends(loader, states, events, j);
        assert(states[j].accepts(loader, events[j]));
        let action = choose|action: LoadAction<P>| #[trigger]
            states[j].steps(loader, events[j], Ok((states[i], action)));
        law_step_advances(states[j], loader, events[j], Ok((states[i], action)));
        law_what_was_asked_for_stays(states[j], loader, events[j], Ok((states[i], action)));
        law_what_comes_up_is_kept(states[j], loader, events[j], Ok((states[i], action)));
        lemma_known_of_a_run(loader, states, events, j);
        let n = states[i].phase.rank();
        if n >= 1 {
            lemma_happened_still(
                events,
                j,
                LoadEvent::ConfigRead { config: states[i].config->0 },
            );
        }
        if n >= 7 {
            let dtype = states[i].dtype->0;
            if let LoadEvent::Mapped { unique_devices, dtype: d } = events[j] {
                lemma_happened_still(events, j, LoadEvent::Mapped { unique_devices, dtype });
            } else {
                let u = choose|u: Vec<Device>| #[trigger]
                    happened(events.take(j), LoadEvent::Mapped { unique_devices: u, dtype });
                lemma_happened_still(events, j, LoadEvent::Mapped { unique_devices: u, dtype });
            }
        }
        if n >= 10 {
            lemma_happened_still(events, j, LoadEvent::ModelsLoaded { models: states[i].models });
        }
        if n >= 11 {
            lemma_happened_still(
                events,
                j,
                LoadEvent::TokenizerLoaded {
                    chat_template: states[i].chat_template->0,
                    eos_tok: states[i].eos_tok,
                },
            );
        }
    }
}

/// Whatever happens in between, a load that finishes ends with a pipeline of what came up: the
/// config text that was read, the models that were loaded, rank by rank, the tokenizer's template
/// and end tokens, and the element type that the mapping settled. Where there are cache engines, each
/// rank's is on the device of the model that was loaded for that rank.
pub proof fn law_finished_load_holds_what_came_up<P, O>(
    loader: LoaderView<O>,
    states: Seq<LoadState<P>>,
    events: Seq<LoadEvent>,
    event: LoadEvent,
    done: LoadState<P>,
    pipeline: NormalPipeline,
)
    requires
        is_run(loader, states, events),
        states.last().accepts(loader, event),
        states.last().steps(loader, event, Ok((done, LoadAction::Finish { pipeline }))),
    ensures
        exists|k: int|
            0 <= k < events.len() && #[trigger] events[k] == (LoadEvent::ConfigRead {
                config: pipeline@.config,
            }),
        exists|k: int|
            0 <= k < events.len() && (#[trigger] events[k] matches LoadEvent::ModelsLoaded { models }
                && models@ == pipeline@.parallel_models@),
        exists|k: int|
            0 <= k < events.len() && (#[trigger] events[k] matches LoadEvent::Mapped { dtype, .. }
                && dtype == pipeline@.metadata.activation_dtype),
        pipeline@.metadata.cache_engines matches Some(engines) ==> {
            &&& engines@.len() == pipeline@.parallel_models@.len()
            &&& forall|i: int|
                0 <= i < engines@.len() ==> #[trigger] engines@[i]
                    == pipeline@.parallel_models@[i].device
        },
        exists|k: int|
            0 <= k <= events.len() && (#[trigger] events.push(event)[k] matches
            LoadEvent::TokenizerLoaded { chat_template, eos_tok } && chat_template
                == pipeline@.chat_template && eos_tok@ == pipeline@.metadata.eos_tok@),
{
    let i = states.len() - 1;
    law_load_ends(loader, states, events, i);
    lemma_known_of_a_run(loader, states, events, i);
    assert(events.take(i) =~= events);
    let last = states[i];
    let k = choose|k: int|
        0 <= k < events.len() && #[trigger] events[k] == (LoadEvent::ConfigRead {
            config: last.config->0,
        });
    assert(events[k] == (LoadEvent::ConfigRead { config: pipeline@.config }));
    let m = choose|k: int|
        0 <= k < events.len() && #[trigger] events[k] == (LoadEvent::ModelsLoaded {
            models: last.models,
        });
    assert(events[m] is ModelsLoaded);
    let u = choose|u: Vec<Device>| #[trigger]
        happened(events, LoadEvent::Mapped { unique_devices: u, dtype: last.dtype->0 });
    let d = choose|k: int|
        0 <= k < events.len() && #[trigger] events[k] == (LoadEvent::Mapped {
            unique_devices: u,
            dtype: last.dtype->0,
        });
    assert(events[d] is Mapped);
    let all = events.push(event);
    if event is TokenizerLoaded {
        assert(all[events.len() as int] == event);
    } else {
        let t = choose|k: int|
            0 <= k < events.len() && #[trigger] events[k] == (LoadEvent::TokenizerLoaded {
                chat_template: last.chat_template->0,
                eos_tok: last.eos_tok,
            });
        assert(all[t] == events[t]);
    }
}

} // verus!
