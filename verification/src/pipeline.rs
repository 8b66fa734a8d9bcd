//! A loaded pipeline: one model on each rank, and what is done with all of them together.

use std::path::PathBuf;
use candle_core::DType;
use vstd::prelude::*;
use crate::calibrate::ChatTemplate;
use crate::config::{copy_topology, ChunkSize, Topology};
#[allow(unused_imports)]
use crate::config::topology_layers;
use crate::device::Device;
use crate::error::ForwardError;
use crate::kinds::{
    CacheKind, ImatrixDataSource, IsqOrganization, IsqType, ModelCategory, ModelKind,
};
use crate::outcome::{all_agree, all_done, collect_results, concatenate};
#[allow(unused_imports)]
use crate::outcome::{all_ok, is_collected, is_first_error, rows_of};
use crate::sizing::checked_sum;
#[allow(unused_imports)]
use crate::sizing::{law_sum_adds_every_number, sum};

verus! {

/// What the pipeline knows of the model on one rank.
#[derive(Clone, Copy, Debug, PartialEq, Eq, Structural)]
pub struct ModelInfo {
    pub device: Device,
    pub cache: CacheKind,
    /// Number of layers that the cache has an entry for.
    pub cache_layers: usize,
    pub is_xlora: bool,
    pub max_seq_len: usize,
    pub sliding_window: Option<usize>,
}

/// How far an X-LoRA model is from running its scalings pass no more.
#[derive(Clone, Copy, Debug, PartialEq, Eq, Structural)]
pub struct NonGranularState {
    pub non_granular_index: usize,
    pub tgt_non_granular_index: usize,
}

/// The blocks that the paged-attention cache is made of.
#[derive(Clone, Copy, Debug, PartialEq, Eq, Structural)]
pub struct CacheConfig {
    pub block_size: usize,
    pub num_gpu_blocks: usize,
    pub num_cpu_blocks: usize,
}

/// What a pipeline tells about itself.
pub struct GeneralMetadata {
    pub max_seq_len: usize,
    pub no_kv_cache: bool,
    pub no_prefix_cache: bool,
    pub num_hidden_layers: usize,
    pub eos_tok: Vec<u32>,
    pub kind: ModelKind,
    pub is_xlora: bool,
    pub activation_dtype: DType,
    pub sliding_window: Option<usize>,
    pub cache_config: Option<CacheConfig>,
    /// The device of each rank's cache engine, where attention is paged.
    pub cache_engines: Option<Vec<Device>>,
    pub prompt_chunksize: Option<ChunkSize>,
}

/// What a pipeline is made of.
pub struct PipelineParts {
    /// The models, by rank.
    pub parallel_models: Vec<ModelInfo>,
    pub no_kv_cache: bool,
    pub chat_template: ChatTemplate,
    pub non_granular_state: Option<NonGranularState>,
    pub model_id: String,
    pub metadata: GeneralMetadata,
    pub topology: Option<Topology>,
    pub silent: bool,
    pub organization: IsqOrganization,
    pub template_filename: Option<PathBuf>,
    pub generation_config: Option<PathBuf>,
    /// The text of the model's config.
    pub config: String,
    pub imatrix: Option<PathBuf>,
}

/// A text model that is ready to run.
pub struct NormalPipeline {
    parts: PipelineParts,
}

impl View for NormalPipeline {
    type V = PipelineParts;

    closed spec fn view(&self) -> PipelineParts {
        self.parts
    }
}

/// How the models of a pipeline are quantised, rank by rank.
pub struct QuantizePlan {
    pub isq: Option<IsqType>,
    /// The device that each rank's model is put on.
    pub devices: Vec<Device>,
    pub topology: Option<Topology>,
    pub silent: bool,
    pub imatrix: Option<ImatrixDataSource>,
    pub organization: IsqOrganization,
    pub write_uqff: Option<PathBuf>,
}

/// Which cache manager copies the sequences' caches in or out, and whether the draft model's are
/// meant.
#[derive(Clone, Copy, Debug, PartialEq, Eq, Structural)]
pub struct CloneCall {
    pub manager: CacheKind,
    pub modify_draft_cache: bool,
}

/// Which cache manager clears the sequences' caches, and how.
#[derive(Clone, Copy, Debug, PartialEq, Eq, Structural)]
pub struct SetNoneCall {
    pub manager: CacheKind,
    pub modify_draft_cache: bool,
    pub load_preallocated_cache: bool,
    /// The cached X-LoRA scalings are dropped afterwards.
    pub drop_scalings: bool,
}

/// Where an importance matrix file is named, it is what quantisation goes by.
pub open spec fn imatrix_file(imatrix: Option<PathBuf>) -> Option<ImatrixDataSource> {
    match imatrix {
        Some(path) => Some(ImatrixDataSource::File { path }),
        None => None,
    }
}

/// What successful counts hold.
pub open spec fn ok_counts<E>(counts: Seq<Result<usize, E>>) -> Seq<usize> {
    counts.map_values(|c: Result<usize, E>| c->Ok_0)
}

impl PipelineParts {
    /// There is a model, and a cache engine for each model where there is one for any.
    pub open spec fn wf(self) -> bool {
        &&& self.parallel_models@.len() > 0
        &&& self.metadata.cache_engines matches Some(engines) ==> engines@.len()
            == self.parallel_models@.len()
    }

    /// The non-granular state, if any, has come to `index`.
    pub open spec fn at_index(self, index: usize) -> PipelineParts {
        PipelineParts {
            non_granular_state: match self.non_granular_state {
                Some(s) => Some(NonGranularState { non_granular_index: index, ..s }),
                None => None,
            },
            ..self
        }
    }

    /// The pipeline with its non-granular state, if any, started over.
    pub open spec fn restarted(self) -> PipelineParts {
        self.at_index(0)
    }
}

impl NormalPipeline {
    #[verifier::type_invariant]
    spec fn inv(self) -> bool {
        self.parts.wf()
    }

    pub(crate) fn assemble(parts: PipelineParts) -> (r: NormalPipeline)
        requires
            parts.wf(),
        ensures
            r@ == parts,
    {
        NormalPipeline { parts }
    }

    /// Makes a pipeline, unless there is no model, or not a cache engine for each model where
    /// there is one for any.
    pub fn new(parts: PipelineParts) -> (r: Option<NormalPipeline>)
        ensures
            match r {
                Some(p) => parts.wf() && p@ == parts,
                None => !parts.wf(),
            },
    {
        let engines_fit = match &parts.metadata.cache_engines {
            Some(engines) => engines.len() == parts.parallel_models.len(),
            None => true,
        };
        if parts.parallel_models.len() > 0 && engines_fit {
            Some(NormalPipeline { parts })
        } else {
            None
        }
    }

    pub fn parts(&self) -> (r: &PipelineParts)
        ensures
            *r == self@,
            r.wf(),
    {
        proof {
            use_type_invariant(self);
        }
        &self.parts
    }

    pub fn get_chat_template(&self) -> (r: Option<&ChatTemplate>)
        ensures
            r == Some(&self@.chat_template),
    {
        Some(&self.parts.chat_template)
    }

    /// Plans quantising all models anew: each on the device of the first one, by the importance
    /// matrix that the pipeline was loaded with, and without writing the outcome.
    pub fn re_isq_model(&self, dtype: IsqType) -> (r: QuantizePlan)
        ensures
            r.isq == Some(dtype),
            r.devices@ == Seq::new(
                self@.parallel_models@.len(),
                |i: int| self@.parallel_models@[0].device,
            ),
            topology_layers(r.topology) == topology_layers(self@.topology),
            r.silent == self@.silent,
            r.imatrix == imatrix_file(self@.imatrix),
            r.organization == self@.organization,
            r.write_uqff is None,
    {
        let device = self.device();
        let mut devices: Vec<Device> = Vec::new();
        while devices.len() < self.parts.parallel_models.len()
            invariant
                devices@.len() <= self@.parallel_models@.len(),
                forall|i: int| 0 <= i < devices@.len() ==> #[trigger] devices@[i] == device,
            decreases self.parts.parallel_models.len() - devices.len(),
        {
            devices.push(device);
        }
        proof {
            assert(devices@ =~= Seq::new(
                self@.parallel_models@.len(),
                |i: int| self@.parallel_models@[0].device,
            ));
        }
        let imatrix: Option<ImatrixDataSource> = match &self.parts.imatrix {
            Some(path) => Some(ImatrixDataSource::File { path: path.clone() }),
            None => None,
        };
        QuantizePlan {
            isq: Some(dtype),
            devices,
            topology: copy_topology(&self.parts.topology),
            silent: self.parts.silent,
            imatrix,
            organization: self.parts.organization,
            write_uqff: None,
        }
    }

    /// Whether all models are quantised anew, or the first error.
    pub fn re_isq_done<E>(&self, quantised: Vec<Result<(), E>>) -> (r: Result<(), E>)
        requires
            quantised@.len() == self@.parallel_models@.len(),
        ensures
            r is Ok <==> all_ok(quantised@),
            r matches Err(e) ==> is_first_error(quantised@, e),
    {
        all_done(quantised)
    }

    /// Decides which manager copies the sequences' caches in. A pipeline of several ranks has
    /// none.
    pub fn clone_in_cache(&self) -> (r: CloneCall)
        requires
            self@.parallel_models@.len() == 1,
        ensures
            r == (CloneCall {
                manager: self@.parallel_models@[0].cache,
                modify_draft_cache: false,
            }),
    {
        CloneCall { manager: self.parts.parallel_models[0].cache, modify_draft_cache: false }
    }

    /// Decides which manager copies the sequences' caches out. A pipeline of several ranks has
    /// none.
    pub fn clone_out_cache(&self) -> (r: CloneCall)
        requires
            self@.parallel_models@.len() == 1,
        ensures
            r == (CloneCall {
                manager: self@.parallel_models@[0].cache,
                modify_draft_cache: false,
            }),
    {
        CloneCall { manager: self.parts.parallel_models[0].cache, modify_draft_cache: false }
    }

    /// Decides how the sequences' caches are cleared; on request, the non-granular state starts
    /// over. A full cache is never preallocated.
    pub fn set_none_cache(
        &mut self,
        reset_non_granular: bool,
        modify_draft_cache: bool,
        load_preallocated_cache: bool,
    ) -> (r: SetNoneCall)
        requires
            old(self)@.parallel_models@.len() == 1,
        ensures
            r == (SetNoneCall {
                manager: old(self)@.parallel_models@[0].cache,
                modify_draft_cache,
                load_preallocated_cache: load_preallocated_cache && old(
                    self,
                )@.parallel_models@[0].cache is Normal,
                drop_scalings: reset_non_granular && old(self)@.non_granular_state is Some,
            }),
            final(self)@ == (if reset_non_granular {
                old(self)@.restarted()
            } else {
                old(self)@
            }),
    {
        let manager: CacheKind = self.parts.parallel_models[0].cache;
        let preallocate = match manager {
            CacheKind::Full => false,
            CacheKind::Normal => load_preallocated_cache,
        };
        let drop_scalings = if reset_non_granular {
            self.reset_non_granular_state()
        } else {
            false
        };
        SetNoneCall {
            manager,
            modify_draft_cache,
            load_preallocated_cache: preallocate,
            drop_scalings,
        }
    }

    /// The sort of cache that the pipeline keeps: that of its first model.
    pub fn cache(&self) -> (r: CacheKind)
        ensures
            r == self@.parallel_models@[0].cache,
    {
        proof {
            use_type_invariant(self);
        }
        self.parts.parallel_models[0].cache
    }

    /// Adds up how many adapters each model has activated, unless one of them failed.
    pub fn activate_adapters<E>(&self, activated: Vec<Result<usize, E>>) -> (r: Result<usize, E>)
        requires
            activated@.len() == self@.parallel_models@.len(),
            all_ok(activated@) ==> sum(ok_counts(activated@)) <= usize::MAX,
        ensures
            match r {
                Ok(total) => all_ok(activated@) && total == sum(ok_counts(activated@)),
                Err(e) => is_first_error(activated@, e),
            },
    {
        let ghost results = activated@;
        match collect_results(activated) {
            Ok(counts) => {
                proof {
                    assert(counts@ =~= ok_counts(results)) by {
                        assert forall|i: int| 0 <= i < counts@.len() implies counts@[i]
                            == ok_counts(results)[i] by {
                            assert(results[i] == Ok::<usize, E>(counts@[i]));
                        }
                    }
                }
                Ok(checked_sum(&counts).unwrap())
            },
            Err(e) => Err(e),
        }
    }

    /// The device that inputs are put on: that of the first model.
    pub fn device(&self) -> (r: Device)
        ensures
            r == self@.parallel_models@[0].device,
    {
        proof {
            use_type_invariant(self);
        }
        self.parts.parallel_models[0].device
    }

    pub fn name(&self) -> (r: String)
        ensures
            r@ == self@.model_id@,
    {
        self.parts.model_id.clone()
    }

    /// Starts the non-granular state over, and tells whether the cached scalings are to be
    /// dropped along with it.
    pub fn reset_non_granular_state(&mut self) -> (r: bool)
        ensures
            r == (old(self)@.non_granular_state is Some),
            final(self)@ == old(self)@.restarted(),
    {
        let kept = self.parts.non_granular_state.is_some();
        self.set_non_granular_index(0);
        kept
    }

    /// Takes over how far an X-LoRA model has brought the non-granular state in a step.
    pub fn set_non_granular_index(&mut self, index: usize)
        ensures
            final(self)@ == old(self)@.at_index(index),
    {
        proof {
            use_type_invariant(&*self);
        }
        match self.parts.non_granular_state {
            Some(s) => {
                self.parts.non_granular_state =
                Some(
                    NonGranularState {
                        non_granular_index: index,
                        tgt_non_granular_index: s.tgt_non_granular_index,
                    },
                );
            },
            None => {},
        }
    }

    pub fn get_metadata(&self) -> (r: &GeneralMetadata)
        ensures
            *r == self@.metadata,
    {
        &self.parts.metadata
    }

    pub fn category(&self) -> (r: ModelCategory)
        ensures
            r is Text,
    {
        ModelCategory::Text
    }

    /// Whether all models have finished training their gates, or the first error.
    pub fn amoe_finish_training<E>(&self, finished: Vec<Result<(), E>>) -> (r: Result<(), E>)
        requires
            finished@.len() == self@.parallel_models@.len(),
        ensures
            match r {
                Ok(_) => all_ok(finished@),
                Err(e) => is_first_error(finished@, e),
            },
    {
        all_done(finished)
    }

    /// The trainable variables of all models, rank after rank.
    pub fn amoe_layer_vars<V>(&self, vars: Vec<Vec<V>>) -> (r: Vec<V>)
        requires
            vars@.len() == self@.parallel_models@.len(),
        ensures
            r@ == rows_of(vars@).flatten(),
    {
        concatenate(vars)
    }

    /// The number of trainable parameters of all models together.
    pub fn amoe_base_model_trainable_params(&self, params: &Vec<usize>) -> (r: usize)
        requires
            params@.len() == self@.parallel_models@.len(),
            sum(params@) <= usize::MAX,
        ensures
            r == sum(params@),
    {
        checked_sum(params).unwrap()
    }

    /// The gating outputs of all models, rank after rank.
    pub fn amoe_take_cached_gating_outputs<T>(&self, outputs: Vec<Vec<T>>) -> (r: Vec<T>)
        requires
            outputs@.len() == self@.parallel_models@.len(),
        ensures
            r@ == rows_of(outputs@).flatten(),
    {
        concatenate(outputs)
    }

    /// Whether every model can be turned into a mixture of experts.
    pub fn amoe_supported(&self, supported: &Vec<bool>) -> (r: bool)
        requires
            supported@.len() == self@.parallel_models@.len(),
        ensures
            r == forall|i: int| 0 <= i < supported@.len() ==> #[trigger] supported@[i],
    {
        all_agree(supported)
    }
}

/// What a forward step is given. `T` is a tensor, `M` the paged-attention metadata, and `F` the
/// flash-attention metadata.
pub struct ModelInputs<T, M, F> {
    pub input_ids: T,
    pub input_ids_full: Option<T>,
    pub seqlen_offsets: Vec<usize>,
    pub seqlen_offsets_full: Option<Vec<usize>>,
    pub context_lens: Vec<(usize, usize)>,
    pub position_ids: Vec<usize>,
    pub paged_attn_meta: Option<M>,
    pub flash_meta: F,
    pub flash_meta_full: Option<F>,
}

impl<T, M, F> ModelInputs<T, M, F> {
    /// The ids of the whole sequences, which are the step's own unless given apart.
    pub fn full_input_ids(&self) -> (r: &T)
        ensures
            *r == match self.input_ids_full {
                Some(full) => full,
                None => self.input_ids,
            },
    {
        match &self.input_ids_full {
            Some(full) => full,
            None => &self.input_ids,
        }
    }

    /// The offsets of the whole sequences, which are the step's own unless given apart.
    pub fn full_seqlen_offsets(&self) -> (r: &Vec<usize>)
        ensures
            *r == match self.seqlen_offsets_full {
                Some(full) => full,
                None => self.seqlen_offsets,
            },
    {
        match &self.seqlen_offsets_full {
            Some(full) => full,
            None => &self.seqlen_offsets,
        }
    }

    /// The flash-attention metadata of the whole sequences, which is the step's own unless given
    /// apart.
    pub fn full_flash_meta(&self) -> (r: &F)
        ensures
            *r == match self.flash_meta_full {
                Some(full) => full,
                None => self.flash_meta,
            },
    {
        match &self.flash_meta_full {
            Some(full) => full,
            None => &self.flash_meta,
        }
    }
}

/// One rank's part of a forward step.
#[derive(Clone, Copy, Debug, PartialEq, Eq, Structural)]
pub struct RankCall {
    pub rank: usize,
    /// Where the inputs are moved to first.
    pub device: Device,
    /// The cache engine that the rank uses, where attention is paged.
    pub engine: Option<usize>,
}

/// How a forward step is run.
#[derive(Debug)]
pub enum ForwardPlan {
    /// The only model runs on the inputs as they are.
    Single { engine: Option<usize> },
    /// All ranks run at once.
    Parallel { calls: Vec<RankCall> },
    /// The first model runs with its scalings, over the step and over the whole sequences.
    XLora { no_kv_cache: bool, non_granular_state: Option<NonGranularState> },
}

/// What a forward step yields. `L` is a tensor.
#[derive(Debug)]
pub enum ForwardInputsResult<L> {
    RawLogits { logits: L },
    CausalGeneration { logits: L },
}

impl NormalPipeline {
    /// Decides how a forward step is run.
    pub fn forward_inputs<T, M, F>(&self, inputs: &ModelInputs<T, M, F>) -> (r: Result<
        ForwardPlan,
        ForwardError,
    >)
        ensures
            self@.is_forward_plan(inputs.paged_attn_meta is Some, r),
    {
        proof {
            use_type_invariant(self);
        }
        let parts = &self.parts;
        let engines = parts.metadata.cache_engines.is_some();
        if engines && inputs.paged_attn_meta.is_none() {
            return Err(ForwardError::MissingPagedMetadata);
        }
        if !engines && inputs.paged_attn_meta.is_some() {
            return Err(ForwardError::UnexpectedPagedMetadata);
        }
        if parts.parallel_models[0].is_xlora {
            return Ok(
                ForwardPlan::XLora {
                    no_kv_cache: parts.no_kv_cache,
                    non_granular_state: parts.non_granular_state,
                },
            );
        }
        if parts.parallel_models.len() == 1 {
            let engine: Option<usize> = if engines {
                Some(0)
            } else {
                None
            };
            return Ok(ForwardPlan::Single { engine });
        }
        let mut calls: Vec<RankCall> = Vec::new();
        let mut rank: usize = 0;
        while rank < parts.parallel_models.len()
            invariant
                rank <= parts.parallel_models@.len(),
                engines == (parts.metadata.cache_engines is Some),
                calls@ == parts.rank_calls().take(rank as int),
            decreases parts.parallel_models.len() - rank,
        {
            let engine: Option<usize> = if engines {
                Some(rank)
            } else {
                None
            };
            calls.push(RankCall { rank, device: parts.parallel_models[rank].device, engine });
            rank = rank + 1;
            proof {
                assert(parts.rank_calls().take(rank as int) =~= parts.rank_calls().take(
                    rank - 1,
                ).push(parts.rank_calls()[rank - 1]));
            }
        }
        proof {
            assert(parts.rank_calls().take(rank as int) =~= parts.rank_calls());
        }
        Ok(ForwardPlan::Parallel { calls })
    }
}

impl PipelineParts {
    /// The step carries paged-attention metadata exactly where there are cache engines for it.
    pub open spec fn accepts_metadata(self, paged: bool) -> bool {
        self.metadata.cache_engines is Some <==> paged
    }

    /// The cache engine of a rank.
    pub open spec fn engine_of(self, rank: int) -> Option<usize> {
        match self.metadata.cache_engines {
            Some(_) => Some(rank as usize),
            None => None,
        }
    }

    /// The parts of all ranks in a step that they run at once.
    pub open spec fn rank_calls(self) -> Seq<RankCall> {
        Seq::new(
            self.parallel_models@.len(),
            |i: int|
                RankCall {
                    rank: i as usize,
                    device: self.parallel_models@[i].device,
                    engine: self.engine_of(i),
                },
        )
    }

    /// `r` is how a step is run that carries paged-attention metadata or not.
    pub open spec fn is_forward_plan(
        self,
        paged: bool,
        r: Result<ForwardPlan, ForwardError>,
    ) -> bool {
        if self.metadata.cache_engines is Some && !paged {
            r == Err::<ForwardPlan, ForwardError>(ForwardError::MissingPagedMetadata)
        } else if self.metadata.cache_engines is None && paged {
            r == Err::<ForwardPlan, ForwardError>(ForwardError::UnexpectedPagedMetadata)
        } else if self.parallel_models@[0].is_xlora {
            r == Ok::<ForwardPlan, ForwardError>(
                ForwardPlan::XLora {
                    no_kv_cache: self.no_kv_cache,
                    non_granular_state: self.non_granular_state,
                },
            )
        } else if self.parallel_models@.len() == 1 {
            r == Ok::<ForwardPlan, ForwardError>(
                ForwardPlan::Single { engine: self.engine_of(0) },
            )
        } else {
            r matches Ok(ForwardPlan::Parallel { calls }) && calls@ == self.rank_calls()
        }
    }
}

/// Takes the logits of a step from what the ranks came up with: those of the first rank, unless
/// some rank failed.
pub fn forward_result<L, E>(outcomes: Vec<Result<L, E>>, return_raw_logits: bool) -> (r: Result<
    ForwardInputsResult<L>,
    E,
>)
    requires
        outcomes@.len() > 0,
    ensures
        match r {
            Ok(result) => {
                &&& all_ok(outcomes@)
                &&& result == (if return_raw_logits {
                    ForwardInputsResult::RawLogits { logits: outcomes@[0]->Ok_0 }
                } else {
                    ForwardInputsResult::CausalGeneration { logits: outcomes@[0]->Ok_0 }
                })
            },
            Err(e) => is_first_error(outcomes@, e),
        },
{
    let ghost results = outcomes@;
    match collect_results(outcomes) {
        Ok(mut all) => {
            proof {
                assert(results[0] == Ok::<L, E>(all@[0]));
            }
            let logits = all.swap_remove(0);
            if return_raw_logits {
                Ok(ForwardInputsResult::RawLogits { logits })
            } else {
                Ok(ForwardInputsResult::CausalGeneration { logits })
            }
        },
        Err(e) => Err(e),
    }
}

/// A step is run exactly where it carries paged-attention metadata if and only if the pipeline
/// has cache engines.
pub proof fn law_step_runs_iff_metadata_fits(
    p: PipelineParts,
    paged: bool,
    r: Result<ForwardPlan, ForwardError>,
)
    requires
        p.wf(),
        p.is_forward_plan(paged, r),
    ensures
        r is Ok <==> p.accepts_metadata(paged),
{
}

/// Where all ranks run, each runs once, on its own device, and with a cache engine that exists.
pub proof fn law_every_rank_runs_once(
    p: PipelineParts,
    paged: bool,
    r: Result<ForwardPlan, ForwardError>,
    rank: int,
)
    requires
        p.wf(),
        p.is_forward_plan(paged, r),
        r matches Ok(ForwardPlan::Parallel { calls }),
        0 <= rank < p.parallel_models@.len(),
    ensures
        r->Ok_0->calls@.len() == p.parallel_models@.len(),
        r->Ok_0->calls@[rank].rank == rank,
        r->Ok_0->calls@[rank].device == p.parallel_models@[rank].device,
        r->Ok_0->calls@[rank].engine matches Some(e) ==> e < p.metadata.cache_engines->0@.len(),
{
    assert(p.parallel_models@.len() == p.parallel_models.len());
}

/// Starting the non-granular state over leaves the pipeline as sound as it was, undoes whatever the
/// steps before it did to the state, and doing so twice is the same as once.
pub proof fn law_restart_is_stable(p: PipelineParts, index: usize)
    ensures
        p.restarted().wf() == p.wf(),
        p.at_index(index).restarted() == p.restarted(),
        p.restarted().restarted() == p.restarted(),
{
}

/// What a step does to the non-granular state is there in the next one, and nothing else changes.
pub proof fn law_state_lasts_between_steps(p: PipelineParts, one: usize, two: usize)
    ensures
        p.at_index(one).at_index(two) == p.at_index(two),
        p.non_granular_state matches Some(s) ==> p.at_index(one).non_granular_state == Some(
            NonGranularState { non_granular_index: one, ..s },
        ),
        p.non_granular_state is None ==> p.at_index(one) == p,
{
}

/// Where the first model is an X-LoRA one and the metadata fits, that model runs alone, with the
/// pipeline's own choice of a KV cache and its own non-granular state.
pub proof fn law_xlora_step_carries_the_state(
    p: PipelineParts,
    paged: bool,
    r: Result<ForwardPlan, ForwardError>,
)
    requires
        p.wf(),
        p.is_forward_plan(paged, r),
        p.parallel_models@[0].is_xlora,
        p.metadata.cache_engines is Some <==> paged,
    ensures
        r matches Ok(ForwardPlan::XLora { no_kv_cache, non_granular_state }) && no_kv_cache
            == p.no_kv_cache && non_granular_state == p.non_granular_state,
{
}

/// A model that is alone and no X-LoRA one runs alone; several run at once, each under its own
/// rank, on its own device, and with the cache engine of its own rank where attention is paged.
pub proof fn law_each_rank_has_its_own_engine(
    p: PipelineParts,
    paged: bool,
    r: Result<ForwardPlan, ForwardError>,
    i: int,
)
    requires
        p.wf(),
        p.is_forward_plan(paged, r),
        !p.parallel_models@[0].is_xlora,
        p.metadata.cache_engines is Some <==> paged,
        0 <= i < p.parallel_models@.len(),
    ensures
        p.parallel_models@.len() == 1 ==> (r matches Ok(ForwardPlan::Single { engine }) && engine
            == (if paged {
            Some(0usize)
        } else {
            None
        })),
        p.parallel_models@.len() > 1 ==> (r matches Ok(ForwardPlan::Parallel { calls })
            && calls@.len() == p.parallel_models@.len() && calls@[i].rank == i && calls@[i].device
            == p.parallel_models@[i].device && (paged ==> calls@[i].engine == Some(i as usize)) && (
        !paged ==> calls@[i].engine is None)),
{
    assert(p.parallel_models@.len() == p.parallel_models.len());
}

/// Metadata without engines and engines without metadata are refused, each for its own reason, and
/// a pipeline is sound where it has a model and as many engines as models, or none.
pub proof fn law_metadata_and_engines_go_together(
    p: PipelineParts,
    paged: bool,
    r: Result<ForwardPlan, ForwardError>,
)
    requires
        p.is_forward_plan(paged, r),
    ensures
        p.metadata.cache_engines is Some && !paged ==> (r matches Err(e)
            && e is MissingPagedMetadata),
        p.metadata.cache_engines is None && paged ==> (r matches Err(e)
            && e is UnexpectedPagedMetadata),
        p.wf() <==> p.parallel_models@.len() > 0 && (p.metadata.cache_engines matches Some(engines)
            ==> engines@.len() == p.parallel_models@.len()),
{
}

/// Only the index changes in a step, and starting over brings it back to nothing.
pub proof fn law_only_the_index_moves(p: PipelineParts, index: usize)
    ensures
        p.non_granular_state matches Some(s) ==> {
            &&& p.at_index(index).non_granular_state matches Some(t) && t.non_granular_index == index
                && t.tgt_non_granular_index == s.tgt_non_granular_index
            &&& p.restarted().non_granular_state matches Some(t) && t.non_granular_index == 0
                && t.tgt_non_granular_index == s.tgt_non_granular_index
        },
        p.non_granular_state is None ==> p.at_index(index).non_granular_state is None
            && p.restarted().non_granular_state is None,
        ({
            let q = p.at_index(index);
            &&& q.parallel_models == p.parallel_models
            &&& q.no_kv_cache == p.no_kv_cache
            &&& q.chat_template == p.chat_template
            &&& q.model_id == p.model_id
            &&& q.metadata == p.metadata
            &&& q.topology == p.topology
            &&& q.silent == p.silent
            &&& q.organization == p.organization
            &&& q.template_filename == p.template_filename
            &&& q.generation_config == p.generation_config
            &&& q.config == p.config
            &&& q.imatrix == p.imatrix
        }),
        p.restarted() == p.at_index(0),
{
}

/// Every adapter that a model has activated counts: one more model adds what it has activated.
pub proof fn law_every_activation_counts<E>(counts: Seq<Result<usize, E>>, n: usize)
    ensures
        sum(ok_counts(counts.push(Ok(n)))) == sum(ok_counts(counts)) + n,
        sum(ok_counts(Seq::<Result<usize, E>>::empty())) == 0,
{
    assert(ok_counts(counts.push(Ok(n))) =~= ok_counts(counts).push(n));
    law_sum_adds_every_number(ok_counts(counts), n);
    assert(ok_counts(Seq::<Result<usize, E>>::empty()) =~= Seq::<usize>::empty());
}

/// A file with an importance matrix is what quantisation goes by, and nothing is where none is
/// named.
pub proof fn law_named_imatrix_is_used(path: PathBuf)
    ensures
        imatrix_file(Some(path)) == Some(ImatrixDataSource::File { path }),
        imatrix_file(None) is None,
{
}

/// Quantising anew goes by what the pipeline was loaded with: every rank has a place in it, on the
/// device that inputs are put on, and nothing is written.
pub proof fn law_quantising_anew_is_as_loaded(
    p: NormalPipeline,
    dtype: IsqType,
    plan: QuantizePlan,
    device: Device,
    i: int,
)
    requires
        call_ensures(NormalPipeline::re_isq_model, (&p, dtype), plan),
        call_ensures(NormalPipeline::device, (&p,), device),
        0 <= i < p@.parallel_models@.len(),
    ensures
        plan.isq == Some(dtype),
        plan.devices@.len() == p@.parallel_models@.len(),
        plan.devices@[i] == device,
        plan.devices@[i] == p@.parallel_models@[0].device,
        plan.topology is Some <==> p@.topology is Some,
        plan.topology matches Some(t) ==> t.layers@ == p@.topology->0.layers@,
        plan.silent == p@.silent,
        p@.imatrix matches Some(path) ==> plan.imatrix == Some(ImatrixDataSource::File { path }),
        p@.imatrix is None ==> plan.imatrix is None,
        plan.organization == p@.organization,
        plan.write_uqff is None,
{
}

/// The caches of the sequences go out the way they came in: through the manager of the sort of
/// cache that the pipeline keeps, and not through the draft model's.
pub proof fn law_caches_go_out_as_they_came_in(
    p: NormalPipeline,
    into: CloneCall,
    out: CloneCall,
    cache: CacheKind,
)
    requires
        call_ensures(NormalPipeline::clone_in_cache, (&p,), into),
        call_ensures(NormalPipeline::clone_out_cache, (&p,), out),
        call_ensures(NormalPipeline::cache, (&p,), cache),
    ensures
        into == out,
        into.manager == cache,
        cache == p@.parallel_models@[0].cache,
        !into.modify_draft_cache,
{
}

/// A step yields the logits of the first rank, raw where that is asked for, once all ranks have come
/// up with some; the first rank that fails decides otherwise.
pub proof fn law_first_rank_speaks_for_all<L, E>(
    outcomes: Vec<Result<L, E>>,
    return_raw_logits: bool,
    r: Result<ForwardInputsResult<L>, E>,
    k: int,
)
    requires
        outcomes@.len() > 0,
        call_ensures(forward_result::<L, E>, (outcomes, return_raw_logits), r),
        0 <= k < outcomes@.len(),
        forall|j: int| 0 <= j < k ==> (#[trigger] outcomes@[j]) is Ok,
    ensures
        outcomes@[k] matches Err(e) ==> r == Err::<ForwardInputsResult<L>, E>(e),
        k == outcomes@.len() - 1 && outcomes@[k] is Ok ==> {
            &&& return_raw_logits ==> (r matches Ok(ForwardInputsResult::RawLogits { logits })
                && outcomes@[0] == Ok::<L, E>(logits))
            &&& !return_raw_logits ==> (r matches Ok(
                ForwardInputsResult::CausalGeneration { logits },
            ) && outcomes@[0] == Ok::<L, E>(logits))
        },
{
}

} // verus!
