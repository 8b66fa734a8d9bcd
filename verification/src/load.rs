//! Loading a model, step by step.
//!
//! Loading alternates between work on files, devices and other nodes, and decisions about it.
//! The decisions are taken here: a `LoadState` is told by a `LoadEvent` what the work came to,
//! and answers with the `LoadAction` that is next.

use std::path::PathBuf;
use candle_core::DType;
use tokenizers::Tokenizer;
use vstd::prelude::*;
use crate::calibrate::{
    bos_token_id, calibration_chunks, calibration_tokens, is_plain_tokenizer, ChatTemplate,
};
#[allow(unused_imports)]
use crate::calibrate::{is_chunking, is_tokenising, leading_token};
use crate::config::{copy_path, copy_topology, ChunkSize, Topology};
#[allow(unused_imports)]
use crate::config::topology_layers;
use crate::device::{copy_devices, includes_cpu, Device};
#[allow(unused_imports)]
use crate::device::any_cpu;
use crate::error::LoadError;
use crate::kinds::{
    AttentionImplementation, CacheReset, ImatrixDataSource, IsqOrganization, IsqType, ModelKind, TokenSource,
};
use crate::loader::NormalLoader;
#[allow(unused_imports)]
use crate::loader::LoaderView;
#[allow(unused_imports)]
use crate::outside::{encodings, is_plain, returns_on};
use crate::parallel::{
    barrier_plan, do_ranks_fit, id_exchange, is_world_defined, plan_world, rank_offset, seat_ranks,
    split_devices, transpose, use_nccl, BarrierPlan, CommSeat, IdExchange, ParallelEnv, WorldPlan,
};
#[allow(unused_imports)]
use crate::parallel::{
    first_rank, is_barrier_plan, is_id_exchange, is_transpose, law_settled_world_fits, nccl_wanted,
    ranks_fit, stages_in, world_defined, world_of,
};
use crate::pipeline::{
    CacheConfig, GeneralMetadata, ModelInfo, NonGranularState, NormalPipeline, PipelineParts,
    QuantizePlan,
};
#[allow(unused_imports)]
use crate::pipeline::imatrix_file;
use crate::sizing::{checked_model_size, does_average, weight_pack_factor, UqffArtifact};
#[allow(unused_imports)]
use crate::sizing::{average_factor, averages, model_size};

verus! {

/// What a model is loaded with, besides what its loader holds. `P` is the paged-attention config.
pub struct LoadRequest<P> {
    /// The prompt chunk size where the user settles none.
    pub default_chunk: ChunkSize,
    pub device: Device,
    pub silent: bool,
    /// The layers are to be placed on the devices automatically.
    pub auto_mapping: bool,
    pub in_situ_quant: Option<IsqType>,
    pub paged_attn_config: Option<P>,
    /// The build has NCCL.
    pub nccl_built: bool,
    pub env: ParallelEnv,
}

/// The files of a model that are written again next to quantised weights.
pub struct ModelFiles {
    pub template_filename: Option<PathBuf>,
    pub generation_config: Option<PathBuf>,
}

/// What a load is waiting for.
#[derive(Clone, Copy, Debug, PartialEq, Eq, Structural)]
pub enum LoadPhase {
    ConfigWanted,
    DevicesWanted,
    DtypeWanted,
    ArtifactsWanted,
    PackFactorWanted,
    SizesWanted,
    PlacementWanted,
    MappersWanted,
    WorldWanted,
    RanksWanted,
    ModelsWanted,
    TokenizerWanted,
    CalibrationWanted,
    CalibrationRunning,
    QuantizationRunning,
    CacheWanted,
    Done,
}

impl LoadPhase {
    /// How far a load has come.
    pub open spec fn rank(self) -> int {
        match self {
            LoadPhase::ConfigWanted => 0,
            LoadPhase::DevicesWanted => 1,
            LoadPhase::DtypeWanted => 2,
            LoadPhase::ArtifactsWanted => 3,
            LoadPhase::PackFactorWanted => 3,
            LoadPhase::SizesWanted => 4,
            LoadPhase::PlacementWanted => 5,
            LoadPhase::MappersWanted => 6,
            LoadPhase::WorldWanted => 7,
            LoadPhase::RanksWanted => 8,
            LoadPhase::ModelsWanted => 9,
            LoadPhase::TokenizerWanted => 10,
            LoadPhase::CalibrationWanted => 11,
            LoadPhase::CalibrationRunning => 12,
            LoadPhase::QuantizationRunning => 13,
            LoadPhase::CacheWanted => 14,
            LoadPhase::Done => 15,
        }
    }
}

/// Which mapping of layers to devices is used.
#[derive(Debug)]
pub enum MappingChoice {
    /// The one that was asked for.
    Given,
    /// The one that the layers were just placed by.
    Placed,
    /// One that spreads every layer over all of `devices`.
    Nccl { devices: Vec<Device> },
}

/// How a model is built.
#[derive(Clone, Copy, Debug, PartialEq, Eq, Structural)]
pub struct ModelBuild {
    pub kind: ModelKind,
    pub use_flash_attn: bool,
    /// The weights are quantised as they are loaded.
    pub loading_isq: bool,
    /// Where the weights are loaded to.
    pub load_device: Device,
    /// How attention is computed, by a model without adapters.
    pub attention: AttentionImplementation,
    /// Some weights are stand-ins until the quantised ones are loaded, in a model without
    /// adapters.
    pub from_uqff: bool,
    /// Only the experts are quantised, in a model without adapters.
    pub moe_experts_only: bool,
}

/// One turn of a calibration: all models run over a chunk, and then empty their caches.
pub struct CalibrationTurn {
    pub tokens: Vec<u32>,
    /// Where in the sequence the chunk begins.
    pub offset: usize,
    /// How each rank's cache is emptied afterwards.
    pub resets: Vec<CacheReset>,
}

/// The chunks that the turns run over.
pub open spec fn turn_chunks(turns: Seq<CalibrationTurn>) -> Seq<Vec<u32>> {
    turns.map_values(|t: CalibrationTurn| t.tokens)
}

/// How the caches of the models are emptied, by rank.
pub open spec fn emptyings(models: Seq<ModelInfo>) -> Seq<CacheReset> {
    models.map_values(|m: ModelInfo| m.cache.emptying())
}

/// `turns` go over the tokens once and in order, a chunk that begins with `bos` at a time. Each
/// chunk begins a sequence of its own, and leaves every cache empty.
pub open spec fn is_calibration_run(
    bos: u32,
    tokens: Seq<u32>,
    models: Seq<ModelInfo>,
    turns: Seq<CalibrationTurn>,
) -> bool {
    &&& is_chunking(bos, tokens, turn_chunks(turns))
    &&& forall|i: int|
        0 <= i < turns.len() ==> (#[trigger] turns[i]).offset == 0 && turns[i].resets@
            == emptyings(models)
}

fn resets_of(models: &Vec<ModelInfo>) -> (r: Vec<CacheReset>)
    ensures
        r@ == emptyings(models@),
{
    let mut r: Vec<CacheReset> = Vec::new();
    let mut i: usize = 0;
    while i < models.len()
        invariant
            i <= models@.len(),
            r@ == emptyings(models@).take(i as int),
        decreases models.len() - i,
    {
        r.push(models[i].cache.reset());
        i = i + 1;
        proof {
            assert(emptyings(models@).take(i as int) =~= emptyings(models@).take(i - 1).push(
                emptyings(models@)[i - 1],
            ));
        }
    }
    proof {
        assert(emptyings(models@).take(i as int) =~= emptyings(models@));
    }
    r
}

/// Lays out the turns of a calibration of `models` over the text's tokens.
pub fn calibration_turns(bos: u32, tokens: &Vec<u32>, models: &Vec<ModelInfo>) -> (r: Vec<
    CalibrationTurn,
>)
    ensures
        is_calibration_run(bos, tokens@, models@, r@),
{
    let mut chunks: Vec<Vec<u32>> = calibration_chunks(bos, tokens);
    let ghost all = chunks@;
    let mut backwards: Vec<Vec<u32>> = Vec::new();
    while chunks.len() > 0
        invariant
            chunks@.len() + backwards@.len() == all.len(),
            chunks@ == all.take(chunks@.len() as int),
            forall|i: int|
                0 <= i < backwards@.len() ==> #[trigger] backwards@[i] == all[all.len() - 1 - i],
        decreases chunks.len(),
    {
        match chunks.pop() {
            Some(chunk) => {
                backwards.push(chunk);
            },
            None => {},
        }
        proof {
            assert(chunks@ =~= all.take(chunks@.len() as int));
        }
    }
    let mut turns: Vec<CalibrationTurn> = Vec::new();
    while backwards.len() > 0
        invariant
            turns@.len() + backwards@.len() == all.len(),
            forall|i: int|
                0 <= i < backwards@.len() ==> #[trigger] backwards@[i] == all[all.len() - 1 - i],
            forall|i: int|
                0 <= i < turns@.len() ==> (#[trigger] turns@[i]).tokens == all[i]
                    && turns@[i].offset == 0 && turns@[i].resets@ == emptyings(models@),
        decreases backwards.len(),
    {
        proof {
            assert(backwards@[backwards@.len() - 1] == all[turns@.len() as int]);
        }
        match backwards.pop() {
            Some(chunk) => {
                turns.push(
                    CalibrationTurn { tokens: chunk, offset: 0, resets: resets_of(models) },
                );
            },
            None => {},
        }
    }
    proof {
        assert(turn_chunks(turns@) =~= all);
    }
    turns
}

impl ModelBuild {
    /// Decides whether a rank takes its part of the shards. A model with adapters reads the files
    /// whole.
    pub fn takes_shards(&self) -> (r: bool)
        ensures
            r == !self.kind.adapted(),
    {
        !self.kind.is_adapted()
    }
}

/// The work that is next.
pub enum LoadAction<P> {
    /// Read the text of the model's config.
    ReadConfig,
    /// List the devices that are like the one asked for.
    ListDevices,
    /// Settle the element type on these devices.
    ResolveDtype,
    /// Read the serialised tensors in the file `path`.
    ReadArtifacts { path: PathBuf },
    /// Ask how many times smaller `isq` makes weights.
    AskPackFactor { isq: IsqType },
    /// Measure the layers, and what belongs to none, with weights that much smaller.
    MeasureModel { weight_pack_factor: usize },
    /// Place the layers on the devices.
    PlaceLayers {
        layer_sizes_in_bytes: Vec<usize>,
        non_mapped_size_in_bytes: usize,
        total_model_size_in_bytes: usize,
        prompt_chunksize: usize,
    },
    /// Build the mappers from layers to devices.
    BuildMappers { choice: MappingChoice },
    /// Make `ids` communicator ids, and share the first one among the nodes.
    JoinWorld { ids: usize, exchange: IdExchange },
    /// Make a barrier for each stage, and connect the ranks of each stage.
    ConnectRanks { seats: Vec<Vec<CommSeat>>, barrier: BarrierPlan },
    /// Load one model for each of `ranks`, which gives its seat in every stage.
    LoadShards {
        build: ModelBuild,
        ranks: Vec<Vec<CommSeat>>,
        /// The layers whose weights are stand-ins, if any.
        dummy_layers: Option<IsqOrganization>,
        /// The shards are moved to the rank's device as they are loaded.
        move_shards: bool,
    },
    /// Load the model.
    LoadModel { build: ModelBuild },
    /// Load the tokenizer, the generation config and the chat template.
    LoadTokenizer,
    /// Read the calibration text in the file `path`, and tokenise it.
    ReadCalibration { path: PathBuf },
    /// Take `turns` in order, with inputs on `device` and with statistics on the layers of
    /// `organization`.
    Calibrate { organization: IsqOrganization, device: Device, turns: Vec<CalibrationTurn> },
    /// Quantise the models.
    Quantize { plan: QuantizePlan },
    /// Load the quantised weights in the file `path` into the models, one after the other.
    LoadArtifacts { path: PathBuf, device: Device, topology: Option<Topology>, silent: bool },
    /// Work out the paged-attention cache, and make an engine on each of `engines`.
    BuildCache { config: P, engines: Vec<Device> },
    /// The model is loaded.
    Finish { pipeline: NormalPipeline },
}

/// What the work came to.
pub enum LoadEvent {
    ConfigRead { config: String },
    DevicesListed { devices: Vec<Device> },
    DtypeResolved,
    ArtifactsRead { artifacts: Vec<UqffArtifact> },
    PackFactorKnown { pack_factor: usize },
    Measured { layer_sizes_in_bytes: Vec<usize>, non_mapped_size_in_bytes: usize },
    Placed,
    /// The devices that the layers are on, and the element type that suits all of them.
    Mapped { unique_devices: Vec<Device>, dtype: DType },
    WorldJoined,
    RanksConnected,
    /// The models, by rank.
    ModelsLoaded { models: Vec<ModelInfo> },
    TokenizerLoaded { chat_template: ChatTemplate, eos_tok: Vec<u32> },
    /// The calibration text, and the token that each chunk of it begins with.
    CalibrationRead { bos: u32, tokens: Vec<u32> },
    Calibrated,
    Quantized,
    CacheBuilt { cache_config: CacheConfig },
}

/// `r` is what reading the calibration text may come to: an event with what the tokenizer makes of
/// the text and the token that it begins with, nothing where there is no such token, or a failure
/// to tokenise.
pub open spec fn is_calibration(
    tokenizer: Tokenizer,
    chat_template: ChatTemplate,
    text: Seq<char>,
    r: Result<Option<LoadEvent>, LoadError>,
) -> bool {
    match r {
        Ok(Some(event)) => {
            &&& event matches LoadEvent::CalibrationRead { bos, tokens }
            &&& leading_token(tokenizer, chat_template) == Some(bos)
            &&& encodings(tokenizer, text).contains(Ok(tokens@))
        },
        Ok(None) => leading_token(tokenizer, chat_template) is None && exists|tokens: Seq<u32>|
            #[trigger] encodings(tokenizer, text).contains(Ok(tokens)),
        Err(e) => is_tokenising(tokenizer, text, Err(e)),
    }
}

impl LoadEvent {
    /// Tokenises the calibration text, and finds the token that each chunk of it begins with.
    pub fn read_calibration(tokenizer: &Tokenizer, chat_template: &ChatTemplate, text: &str) -> (r:
        Result<Option<LoadEvent>, LoadError>)
        requires
            is_plain(*tokenizer) || returns_on(*tokenizer, text@),
        ensures
            is_calibration(*tokenizer, *chat_template, text@, r),
            returns_on(*tokenizer, text@),
    {
        match calibration_tokens(tokenizer, text) {
            Ok(tokens) => match bos_token_id(tokenizer, chat_template) {
                Some(bos) => Ok(Some(LoadEvent::CalibrationRead { bos, tokens })),
                None => Ok(None),
            },
            Err(e) => Err(e),
        }
    }

    /// Does the same with a tokenizer of which it is plain that it comes back from every text.
    pub fn try_read_calibration(
        tokenizer: &Tokenizer,
        chat_template: &ChatTemplate,
        text: &str,
    ) -> (r: Option<Result<Option<LoadEvent>, LoadError>>)
        ensures
            r is Some <==> is_plain(*tokenizer),
            r matches Some(outcome) ==> is_calibration(*tokenizer, *chat_template, text@, outcome),
    {
        if is_plain_tokenizer(tokenizer) {
            Some(LoadEvent::read_calibration(tokenizer, chat_template, text))
        } else {
            None
        }
    }
}

/// How far a load has come, and what is known by then.
pub struct LoadState<P> {
    pub phase: LoadPhase,
    /// What was asked for; the paged-attention config is given up once it cannot be used.
    pub request: LoadRequest<P>,
    pub files: ModelFiles,
    pub config: Option<String>,
    pub devices: Vec<Device>,
    pub use_nccl: bool,
    pub dtype: Option<DType>,
    pub loading_isq: bool,
    pub load_device: Device,
    pub world: Option<WorldPlan>,
    /// The seats of every stage.
    pub seats: Vec<Vec<CommSeat>>,
    pub models: Vec<ModelInfo>,
    pub chat_template: Option<ChatTemplate>,
    pub eos_tok: Vec<u32>,
}

/// The devices of the models, by rank.
pub open spec fn model_devices(models: Seq<ModelInfo>) -> Seq<Device> {
    models.map_values(|m: ModelInfo| m.device)
}

/// Where the importance matrix comes from, if anywhere.
pub open spec fn imatrix_source<O>(loader: LoaderView<O>) -> Option<ImatrixDataSource> {
    if loader.config.calibration_file is Some {
        Some(ImatrixDataSource::Collected)
    } else {
        imatrix_file(loader.config.imatrix)
    }
}

/// What comes of a step: the next state and the work to do, or a refusal.
pub type LoadStep<P> = Result<(LoadState<P>, LoadAction<P>), LoadError>;

impl<P> LoadRequest<P> {
    /// The request without a paged-attention config.
    pub open spec fn unpaged(self) -> LoadRequest<P> {
        LoadRequest { paged_attn_config: None, ..self }
    }
}

impl<P> LoadState<P> {
    /// Number of models that are loaded.
    pub open spec fn model_count(self) -> int {
        if self.use_nccl {
            self.world->0.local_world_size as int
        } else {
            1
        }
    }

    /// How the models are built.
    pub open spec fn build_of<O>(self, loader: LoaderView<O>) -> ModelBuild {
        ModelBuild {
            kind: loader.kind,
            use_flash_attn: loader.config.use_flash_attn,
            loading_isq: self.loading_isq,
            load_device: self.load_device,
            attention: if self.request.paged_attn_config is Some {
                AttentionImplementation::PagedAttention
            } else {
                AttentionImplementation::Eager
            },
            from_uqff: loader.config.from_uqff is Some,
            moe_experts_only: loader.config.organization is MoeExpertsOnly,
        }
    }

    /// Weights are quantised as they are loaded, which a calibration run rules out.
    pub open spec fn quantises_on_load<O>(self, loader: LoaderView<O>) -> bool {
        loader.config.quantises(self.request.in_situ_quant)
            && loader.config.calibration_file is None
    }

    /// The state once the mappers are built: paging is given up where a layer is on the CPU, and
    /// the weights go to the CPU only to be quantised there.
    pub open spec fn mapped<O>(
        self,
        loader: LoaderView<O>,
        unique_devices: Seq<Device>,
        dtype: DType,
    ) -> LoadState<P> {
        let loading_isq = self.quantises_on_load(loader);
        LoadState {
            request: if any_cpu(unique_devices) {
                self.request.unpaged()
            } else {
                self.request
            },
            dtype: Some(dtype),
            loading_isq,
            load_device: if loading_isq {
                Device::Cpu
            } else {
                self.request.device
            },
            ..self
        }
    }

    /// What holds of a load of `loader`'s model at every step.
    pub open spec fn wf<O>(self, loader: LoaderView<O>) -> bool {
        let n = self.phase.rank();
        n < 15 ==> {
            &&& n >= 1 ==> self.config is Some
            &&& n >= 2 ==> self.use_nccl == nccl_wanted(
                self.devices@,
                self.request.env,
                self.request.nccl_built,
            )
            &&& 2 <= n <= 5 ==> !self.use_nccl && self.request.auto_mapping
            &&& n >= 7 ==> {
                &&& self.dtype is Some
                &&& !loader.config.contradicts()
                &&& self.loading_isq == self.quantises_on_load(loader)
                &&& self.load_device == (if self.loading_isq {
                    Device::Cpu
                } else {
                    self.request.device
                })
                &&& self.use_nccl ==> self.world is Some && self.world->0.fits(self.devices@.len())
                    && self.world->0.local_world_size > 0 && world_of(
                    self.devices@.len(),
                    self.request.env,
                ) == Ok::<WorldPlan, LoadError>(self.world->0)
            }
            &&& 7 <= n <= 8 ==> self.use_nccl
            &&& n == 8 ==> self.devices@.len() % self.world->0.stages as nat == 0 && first_rank(
                self.world->0,
                self.request.env,
            ) is Ok && ranks_fit(self.world->0, self.request.env) && are_seats(
                self.devices@,
                self.world->0,
                first_rank(self.world->0, self.request.env)->Ok_0,
                self.seats@,
            )
            &&& n >= 10 ==> self.models@.len() > 0 && self.models@.len() == self.model_count()
            &&& n >= 11 ==> self.chat_template is Some
            &&& 11 <= n <= 12 ==> loader.config.calibration_file is Some
            &&& n == 14 ==> !loader.kind.adapted() && self.request.paged_attn_config is None
        }
    }

    /// The event answers what the load is waiting for, and the numbers in it can be worked with.
    pub open spec fn accepts<O>(self, loader: LoaderView<O>, event: LoadEvent) -> bool {
        match (self.phase, event) {
            (LoadPhase::ConfigWanted, LoadEvent::ConfigRead { .. }) => true,
            (LoadPhase::DevicesWanted, LoadEvent::DevicesListed { .. }) => true,
            (LoadPhase::DtypeWanted, LoadEvent::DtypeResolved) => true,
            (LoadPhase::ArtifactsWanted, LoadEvent::ArtifactsRead { artifacts }) => averages(
                artifacts@,
            ),
            (LoadPhase::PackFactorWanted, LoadEvent::PackFactorKnown { .. }) => true,
            (
                LoadPhase::SizesWanted,
                LoadEvent::Measured { layer_sizes_in_bytes, non_mapped_size_in_bytes },
            ) => model_size(layer_sizes_in_bytes@, non_mapped_size_in_bytes) <= usize::MAX,
            (LoadPhase::PlacementWanted, LoadEvent::Placed) => true,
            (LoadPhase::MappersWanted, LoadEvent::Mapped { .. }) => loader.config.contradicts()
                || !self.use_nccl || world_defined(self.devices@.len(), self.request.env),
            (LoadPhase::WorldWanted, LoadEvent::WorldJoined) => self.devices@.len()
                % self.world->0.stages as nat != 0 || ranks_fit(self.world->0, self.request.env),
            (LoadPhase::RanksWanted, LoadEvent::RanksConnected) => true,
            (LoadPhase::ModelsWanted, LoadEvent::ModelsLoaded { models }) => models@.len()
                == self.model_count(),
            (LoadPhase::TokenizerWanted, LoadEvent::TokenizerLoaded { .. }) => true,
            (LoadPhase::CalibrationWanted, LoadEvent::CalibrationRead { .. }) => true,
            (LoadPhase::CalibrationRunning, LoadEvent::Calibrated) => true,
            (LoadPhase::QuantizationRunning, LoadEvent::Quantized) => true,
            (LoadPhase::CacheWanted, LoadEvent::CacheBuilt { .. }) => true,
            _ => false,
        }
    }

    /// `p` is the pipeline that the load ends with.
    pub open spec fn is_pipeline<O>(
        self,
        loader: LoaderView<O>,
        cache_config: Option<CacheConfig>,
        p: PipelineParts,
    ) -> bool {
        &&& p.parallel_models@ == self.models@
        &&& p.no_kv_cache == loader.no_kv_cache
        &&& Some(p.chat_template) == self.chat_template
        &&& p.non_granular_state == match loader.tgt_non_granular_index {
            Some(tgt_non_granular_index) => Some(
                NonGranularState { non_granular_index: 0, tgt_non_granular_index },
            ),
            None => None,
        }
        &&& p.model_id@ == loader.model_id
        &&& topology_layers(p.topology) == topology_layers(loader.config.topology)
        &&& p.silent == self.request.silent
        &&& p.organization == loader.config.organization
        &&& p.template_filename == self.files.template_filename
        &&& p.generation_config == self.files.generation_config
        &&& Some(p.config) == self.config
        &&& p.imatrix == loader.config.imatrix
        &&& p.metadata.max_seq_len == self.models@[0].max_seq_len
        &&& p.metadata.no_kv_cache == loader.no_kv_cache
        &&& p.metadata.no_prefix_cache == loader.kind.xlora()
        &&& p.metadata.num_hidden_layers == self.models@[0].cache_layers
        &&& p.metadata.eos_tok@ == self.eos_tok@
        &&& p.metadata.kind == loader.kind
        &&& p.metadata.is_xlora == loader.kind.xlora()
        &&& Some(p.metadata.activation_dtype) == self.dtype
        &&& p.metadata.sliding_window == self.models@[0].sliding_window
        &&& p.metadata.cache_config == cache_config
        &&& match cache_config {
            Some(_) => p.metadata.cache_engines matches Some(engines) && engines@ == model_devices(
                self.models@,
            ),
            None => p.metadata.cache_engines is None,
        }
        &&& p.metadata.prompt_chunksize == Some(
            loader.config.chunk_size(self.request.default_chunk),
        )
    }

    /// What is left once the weights are final: a paged-attention cache, where one is asked for
    /// and no adapter stands in its way.
    pub open spec fn settles_cache<O>(self, loader: LoaderView<O>, out: LoadStep<P>) -> bool {
        if self.request.paged_attn_config is Some && !loader.kind.adapted() {
            &&& out matches Ok((post, LoadAction::BuildCache { config, engines }))
            &&& post == (LoadState {
                phase: LoadPhase::CacheWanted,
                request: self.request.unpaged(),
                ..self
            })
            &&& Some(config) == self.request.paged_attn_config
            &&& engines@ == model_devices(self.models@)
        } else {
            &&& out matches Ok((post, LoadAction::Finish { pipeline }))
            &&& post.phase is Done
            &&& self.is_pipeline(loader, None, pipeline@)
        }
    }

    /// What is left once the models have run: quantisation, or the weights that are quantised
    /// already.
    pub open spec fn settles_weights<O>(self, loader: LoaderView<O>, out: LoadStep<P>) -> bool {
        if loader.config.quantises_after_loading(self.request.in_situ_quant) {
            &&& out matches Ok((post, LoadAction::Quantize { plan }))
            &&& post == (LoadState { phase: LoadPhase::QuantizationRunning, ..self })
            &&& plan.isq == self.request.in_situ_quant
            &&& plan.devices@ == model_devices(self.models@)
            &&& topology_layers(plan.topology) == topology_layers(loader.config.topology)
            &&& plan.silent == self.request.silent
            &&& plan.imatrix == imatrix_source(loader)
            &&& plan.organization == loader.config.organization
            &&& plan.write_uqff == loader.config.write_uqff
        } else if let Some(uqff) = loader.from_uqff {
            &&& out matches Ok(
                (post, LoadAction::LoadArtifacts { path, device, topology, silent }),
            )
            &&& post == (LoadState { phase: LoadPhase::QuantizationRunning, ..self })
            &&& path == uqff
            &&& device == self.request.device
            &&& topology_layers(topology) == topology_layers(loader.config.topology)
            &&& silent == self.request.silent
        } else {
            self.settles_cache(loader, out)
        }
    }

    /// What follows the list of devices: NCCL spreads the layers by itself; otherwise they are
    /// placed where that is asked for.
    pub open spec fn settles_mapping(self, out: LoadStep<P>) -> bool {
        if self.use_nccl {
            &&& out matches Ok((post, LoadAction::BuildMappers { choice: MappingChoice::Nccl { devices } }))
            &&& post == (LoadState { phase: LoadPhase::MappersWanted, ..self })
            &&& devices@ == self.devices@
        } else if self.request.auto_mapping {
            &&& out matches Ok((post, LoadAction::ResolveDtype))
            &&& post == (LoadState { phase: LoadPhase::DtypeWanted, ..self })
        } else {
            &&& out matches Ok((post, LoadAction::BuildMappers { choice: MappingChoice::Given }))
            &&& post == (LoadState { phase: LoadPhase::MappersWanted, ..self })
        }
    }

    /// How much smaller the weights are than usual: as the serialised tensors say where there are
    /// some, else as the quantisation says, else not at all.
    pub open spec fn settles_pack_factor<O>(self, loader: LoaderView<O>, out: LoadStep<P>) -> bool {
        if let Some(uqff) = loader.from_uqff {
            &&& out matches Ok((post, LoadAction::ReadArtifacts { path }))
            &&& post == (LoadState { phase: LoadPhase::ArtifactsWanted, ..self })
            &&& path == uqff
        } else if let Some(wanted) = self.request.in_situ_quant {
            &&& out matches Ok((post, LoadAction::AskPackFactor { isq }))
            &&& post == (LoadState { phase: LoadPhase::PackFactorWanted, ..self })
            &&& isq == wanted
        } else {
            self.measures(1, out)
        }
    }

    /// The layers are measured with weights `pack_factor` times smaller.
    pub open spec fn measures(self, pack_factor: nat, out: LoadStep<P>) -> bool {
        &&& out matches Ok((post, LoadAction::MeasureModel { weight_pack_factor }))
        &&& post == (LoadState { phase: LoadPhase::SizesWanted, ..self })
        &&& weight_pack_factor == pack_factor
    }

    /// The layers are placed by their sizes.
    pub open spec fn places<O>(
        self,
        loader: LoaderView<O>,
        layer_sizes: Vec<usize>,
        non_mapped: usize,
        out: LoadStep<P>,
    ) -> bool {
        &&& out matches Ok(
            (
                post,
                LoadAction::PlaceLayers {
                    layer_sizes_in_bytes,
                    non_mapped_size_in_bytes,
                    total_model_size_in_bytes,
                    prompt_chunksize,
                },
            ),
        )
        &&& post == (LoadState { phase: LoadPhase::PlacementWanted, ..self })
        &&& layer_sizes_in_bytes == layer_sizes
        &&& non_mapped_size_in_bytes == non_mapped
        &&& total_model_size_in_bytes == model_size(layer_sizes@, non_mapped)
        &&& prompt_chunksize == loader.config.chunk_size(self.request.default_chunk)@
    }

    /// What follows the mappers, in the state that they leave: the world of an NCCL load, or the
    /// model.
    pub open spec fn settles_world<O>(self, loader: LoaderView<O>, out: LoadStep<P>) -> bool {
        if self.use_nccl {
            match world_of(self.devices@.len(), self.request.env) {
                Err(e) => out == Err::<(LoadState<P>, LoadAction<P>), LoadError>(e),
                Ok(world) => match out {
                    Err(e) => is_id_exchange(world, self.request.env, Err(e)),
                    Ok((post, action)) => {
                        &&& action matches LoadAction::JoinWorld { ids, exchange }
                        &&& ids == world.stages
                        &&& is_id_exchange(world, self.request.env, Ok(exchange))
                        &&& post == (LoadState {
                            phase: LoadPhase::WorldWanted,
                            world: Some(world),
                            ..self
                        })
                    },
                },
            }
        } else {
            &&& out matches Ok((post, LoadAction::LoadModel { build }))
            &&& post == (LoadState { phase: LoadPhase::ModelsWanted, ..self })
            &&& build == self.build_of(loader)
        }
    }

    /// What follows the shared ids: the devices take their seats.
    pub open spec fn settles_seats(self, out: LoadStep<P>) -> bool {
        let world = self.world->0;
        let env = self.request.env;
        if self.devices@.len() % world.stages as nat != 0 {
            out == Err::<(LoadState<P>, LoadAction<P>), LoadError>(
                LoadError::UnevenStages {
                    stages: world.stages,
                    devices: self.devices@.len() as usize,
                },
            )
        } else {
            match first_rank(world, env) {
                Err(e) => out == Err::<(LoadState<P>, LoadAction<P>), LoadError>(e),
                Ok(first) => match out {
                    Err(e) => is_barrier_plan(world, env, Err(e)),
                    Ok((post, action)) => {
                        &&& action matches LoadAction::ConnectRanks { seats, barrier }
                        &&& is_barrier_plan(world, env, Ok(barrier))
                        &&& are_seats(self.devices@, world, first, seats@)
                        &&& post.seats@.len() == seats@.len()
                        &&& forall|s: int|
                            0 <= s < seats@.len() ==> (#[trigger] post.seats@[s])@ == seats@[s]@
                        &&& post == (LoadState {
                            phase: LoadPhase::RanksWanted,
                            seats: post.seats,
                            ..self
                        })
                    },
                },
            }
        }
    }

    /// What follows the connections: the shards of every rank.
    pub open spec fn settles_shards<O>(self, loader: LoaderView<O>, out: LoadStep<P>) -> bool {
        &&& out matches Ok(
            (post, LoadAction::LoadShards { build, ranks, dummy_layers, move_shards }),
        )
        &&& post == (LoadState { phase: LoadPhase::ModelsWanted, ..self })
        &&& build == self.build_of(loader)
        &&& is_transpose(self.seats@, self.world->0.local_world_size as nat, ranks@)
        &&& dummy_layers == (if self.loading_isq && loader.config.from_uqff is Some {
            Some(loader.config.organization)
        } else {
            None
        })
        &&& move_shards == !self.loading_isq
    }

    /// `out` is what comes of an event.
    pub open spec fn steps<O>(self, loader: LoaderView<O>, event: LoadEvent, out: LoadStep<P>) -> bool {
        match event {
            LoadEvent::ConfigRead { config } => {
                &&& out matches Ok((post, LoadAction::ListDevices))
                &&& post == (LoadState {
                    phase: LoadPhase::DevicesWanted,
                    config: Some(config),
                    ..self
                })
            },
            LoadEvent::DevicesListed { devices } => (LoadState {
                devices,
                use_nccl: nccl_wanted(devices@, self.request.env, self.request.nccl_built),
                ..self
            }).settles_mapping(out),
            LoadEvent::DtypeResolved => self.settles_pack_factor(loader, out),
            LoadEvent::ArtifactsRead { artifacts } => self.measures(
                average_factor(artifacts@),
                out,
            ),
            LoadEvent::PackFactorKnown { pack_factor } => self.measures(pack_factor as nat, out),
            LoadEvent::Measured { layer_sizes_in_bytes, non_mapped_size_in_bytes } => self.places(
                loader,
                layer_sizes_in_bytes,
                non_mapped_size_in_bytes,
                out,
            ),
            LoadEvent::Placed => {
                &&& out matches Ok(
                    (post, LoadAction::BuildMappers { choice: MappingChoice::Placed }),
                )
                &&& post == (LoadState { phase: LoadPhase::MappersWanted, ..self })
            },
            LoadEvent::Mapped { unique_devices, dtype } => if loader.config.contradicts() {
                out == Err::<(LoadState<P>, LoadAction<P>), LoadError>(
                    LoadError::ImatrixAndCalibration,
                )
            } else {
                self.mapped(loader, unique_devices@, dtype).settles_world(loader, out)
            },
            LoadEvent::WorldJoined => self.settles_seats(out),
            LoadEvent::RanksConnected => self.settles_shards(loader, out),
            LoadEvent::ModelsLoaded { models } => {
                &&& out matches Ok((post, LoadAction::LoadTokenizer))
                &&& post == (LoadState { phase: LoadPhase::TokenizerWanted, models, ..self })
            },
            LoadEvent::TokenizerLoaded { chat_template, eos_tok } => {
                let with = LoadState { chat_template: Some(chat_template), eos_tok, ..self };
                if let Some(file) = loader.config.calibration_file {
                    &&& out matches Ok((post, LoadAction::ReadCalibration { path }))
                    &&& post == (LoadState { phase: LoadPhase::CalibrationWanted, ..with })
                    &&& path == file
                } else {
                    with.settles_weights(loader, out)
                }
            },
            LoadEvent::CalibrationRead { bos, tokens } => {
                &&& out matches Ok((post, LoadAction::Calibrate { organization, device, turns }))
                &&& post == (LoadState { phase: LoadPhase::CalibrationRunning, ..self })
                &&& organization == loader.config.organization
                &&& device == self.load_device
                &&& is_calibration_run(bos, tokens@, self.models@, turns@)
            },
            LoadEvent::Calibrated => self.settles_weights(loader, out),
            LoadEvent::Quantized => self.settles_cache(loader, out),
            LoadEvent::CacheBuilt { cache_config } => {
                &&& out matches Ok((post, LoadAction::Finish { pipeline }))
                &&& post.phase is Done
                &&& self.is_pipeline(loader, Some(cache_config), pipeline@)
            },
        }
    }
}

/// `seats` deals the devices out to the stages of the world in order, and seats those of each
/// stage from rank `first` on.
pub open spec fn are_seats(
    devices: Seq<Device>,
    world: WorldPlan,
    first: int,
    seats: Seq<Vec<CommSeat>>,
) -> bool {
    &&& seats.len() == world.stages
    &&& forall|s: int|
        0 <= s < seats.len() ==> (#[trigger] seats[s])@.len() == world.local_world_size
    &&& forall|s: int, r: int|
        #![trigger seats[s]@[r]]
        0 <= s < seats.len() && 0 <= r < seats[s]@.len() ==> seats[s]@[r] == (CommSeat {
            stage: s as usize,
            device: devices[s * world.local_world_size + r],
            rank: (first + r) as usize,
            world_size: world.global_world_size,
        })
}

fn copy_seats(seats: &Vec<Vec<CommSeat>>) -> (r: Vec<Vec<CommSeat>>)
    ensures
        r@.len() == seats@.len(),
        forall|s: int| 0 <= s < seats@.len() ==> (#[trigger] r@[s])@ == seats@[s]@,
{
    let mut r: Vec<Vec<CommSeat>> = Vec::new();
    let mut s: usize = 0;
    while s < seats.len()
        invariant
            s <= seats@.len(),
            r@.len() == s,
            forall|k: int| 0 <= k < s ==> (#[trigger] r@[k])@ == seats@[k]@,
        decreases seats.len() - s,
    {
        let from: &Vec<CommSeat> = &seats[s];
        let mut row: Vec<CommSeat> = Vec::new();
        let mut i: usize = 0;
        while i < from.len()
            invariant
                i <= from@.len(),
                row@ == from@.take(i as int),
            decreases from.len() - i,
        {
            row.push(from[i]);
            i = i + 1;
            proof {
                assert(from@.take(i as int) =~= from@.take(i - 1).push(from@[i - 1]));
            }
        }
        proof {
            assert(from@.take(i as int) =~= from@);
        }
        r.push(row);
        s = s + 1;
    }
    r
}

fn devices_of(models: &Vec<ModelInfo>) -> (r: Vec<Device>)
    ensures
        r@ == model_devices(models@),
{
    let mut r: Vec<Device> = Vec::new();
    let mut i: usize = 0;
    while i < models.len()
        invariant
            i <= models@.len(),
            r@ == model_devices(models@).take(i as int),
        decreases models.len() - i,
    {
        r.push(models[i].device);
        i = i + 1;
        proof {
            assert(model_devices(models@).take(i as int) =~= model_devices(models@).take(
                i - 1,
            ).push(model_devices(models@)[i - 1]));
        }
    }
    proof {
        assert(model_devices(models@).take(i as int) =~= model_devices(models@));
    }
    r
}

/// A load that is under way, and the loader that it goes by.
pub struct Load<'a, P, O> {
    loader: &'a NormalLoader<O>,
    state: LoadState<P>,
}

impl<'a, P, O> View for Load<'a, P, O> {
    type V = LoadState<P>;

    closed spec fn view(&self) -> LoadState<P> {
        self.state
    }
}

/// What comes of a step of a load, and the work to do.
pub type LoadTurn<'a, P, O> = Result<(Load<'a, P, O>, LoadAction<P>), LoadError>;

/// The state that a step leaves, and the work to do.
pub open spec fn turn_view<'a, P, O>(turn: LoadTurn<'a, P, O>) -> LoadStep<P> {
    match turn {
        Ok((load, action)) => Ok((load@, action)),
        Err(e) => Err(e),
    }
}

impl<P> LoadState<P> {
    /// Nothing is known yet but what was asked for.
    pub open spec fn is_first(self, files: ModelFiles, request: LoadRequest<P>) -> bool {
        &&& self.phase is ConfigWanted
        &&& self.request == request
        &&& self.files == files
        &&& self.config is None
        &&& self.devices@.len() == 0
        &&& !self.use_nccl
        &&& self.dtype is None
        &&& !self.loading_isq
        &&& self.load_device == request.device
        &&& self.world is None
        &&& self.seats@.len() == 0
        &&& self.models@.len() == 0
        &&& self.chat_template is None
        &&& self.eos_tok@.len() == 0
    }
}

impl<O> NormalLoader<O> {
    /// Records a load from the hub, and begins to load the model from the files that were found.
    ///
    /// `files` is the outcome of looking up the model's files, and `uqff` that of fetching the
    /// quantised weights, where the config asks for some. Weights that cannot be fetched stop the
    /// load before anything is recorded; files that cannot be looked up stop it afterwards.
    pub fn load_model_from_hf<'a, P, E>(
        &'a mut self,
        revision: Option<String>,
        token_source: TokenSource,
        files: Result<ModelFiles, E>,
        uqff: Option<Result<PathBuf, E>>,
        request: LoadRequest<P>,
    ) -> (r: Result<(Load<'a, P, O>, LoadAction<P>), E>)
        requires
            uqff is Some <==> old(self)@.config.from_uqff is Some,
        ensures
            match uqff {
                Some(Err(e)) => final(self)@ == old(self)@ && r == Err::<
                    (Load<'a, P, O>, LoadAction<P>),
                    E,
                >(e),
                _ => {
                    &&& final(self)@ == old(self)@.recorded(
                        revision,
                        token_source,
                        match uqff {
                            Some(Ok(path)) => Some(path),
                            _ => None,
                        },
                    )
                    &&& match files {
                        Err(e) => r == Err::<(Load<'a, P, O>, LoadAction<P>), E>(e),
                        Ok(files) => r matches Ok((load, action)) && load.begins(
                            final(self)@,
                            files,
                            request,
                        ) && action is ReadConfig,
                    }
                },
            },
    {
        match self.record_hub_load(revision, token_source, uqff) {
            Ok(_) => {},
            Err(e) => {
                return Err(e);
            },
        }
        match files {
            Ok(files) => Ok(self.load_model_from_path(files, request)),
            Err(e) => Err(e),
        }
    }

    /// Begins to load the model.
    pub fn load_model_from_path<'a, P>(
        &'a self,
        files: ModelFiles,
        request: LoadRequest<P>,
    ) -> (r: (Load<'a, P, O>, LoadAction<P>))
        ensures
            r.0.begins(self@, files, request),
            r.1 is ReadConfig,
    {
        let load_device: Device = request.device;
        let state = LoadState {
            phase: LoadPhase::ConfigWanted,
            request,
            files,
            config: None,
            devices: Vec::new(),
            use_nccl: false,
            dtype: None,
            loading_isq: false,
            load_device,
            world: None,
            seats: Vec::new(),
            models: Vec::new(),
            chat_template: None,
            eos_tok: Vec::new(),
        };
        (Load { loader: self, state }, LoadAction::ReadConfig)
    }
}

impl<'a, P, O> Load<'a, P, O> {
    #[verifier::type_invariant]
    spec fn inv(self) -> bool {
        self.state.wf(self.loader@)
    }

    /// What the loader holds that the load goes by.
    pub closed spec fn loader_view(self) -> LoaderView<O> {
        self.loader@
    }

    /// The load is at its beginning.
    pub open spec fn begins(
        self,
        loader: LoaderView<O>,
        files: ModelFiles,
        request: LoadRequest<P>,
    ) -> bool {
        &&& self.loader_view() == loader
        &&& self@.is_first(files, request)
        &&& self@.wf(loader)
    }

    /// The loader that the load goes by.
    pub fn loader(&self) -> (r: &'a NormalLoader<O>)
        ensures
            r@ == self.loader_view(),
    {
        self.loader
    }

    /// How far the load has come, and what is known by then.
    pub fn state(&self) -> (r: &LoadState<P>)
        ensures
            *r == self@,
            r.wf(self.loader_view()),
    {
        proof {
            use_type_invariant(self);
        }
        &self.state
    }

    /// Tests whether an event can be taken.
    pub fn is_acceptable(&self, event: &LoadEvent) -> (r: bool)
        ensures
            r == self@.accepts(self.loader_view(), *event),
    {
        proof {
            use_type_invariant(self);
        }
        self.state.is_acceptable(self.loader, event)
    }

    /// Takes an event, and settles what is next.
    pub fn step(self, event: LoadEvent) -> (r: LoadTurn<'a, P, O>)
        requires
            self@.accepts(self.loader_view(), event),
        ensures
            self@.steps(self.loader_view(), event, turn_view(r)),
            r matches Ok((next, _)) ==> next.loader_view() == self.loader_view() && next@.wf(self.loader_view()),
    {
        proof {
            use_type_invariant(&self);
        }
        let loader = self.loader;
        match self.state.step(loader, event) {
            Ok((state, action)) => Ok((Load { loader, state }, action)),
            Err(e) => Err(e),
        }
    }
}

impl<P> LoadState<P> {
    fn count_models(&self) -> (r: usize)
        requires
            self.use_nccl ==> self.world is Some,
        ensures
            r == self.model_count(),
    {
        if self.use_nccl {
            match self.world {
                Some(world) => world.local_world_size,
                None => 1,
            }
        } else {
            1
        }
    }

    fn is_acceptable<O>(&self, loader: &NormalLoader<O>, event: &LoadEvent) -> (r: bool)
        requires
            self.wf(loader@),
        ensures
            r == self.accepts(loader@, *event),
    {
        match (self.phase, event) {
            (LoadPhase::ConfigWanted, LoadEvent::ConfigRead { .. }) => true,
            (LoadPhase::DevicesWanted, LoadEvent::DevicesListed { .. }) => true,
            (LoadPhase::DtypeWanted, LoadEvent::DtypeResolved) => true,
            (LoadPhase::ArtifactsWanted, LoadEvent::ArtifactsRead { artifacts }) => does_average(
                artifacts,
            ),
            (LoadPhase::PackFactorWanted, LoadEvent::PackFactorKnown { .. }) => true,
            (
                LoadPhase::SizesWanted,
                LoadEvent::Measured { layer_sizes_in_bytes, non_mapped_size_in_bytes },
            ) => checked_model_size(layer_sizes_in_bytes, *non_mapped_size_in_bytes).is_some(),
            (LoadPhase::PlacementWanted, LoadEvent::Placed) => true,
            (LoadPhase::MappersWanted, LoadEvent::Mapped { .. }) => {
                loader.config().is_contradictory() || !self.use_nccl || is_world_defined(
                    self.devices.len(),
                    &self.request.env,
                )
            },
            (LoadPhase::WorldWanted, LoadEvent::WorldJoined) => match &self.world {
                Some(world) => self.devices.len() % world.stages != 0 || do_ranks_fit(
                    world,
                    &self.request.env,
                ),
                None => false,
            },
            (LoadPhase::RanksWanted, LoadEvent::RanksConnected) => true,
            (LoadPhase::ModelsWanted, LoadEvent::ModelsLoaded { models }) => models.len()
                == self.count_models(),
            (LoadPhase::TokenizerWanted, LoadEvent::TokenizerLoaded { .. }) => true,
            (LoadPhase::CalibrationWanted, LoadEvent::CalibrationRead { .. }) => true,
            (LoadPhase::CalibrationRunning, LoadEvent::Calibrated) => true,
            (LoadPhase::QuantizationRunning, LoadEvent::Quantized) => true,
            (LoadPhase::CacheWanted, LoadEvent::CacheBuilt { .. }) => true,
            _ => false,
        }
    }

    fn build<O>(&self, loader: &NormalLoader<O>) -> (r: ModelBuild)
        ensures
            r == self.build_of(loader@),
    {
        let config = loader.config();
        let attention = if self.request.paged_attn_config.is_some() {
            AttentionImplementation::PagedAttention
        } else {
            AttentionImplementation::Eager
        };
        ModelBuild {
            kind: loader.get_kind(),
            use_flash_attn: config.use_flash_attn,
            loading_isq: self.loading_isq,
            load_device: self.load_device,
            attention,
            from_uqff: config.from_uqff.is_some(),
            moe_experts_only: matches!(config.organization, IsqOrganization::MoeExpertsOnly),
        }
    }

    fn at(self, phase: LoadPhase) -> (r: LoadState<P>)
        ensures
            r == (LoadState { phase, ..self }),
    {
        let mut r = self;
        r.phase = phase;
        r
    }

    fn finish<O>(self, loader: &NormalLoader<O>, cache_config: Option<CacheConfig>) -> (r: LoadStep<P>)
        requires
            self.models@.len() > 0,
            self.chat_template is Some,
            self.config is Some,
            self.dtype is Some,
        ensures
            r matches Ok((post, LoadAction::Finish { pipeline })) && post.phase is Done
                && self.is_pipeline(loader@, cache_config, pipeline@),
    {
        let mut state = self;
        let config = loader.config();
        let kind: ModelKind = loader.get_kind();
        let first: ModelInfo = state.models[0];
        let cache_engines: Option<Vec<Device>> = match cache_config {
            Some(_) => Some(devices_of(&state.models)),
            None => None,
        };
        let mut models: Vec<ModelInfo> = Vec::new();
        std::mem::swap(&mut models, &mut state.models);
        let mut eos_tok: Vec<u32> = Vec::new();
        std::mem::swap(&mut eos_tok, &mut state.eos_tok);
        let mut chat_template: Option<ChatTemplate> = None;
        std::mem::swap(&mut chat_template, &mut state.chat_template);
        let mut text: Option<String> = None;
        std::mem::swap(&mut text, &mut state.config);
        let non_granular_state: Option<NonGranularState> = match loader.tgt_non_granular_index() {
            Some(tgt_non_granular_index) => Some(
                NonGranularState { non_granular_index: 0, tgt_non_granular_index },
            ),
            None => None,
        };
        let metadata = GeneralMetadata {
            max_seq_len: first.max_seq_len,
            no_kv_cache: loader.no_kv_cache(),
            no_prefix_cache: kind.is_xlora(),
            num_hidden_layers: first.cache_layers,
            eos_tok,
            kind,
            is_xlora: kind.is_xlora(),
            activation_dtype: state.dtype.unwrap(),
            sliding_window: first.sliding_window,
            cache_config,
            cache_engines,
            prompt_chunksize: Some(config.chunk_size_or(state.request.default_chunk)),
        };
        let mut template_filename: Option<PathBuf> = None;
        std::mem::swap(&mut template_filename, &mut state.files.template_filename);
        let mut generation_config: Option<PathBuf> = None;
        std::mem::swap(&mut generation_config, &mut state.files.generation_config);
        let pipeline = NormalPipeline::assemble(
            PipelineParts {
                parallel_models: models,
                no_kv_cache: loader.no_kv_cache(),
                chat_template: chat_template.unwrap(),
                non_granular_state,
                model_id: loader.model_id().clone(),
                metadata,
                topology: copy_topology(&config.topology),
                silent: state.request.silent,
                organization: config.organization,
                template_filename,
                generation_config,
                config: text.unwrap(),
                imatrix: copy_path(&config.imatrix),
            },
        );
        Ok((state.at(LoadPhase::Done), LoadAction::Finish { pipeline }))
    }

    fn settle_cache<O>(self, loader: &NormalLoader<O>) -> (r: LoadStep<P>)
        requires
            self.models@.len() > 0,
            self.chat_template is Some,
            self.config is Some,
            self.dtype is Some,
        ensures
            self.settles_cache(loader@, r),
    {
        if loader.get_kind().is_adapted() || self.request.paged_attn_config.is_none() {
            return self.finish(loader, None);
        }
        let mut state = self;
        let engines = devices_of(&state.models);
        let mut paged: Option<P> = None;
        std::mem::swap(&mut paged, &mut state.request.paged_attn_config);
        let config: P = paged.unwrap();
        Ok((state.at(LoadPhase::CacheWanted), LoadAction::BuildCache { config, engines }))
    }

    fn settle_weights<O>(self, loader: &NormalLoader<O>) -> (r: LoadStep<P>)
        requires
            self.models@.len() > 0,
            self.chat_template is Some,
            self.config is Some,
            self.dtype is Some,
            !loader@.config.contradicts(),
        ensures
            self.settles_weights(loader@, r),
    {
        let config = loader.config();
        if (self.request.in_situ_quant.is_some() || config.topology.is_some())
            && config.from_uqff.is_none() {
            let imatrix: Option<ImatrixDataSource> = if config.calibration_file.is_some() {
                Some(ImatrixDataSource::Collected)
            } else {
                match &config.imatrix {
                    Some(path) => Some(ImatrixDataSource::File { path: path.clone() }),
                    None => None,
                }
            };
            let plan = QuantizePlan {
                isq: self.request.in_situ_quant,
                devices: devices_of(&self.models),
                topology: copy_topology(&config.topology),
                silent: self.request.silent,
                imatrix,
                organization: config.organization,
                write_uqff: copy_path(&config.write_uqff),
            };
            return Ok((self.at(LoadPhase::QuantizationRunning), LoadAction::Quantize { plan }));
        }
        if let Some(path) = loader.from_uqff() {
            let action = LoadAction::LoadArtifacts {
                path: path.clone(),
                device: self.request.device,
                topology: copy_topology(&config.topology),
                silent: self.request.silent,
            };
            return Ok((self.at(LoadPhase::QuantizationRunning), action));
        }
        self.settle_cache(loader)
    }

    fn settle_mapping(self) -> (r: LoadStep<P>)
        ensures
            self.settles_mapping(r),
    {
        if self.use_nccl {
            let devices = copy_devices(&self.devices);
            let choice = MappingChoice::Nccl { devices };
            Ok((self.at(LoadPhase::MappersWanted), LoadAction::BuildMappers { choice }))
        } else if self.request.auto_mapping {
            Ok((self.at(LoadPhase::DtypeWanted), LoadAction::ResolveDtype))
        } else {
            let choice = MappingChoice::Given;
            Ok((self.at(LoadPhase::MappersWanted), LoadAction::BuildMappers { choice }))
        }
    }

    fn settle_pack_factor<O>(self, loader: &NormalLoader<O>) -> (r: LoadStep<P>)
        ensures
            self.settles_pack_factor(loader@, r),
    {
        if let Some(path) = loader.from_uqff() {
            Ok(
                (
                    self.at(LoadPhase::ArtifactsWanted),
                    LoadAction::ReadArtifacts { path: path.clone() },
                ),
            )
        } else if let Some(isq) = self.request.in_situ_quant {
            Ok((self.at(LoadPhase::PackFactorWanted), LoadAction::AskPackFactor { isq }))
        } else {
            Ok(
                (
                    self.at(LoadPhase::SizesWanted),
                    LoadAction::MeasureModel { weight_pack_factor: 1 },
                ),
            )
        }
    }

    fn settle_world<O>(self, loader: &NormalLoader<O>) -> (r: LoadStep<P>)
        requires
            self.use_nccl ==> world_defined(self.devices@.len(), self.request.env),
        ensures
            self.settles_world(loader@, r),
    {
        if self.use_nccl {
            let world: WorldPlan = match plan_world(self.devices.len(), &self.request.env) {
                Ok(world) => world,
                Err(e) => {
                    return Err(e);
                },
            };
            match id_exchange(&world, &self.request.env) {
                Ok(exchange) => {
                    let mut state = self;
                    state.world = Some(world);
                    Ok(
                        (
                            state.at(LoadPhase::WorldWanted),
                            LoadAction::JoinWorld { ids: world.stages, exchange },
                        ),
                    )
                },
                Err(e) => Err(e),
            }
        } else {
            let build = self.build(loader);
            Ok((self.at(LoadPhase::ModelsWanted), LoadAction::LoadModel { build }))
        }
    }

    fn settle_seats(self) -> (r: LoadStep<P>)
        requires
            self.world is Some,
            self.world->0.fits(self.devices@.len()),
            self.world->0.local_world_size > 0,
            self.devices@.len() % self.world->0.stages as nat != 0 || ranks_fit(
                self.world->0,
                self.request.env,
            ),
        ensures
            self.settles_seats(r),
    {
        let world: WorldPlan = self.world.unwrap();
        let groups: Vec<Vec<Device>> = match split_devices(&self.devices, &world) {
            Ok(groups) => groups,
            Err(e) => {
                return Err(e);
            },
        };
        let offset: usize = match rank_offset(&world, &self.request.env) {
            Ok(offset) => offset,
            Err(e) => {
                return Err(e);
            },
        };
        let barrier = match barrier_plan(&world, &self.request.env) {
            Ok(barrier) => barrier,
            Err(e) => {
                return Err(e);
            },
        };
        proof {
            let size = world.local_world_size as int;
            assert forall|s: int| 0 <= s < groups@.len() implies (#[trigger] groups@[s])@.len()
                == size by {
                assert(groups@[s]@ == self.devices@.subrange(s * size, (s + 1) * size));
                assert(0 <= s * size <= (s + 1) * size <= groups@.len() * size) by (nonlinear_arith)
                    requires
                        0 <= s < groups@.len(),
                        0 <= size,
                ;
                assert((s + 1) * size - s * size == size) by (nonlinear_arith);
            }
        }
        let seats = seat_ranks(&groups, offset, world.global_world_size);
        proof {
            let size = world.local_world_size as int;
            assert(seats@.len() == seats.len());
            assert forall|s: int, r: int|
                #![trigger seats@[s]@[r]]
                0 <= s < seats@.len() && 0 <= r < seats@[s]@.len() implies seats@[s]@[r] == (
            CommSeat {
                stage: s as usize,
                device: self.devices@[s * size + r],
                rank: (offset + r) as usize,
                world_size: world.global_world_size,
            }) by {
                assert(groups@[s]@ == self.devices@.subrange(s * size, (s + 1) * size));
                assert(seats@[s]@.len() == groups@[s]@.len());
                assert(0 <= s * size <= (s + 1) * size <= groups@.len() * size) by (nonlinear_arith)
                    requires
                        0 <= s < groups@.len(),
                        0 <= size,
                ;
            }
            assert(are_seats(self.devices@, world, offset as int, seats@));
        }
        let mut state = self;
        state.seats = copy_seats(&seats);
        Ok((state.at(LoadPhase::RanksWanted), LoadAction::ConnectRanks { seats, barrier }))
    }

    fn settle_shards<O>(self, loader: &NormalLoader<O>) -> (r: LoadStep<P>)
        requires
            self.world is Some,
            forall|s: int|
                0 <= s < self.seats@.len() ==> (#[trigger] self.seats@[s])@.len()
                    == self.world->0.local_world_size,
        ensures
            self.settles_shards(loader@, r),
    {
        let world: WorldPlan = self.world.unwrap();
        let config = loader.config();
        let ranks = transpose(&self.seats, world.local_world_size);
        let dummy_layers: Option<IsqOrganization> = if self.loading_isq
            && config.from_uqff.is_some() {
            Some(config.organization)
        } else {
            None
        };
        let build = self.build(loader);
        let move_shards = !self.loading_isq;
        Ok(
            (
                self.at(LoadPhase::ModelsWanted),
                LoadAction::LoadShards { build, ranks, dummy_layers, move_shards },
            ),
        )
    }

    fn step<O>(self, loader: &NormalLoader<O>, event: LoadEvent) -> (r: LoadStep<P>)
        requires
            self.wf(loader@),
            self.accepts(loader@, event),
        ensures
            self.steps(loader@, event, r),
            r matches Ok((post, _)) ==> post.wf(loader@),
    {
        let ghost pre = self;
        let ghost taken = event;
        let r = self.take_event(loader, event);
        proof {
            law_step_keeps_wf(pre, loader@, taken, r);
        }
        r
    }

    fn take_event<O>(self, loader: &NormalLoader<O>, event: LoadEvent) -> (r: LoadStep<P>)
        requires
            self.wf(loader@),
            self.accepts(loader@, event),
        ensures
            self.steps(loader@, event, r),
    {
        let config = loader.config();
        let mut state = self;
        match event {
            LoadEvent::ConfigRead { config } => {
                state.config = Some(config);
                Ok((state.at(LoadPhase::DevicesWanted), LoadAction::ListDevices))
            },
            LoadEvent::DevicesListed { devices } => {
                state.use_nccl =
                use_nccl(&devices, &state.request.env, state.request.nccl_built);
                state.devices = devices;
                state.settle_mapping()
            },
            LoadEvent::DtypeResolved => state.settle_pack_factor(loader),
            LoadEvent::ArtifactsRead { artifacts } => {
                let weight_pack_factor: usize = weight_pack_factor(&artifacts);
                Ok(
                    (
                        state.at(LoadPhase::SizesWanted),
                        LoadAction::MeasureModel { weight_pack_factor },
                    ),
                )
            },
            LoadEvent::PackFactorKnown { pack_factor } => Ok(
                (
                    state.at(LoadPhase::SizesWanted),
                    LoadAction::MeasureModel { weight_pack_factor: pack_factor },
                ),
            ),
            LoadEvent::Measured { layer_sizes_in_bytes, non_mapped_size_in_bytes } => {
                let total_model_size_in_bytes: usize = checked_model_size(
                    &layer_sizes_in_bytes,
                    non_mapped_size_in_bytes,
                ).unwrap();
                let prompt_chunksize: usize = config.chunk_size_or(
                    state.request.default_chunk,
                ).get();
                Ok(
                    (
                        state.at(LoadPhase::PlacementWanted),
                        LoadAction::PlaceLayers {
                            layer_sizes_in_bytes,
                            non_mapped_size_in_bytes,
                            total_model_size_in_bytes,
                            prompt_chunksize,
                        },
                    ),
                )
            },
            LoadEvent::Placed => Ok(
                (
                    state.at(LoadPhase::MappersWanted),
                    LoadAction::BuildMappers { choice: MappingChoice::Placed },
                ),
            ),
            LoadEvent::Mapped { unique_devices, dtype } => {
                if config.is_contradictory() {
                    return Err(LoadError::ImatrixAndCalibration);
                }
                if includes_cpu(&unique_devices) {
                    state.request.paged_attn_config = None;
                }
                state.dtype = Some(dtype);
                state.loading_isq =
                config.wants_quantised(state.request.in_situ_quant)
                    && config.calibration_file.is_none();
                state.load_device =
                if state.loading_isq {
                    Device::Cpu
                } else {
                    state.request.device
                };
                state.settle_world(loader)
            },
            LoadEvent::WorldJoined => state.settle_seats(),
            LoadEvent::RanksConnected => state.settle_shards(loader),
            LoadEvent::ModelsLoaded { models } => {
                state.models = models;
                Ok((state.at(LoadPhase::TokenizerWanted), LoadAction::LoadTokenizer))
            },
            LoadEvent::TokenizerLoaded { chat_template, eos_tok } => {
                state.chat_template = Some(chat_template);
                state.eos_tok = eos_tok;
                match &config.calibration_file {
                    Some(path) => Ok(
                        (
                            state.at(LoadPhase::CalibrationWanted),
                            LoadAction::ReadCalibration { path: path.clone() },
                        ),
                    ),
                    None => state.settle_weights(loader),
                }
            },
            LoadEvent::CalibrationRead { bos, tokens } => {
                let organization = config.organization;
                let device: Device = state.load_device;
                let turns = calibration_turns(bos, &tokens, &state.models);
                Ok(
                    (
                        state.at(LoadPhase::CalibrationRunning),
                        LoadAction::Calibrate { organization, device, turns },
                    ),
                )
            },
            LoadEvent::Calibrated => state.settle_weights(loader),
            LoadEvent::Quantized => state.settle_cache(loader),
            LoadEvent::CacheBuilt { cache_config } => state.finish(loader, Some(cache_config)),
        }
    }
}

/// Every step keeps what holds of a load.
pub proof fn law_step_keeps_wf<P, O>(
    pre: LoadState<P>,
    loader: LoaderView<O>,
    event: LoadEvent,
    out: LoadStep<P>,
)
    requires
        pre.wf(loader),
        pre.accepts(loader, event),
        pre.steps(loader, event, out),
    ensures
        out matches Ok((post, _)) ==> post.wf(loader),
{
    if event is Mapped && pre.use_nccl && !loader.config.contradicts() {
        assert(pre.devices@.len() == pre.devices.len());
        if world_of(pre.devices@.len(), pre.request.env) is Ok {
            law_settled_world_fits(pre.devices@.len(), pre.request.env);
        }
    }
}

/// Every step brings a load further, and what was asked for stays: only the paged-attention
/// config may be given up.
pub proof fn law_step_advances<P, O>(
    pre: LoadState<P>,
    loader: LoaderView<O>,
    event: LoadEvent,
    out: LoadStep<P>,
)
    requires
        pre.wf(loader),
        pre.accepts(loader, event),
        pre.steps(loader, event, out),
    ensures
        out matches Ok((post, _)) ==> post.phase.rank() > pre.phase.rank(),
        out matches Ok((post, action)) ==> !(action is Finish) ==> post.request == pre.request
            || post.request == pre.request.unpaged(),
{
}

/// A config that names both an importance matrix and a calibration file is refused before any
/// weights are loaded: no step gets past the mappers.
pub proof fn law_contradiction_loads_nothing<P, O>(
    pre: LoadState<P>,
    loader: LoaderView<O>,
    event: LoadEvent,
    out: LoadStep<P>,
)
    requires
        pre.wf(loader),
        pre.accepts(loader, event),
        pre.steps(loader, event, out),
        loader.config.contradicts(),
    ensures
        pre.phase.rank() <= 6,
        pre.phase is MappersWanted <==> out is Err,
        out matches Err(e) ==> e is ImatrixAndCalibration,
        out matches Ok((post, _)) ==> post.phase.rank() <= 6,
{
}

/// Without NCCL, a load is refused for one reason only: a contradictory config. With NCCL, the
/// only other steps that can refuse are those that settle the world and the seats.
pub proof fn law_refusals<P, O>(
    pre: LoadState<P>,
    loader: LoaderView<O>,
    event: LoadEvent,
    out: LoadStep<P>,
)
    requires
        pre.wf(loader),
        pre.accepts(loader, event),
        pre.steps(loader, event, out),
    ensures
        !pre.use_nccl ==> (out is Err <==> event is Mapped && loader.config.contradicts()),
        out is Err ==> event is Mapped || event is WorldJoined,
{
}

/// A model with adapters never gets a paged-attention cache.
pub proof fn law_adapters_are_not_paged<P, O>(
    pre: LoadState<P>,
    loader: LoaderView<O>,
    event: LoadEvent,
    out: LoadStep<P>,
)
    requires
        pre.wf(loader),
        pre.accepts(loader, event),
        pre.steps(loader, event, out),
        loader.kind.adapted(),
    ensures
        out matches Ok((_, action)) ==> !(action is BuildCache),
        out matches Ok((post, _)) ==> !(post.phase is CacheWanted),
        out matches Ok((_, LoadAction::Finish { pipeline }))
            ==> pipeline@.metadata.cache_engines is None,
{
}

/// Once paging is given up, it stays given up: the mapping put a layer on the CPU, or nothing was
/// asked for.
pub proof fn law_paging_stays_off<P, O>(
    pre: LoadState<P>,
    loader: LoaderView<O>,
    event: LoadEvent,
    out: LoadStep<P>,
)
    requires
        pre.wf(loader),
        pre.accepts(loader, event),
        pre.steps(loader, event, out),
        pre.request.paged_attn_config is None || (event matches LoadEvent::Mapped {
            unique_devices,
            ..
        } && any_cpu(unique_devices@)),
    ensures
        out matches Ok((post, action)) ==> {
            &&& !(action is BuildCache)
            &&& !(action is Finish) ==> post.request.paged_attn_config is None
            &&& action matches LoadAction::LoadModel { build } ==> build.attention is Eager
            &&& action matches LoadAction::LoadShards { build, .. } ==> build.attention is Eager
        },
{
}

/// Weights are loaded to the CPU only to be quantised there, and never before a calibration run.
pub proof fn law_weights_go_to_the_device<P, O>(
    pre: LoadState<P>,
    loader: LoaderView<O>,
    event: LoadEvent,
    out: LoadStep<P>,
    build: ModelBuild,
)
    requires
        pre.wf(loader),
        pre.accepts(loader, event),
        pre.steps(loader, event, out),
        out matches Ok((_, action)) && (action == (LoadAction::<P>::LoadModel { build })
            || (action matches LoadAction::LoadShards { build: b, .. } && b == build)),
    ensures
        build.load_device == (if build.loading_isq {
            Device::Cpu
        } else {
            pre.request.device
        }),
        build.loading_isq <==> loader.config.quantises(pre.request.in_situ_quant)
            && loader.config.calibration_file is None,
{
}

/// The model of every rank is built over one device of each stage: the `rank`-th of the node's
/// devices in that stage, under the same rank everywhere.
pub proof fn law_ranks_have_their_devices<P, O>(
    pre: LoadState<P>,
    loader: LoaderView<O>,
    event: LoadEvent,
    out: LoadStep<P>,
    ranks: Vec<Vec<CommSeat>>,
    rank: int,
    stage: int,
)
    requires
        pre.wf(loader),
        pre.accepts(loader, event),
        pre.steps(loader, event, out),
        out matches Ok((_, LoadAction::LoadShards { ranks: r, .. })) && r == ranks,
        0 <= rank < ranks@.len(),
        0 <= stage < pre.world->0.stages,
    ensures
        ranks@.len() == pre.world->0.local_world_size,
        ranks@[rank]@.len() == pre.world->0.stages,
        ranks@[rank]@[stage].stage == stage,
        ranks@[rank]@[stage].device == pre.devices@[stage * pre.world->0.local_world_size + rank],
        ranks@[rank]@[stage].rank == first_rank(pre.world->0, pre.request.env)->Ok_0 + rank,
{
    assert(first_rank(pre.world->0, pre.request.env)->Ok_0 >= 0) by (nonlinear_arith)
        requires
            first_rank(pre.world->0, pre.request.env) is Ok,
    ;
    assert(pre.seats@[stage]@.len() == pre.world->0.local_world_size);
    assert(ranks@[rank]@[stage] == pre.seats@[stage]@[rank]);
}

/// A load that finishes ends with a pipeline that can run: with as many models as were asked for,
/// a cache engine for each model where there is one for any, and no prefix cache where the
/// adapter is an X-LoRA one.
pub proof fn law_finished_pipeline_is_sound<P, O>(
    pre: LoadState<P>,
    loader: LoaderView<O>,
    event: LoadEvent,
    out: LoadStep<P>,
    pipeline: NormalPipeline,
)
    requires
        pre.wf(loader),
        pre.accepts(loader, event),
        pre.steps(loader, event, out),
        out matches Ok((_, LoadAction::Finish { pipeline: p })) && p == pipeline,
    ensures
        pipeline@.wf(),
        pipeline@.parallel_models@.len() == pre.model_count(),
        pipeline@.metadata.no_prefix_cache == pipeline@.metadata.is_xlora,
        pipeline@.metadata.is_xlora == loader.kind.xlora(),
        pipeline@.metadata.cache_engines is Some <==> pipeline@.metadata.cache_config is Some,
        pipeline@.metadata.prompt_chunksize is Some,
{
}

/// `states` are the states of a load from the first on, and `events` what happened between them.
pub open spec fn is_run<P, O>(
    loader: LoaderView<O>,
    states: Seq<LoadState<P>>,
    events: Seq<LoadEvent>,
) -> bool {
    &&& states.len() == events.len() + 1
    &&& states[0].phase is ConfigWanted
    &&& states[0].wf(loader)
    &&& forall|i: int|
        0 <= i < events.len() ==> {
            &&& #[trigger] states[i].accepts(loader, events[i])
            &&& exists|action: LoadAction<P>| #[trigger]
                states[i].steps(loader, events[i], Ok((states[i + 1], action)))
        }
}

/// A load takes at most fifteen events, whatever happens, and is sound throughout.
pub proof fn law_load_ends<P, O>(
    loader: LoaderView<O>,
    states: Seq<LoadState<P>>,
    events: Seq<LoadEvent>,
    i: int,
)
    requires
        is_run(loader, states, events),
        0 <= i < states.len(),
    ensures
        states[i].wf(loader),
        i <= states[i].phase.rank() <= 15,
    decreases i,
{
    if i > 0 {
        law_load_ends(loader, states, events, i - 1);
        assert(states[i - 1].accepts(loader, events[i - 1]));
        let action = choose|action: LoadAction<P>| #[trigger]
            states[i - 1].steps(loader, events[i - 1], Ok((states[i], action)));
        law_step_keeps_wf(states[i - 1], loader, events[i - 1], Ok((states[i], action)));
        law_step_advances(states[i - 1], loader, events[i - 1], Ok((states[i], action)));
    }
}

/// The event puts a layer on the CPU.
pub open spec fn maps_to_cpu(event: LoadEvent) -> bool {
    event matches LoadEvent::Mapped { unique_devices, .. } && any_cpu(unique_devices@)
}

/// Some layer was put on the CPU.
pub open spec fn mapped_to_cpu(events: Seq<LoadEvent>) -> bool {
    exists|i: int| 0 <= i < events.len() && #[trigger] maps_to_cpu(events[i])
}

proof fn lemma_mapped_to_cpu_grows(events: Seq<LoadEvent>, i: int)
    requires
        0 <= i < events.len(),
    ensures
        mapped_to_cpu(events.take(i + 1)) <==> mapped_to_cpu(events.take(i)) || maps_to_cpu(
            events[i],
        ),
{
    let less = events.take(i);
    let more = events.take(i + 1);
    if mapped_to_cpu(less) {
        let k = choose|k: int| 0 <= k < less.len() && #[trigger] maps_to_cpu(less[k]);
        assert(maps_to_cpu(more[k]));
    }
    if maps_to_cpu(events[i]) {
        assert(maps_to_cpu(more[i]));
    }
    if mapped_to_cpu(more) {
        let k = choose|k: int| 0 <= k < more.len() && #[trigger] maps_to_cpu(more[k]);
        if k < i {
            assert(maps_to_cpu(less[k]));
        }
    }
}

proof fn lemma_paging_of_a_run<P, O>(
    loader: LoaderView<O>,
    states: Seq<LoadState<P>>,
    events: Seq<LoadEvent>,
    i: int,
)
    requires
        is_run(loader, states, events),
        0 <= i < states.len(),
        states[i].phase.rank() < 15,
    ensures
        ({
            let asked = states[0].request;
            let cpu = mapped_to_cpu(events.take(i));
            let n = states[i].phase.rank();
            &&& states[i].request == asked || states[i].request == asked.unpaged()
            &&& n <= 6 ==> states[i].request == asked && !cpu
            &&& 7 <= n <= 13 ==> (states[i].request.paged_attn_config is Some
                <==> asked.paged_attn_config is Some && !cpu)
            &&& n == 14 ==> asked.paged_attn_config is Some && !cpu
        }),
    decreases i,
{
    if i > 0 {
        let k = i - 1;
        law_load_ends(loader, states, events, k);
        assert(states[k].accepts(loader, events[k]));
        let action = choose|action: LoadAction<P>| #[trigger]
            states[k].steps(loader, events[k], Ok((states[i], action)));
        law_step_advances(states[k], loader, events[k], Ok((states[i], action)));
        lemma_paging_of_a_run(loader, states, events, k);
        lemma_mapped_to_cpu_grows(events, k);
    }
}

/// Whatever happens in between, a load that finishes has a paged-attention cache if and only if
/// one was asked for, the model has no adapter, and no layer was put on the CPU; and it is as
/// silent, and takes prompts in chunks as large, as was asked for.
pub proof fn law_finished_load_is_as_asked<P, O>(
    loader: LoaderView<O>,
    states: Seq<LoadState<P>>,
    events: Seq<LoadEvent>,
    event: LoadEvent,
    done: LoadState<P>,
    pipeline: NormalPipeline,
)
    requires
        is_run(loader, states, events),
        states.last().accepts(loader, event),
        states.last().steps(loader, event, Ok((done, LoadAction::Finish { pipeline }))),
    ensures
        pipeline@.wf(),
        pipeline@.metadata.cache_engines is Some <==> states[0].request.paged_attn_config is Some
            && !loader.kind.adapted() && !mapped_to_cpu(events),
        pipeline@.silent == states[0].request.silent,
        pipeline@.metadata.prompt_chunksize == Some(
            loader.config.chunk_size(states[0].request.default_chunk),
        ),
        !loader.config.contradicts(),
{
    let i = states.len() - 1;
    law_load_ends(loader, states, events, i);
    lemma_paging_of_a_run(loader, states, events, i);
    assert(events.take(i) =~= events);
    law_finished_pipeline_is_sound(
        states[i],
        loader,
        event,
        Ok((done, LoadAction::Finish { pipeline })),
        pipeline,
    );
}

proof fn lemma_devices_of_a_run<P, O>(
    loader: LoaderView<O>,
    states: Seq<LoadState<P>>,
    events: Seq<LoadEvent>,
    i: int,
) -> (k: int)
    requires
        is_run(loader, states, events),
        0 <= i < states.len(),
        2 <= states[i].phase.rank() < 15,
    ensures
        0 <= k < i,
        events[k] == (LoadEvent::DevicesListed { devices: states[i].devices }),
    decreases i,
{
    let j = i - 1;
    law_load_ends(loader, states, events, j);
    assert(states[j].accepts(loader, events[j]));
    let action = choose|action: LoadAction<P>| #[trigger]
        states[j].steps(loader, events[j], Ok((states[i], action)));
    law_step_advances(states[j], loader, events[j], Ok((states[i], action)));
    if states[j].phase is DevicesWanted {
        j
    } else {
        lemma_devices_of_a_run(loader, states, events, j)
    }
}

/// Whatever happens in between, a load that finishes bears the loader's name and has the number of
/// models that the listed devices call for: as many as each stage has devices where NCCL is used,
/// and one otherwise. `k` is when the devices were listed.
pub proof fn law_finished_load_has_its_models<P, O>(
    loader: LoaderView<O>,
    states: Seq<LoadState<P>>,
    events: Seq<LoadEvent>,
    event: LoadEvent,
    done: LoadState<P>,
    pipeline: NormalPipeline,
) -> (k: int)
    requires
        is_run(loader, states, events),
        states.last().accepts(loader, event),
        states.last().steps(loader, event, Ok((done, LoadAction::Finish { pipeline }))),
    ensures
        0 <= k < events.len(),
        events[k] matches LoadEvent::DevicesListed { devices } && pipeline@.parallel_models@.len()
            == (if nccl_wanted(
            devices@,
            states[0].request.env,
            states[0].request.nccl_built,
        ) {
            devices@.len() / stages_in(states[0].request.env)->0 as nat
        } else {
            1
        }),
        pipeline@.model_id@ == loader.model_id,
{
    let i = states.len() - 1;
    law_load_ends(loader, states, events, i);
    lemma_paging_of_a_run(loader, states, events, i);
    law_finished_pipeline_is_sound(
        states[i],
        loader,
        event,
        Ok((done, LoadAction::Finish { pipeline })),
        pipeline,
    );
    lemma_devices_of_a_run(loader, states, events, i)
}

} // verus!
