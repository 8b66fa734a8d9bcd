//! The loader of a text model, and the builder that settles it.

use std::path::PathBuf;
use vstd::prelude::*;
use crate::config::NormalSpecificConfig;
use crate::error::LoadError;
use crate::kinds::{AdapterKind, ArchitectureLoader, ModelKind, NormalLoaderType, TokenSource};

verus! {

/// The order in which adapters are laid over a base model. `O` is what loading the adapters takes
/// besides the name of that model.
#[derive(Debug)]
pub struct AdapterOrdering<O> {
    /// The model that the adapters were made for.
    pub base_model_id: String,
    /// Carried through to what loads the adapters.
    pub adapters: O,
}

/// The characters of an optional text.
pub open spec fn opt_text(t: Option<String>) -> Option<Seq<char>> {
    match t {
        Some(t) => Some(t@),
        None => None,
    }
}

/// A builder for a loader for a "normal" (non-quantized) model.
pub struct NormalLoaderBuilder<O> {
    model_id: Option<String>,
    config: NormalSpecificConfig,
    xlora_model_id: Option<String>,
    kind: ModelKind,
    xlora_order: Option<AdapterOrdering<O>>,
    no_kv_cache: bool,
    chat_template: Option<String>,
    tokenizer_json: Option<String>,
    tgt_non_granular_index: Option<usize>,
}

/// What a builder has settled.
pub struct BuilderView<O> {
    pub model_id: Option<Seq<char>>,
    pub config: NormalSpecificConfig,
    pub xlora_model_id: Option<Seq<char>>,
    pub kind: ModelKind,
    pub xlora_order: Option<AdapterOrdering<O>>,
    pub no_kv_cache: bool,
    pub chat_template: Option<Seq<char>>,
    pub tokenizer_json: Option<Seq<char>>,
    pub tgt_non_granular_index: Option<usize>,
}

impl<O> BuilderView<O> {
    /// An adapter is named exactly where the kind says that there is one, and a model is named
    /// then.
    pub open spec fn consistent(self) -> bool {
        &&& self.kind.adapted() <==> self.xlora_model_id is Some
        &&& self.kind.adapted() <==> self.xlora_order is Some
        &&& self.kind.adapted() ==> self.model_id is Some
    }

    /// What laying an adapter over the model settles.
    pub open spec fn with_adapter(
        self,
        adapter: AdapterKind,
        xlora_model_id: Seq<char>,
        xlora_order: AdapterOrdering<O>,
        no_kv_cache: bool,
        tgt_non_granular_index: Option<usize>,
    ) -> BuilderView<O> {
        BuilderView {
            model_id: match self.model_id {
                Some(id) => Some(id),
                None => Some(xlora_order.base_model_id@),
            },
            xlora_model_id: Some(xlora_model_id),
            kind: ModelKind::Adapter { adapter },
            xlora_order: Some(xlora_order),
            no_kv_cache,
            tgt_non_granular_index,
            ..self
        }
    }
}

impl<O> View for NormalLoaderBuilder<O> {
    type V = BuilderView<O>;

    closed spec fn view(&self) -> BuilderView<O> {
        BuilderView {
            model_id: opt_text(self.model_id),
            config: self.config,
            xlora_model_id: opt_text(self.xlora_model_id),
            kind: self.kind,
            xlora_order: self.xlora_order,
            no_kv_cache: self.no_kv_cache,
            chat_template: opt_text(self.chat_template),
            tokenizer_json: opt_text(self.tokenizer_json),
            tgt_non_granular_index: self.tgt_non_granular_index,
        }
    }
}

/// The architecture loader that a loader type stands for; without one, the architecture is taken
/// from the model's config.
pub open spec fn architecture(loader_tp: Option<NormalLoaderType>) -> ArchitectureLoader {
    match loader_tp {
        Some(NormalLoaderType::Mistral) => ArchitectureLoader::MistralLoader,
        Some(NormalLoaderType::Gemma) => ArchitectureLoader::GemmaLoader,
        Some(NormalLoaderType::Llama) => ArchitectureLoader::LlamaLoader,
        Some(NormalLoaderType::Mixtral) => ArchitectureLoader::MixtralLoader,
        Some(NormalLoaderType::Phi2) => ArchitectureLoader::Phi2Loader,
        Some(NormalLoaderType::Phi3) => ArchitectureLoader::Phi3Loader,
        Some(NormalLoaderType::Qwen2) => ArchitectureLoader::Qwen2Loader,
        Some(NormalLoaderType::Gemma2) => ArchitectureLoader::Gemma2Loader,
        Some(NormalLoaderType::Starcoder2) => ArchitectureLoader::Starcoder2Loader,
        Some(NormalLoaderType::Phi3_5MoE) => ArchitectureLoader::Phi3_5MoELoader,
        Some(NormalLoaderType::DeepSeekV2) => ArchitectureLoader::DeepSeekV2Loader,
        Some(NormalLoaderType::DeepSeekV3) => ArchitectureLoader::DeepSeekV3Loader,
        None => ArchitectureLoader::AutoLoader,
    }
}

impl<O> Default for NormalLoaderBuilder<O> {
    fn default() -> (r: Self)
        ensures
            r@.model_id is None,
            r@.config.prompt_chunksize is None,
            r@.config.topology is None,
            !r@.config.use_flash_attn,
            r@.config.organization is Default,
            r@.config.write_uqff is None,
            r@.config.from_uqff is None,
            r@.config.imatrix is None,
            r@.config.calibration_file is None,
            r@.kind is Normal,
            !r@.no_kv_cache,
            r@.chat_template is None,
            r@.tokenizer_json is None,
            r@.tgt_non_granular_index is None,
            r@.consistent(),
    {
        NormalLoaderBuilder {
            model_id: None,
            config: NormalSpecificConfig::default(),
            xlora_model_id: None,
            kind: ModelKind::Normal,
            xlora_order: None,
            no_kv_cache: false,
            chat_template: None,
            tokenizer_json: None,
            tgt_non_granular_index: None,
        }
    }
}

impl<O> NormalLoaderBuilder<O> {
    #[verifier::type_invariant]
    spec fn inv(self) -> bool {
        self@.consistent()
    }

    /// NOTE: Call `.with_no_kv_cache` if applicable.
    pub fn new(
        config: NormalSpecificConfig,
        chat_template: Option<String>,
        tokenizer_json: Option<String>,
        model_id: Option<String>,
    ) -> (r: Self)
        ensures
            r@ == (BuilderView::<O> {
                model_id: opt_text(model_id),
                config,
                xlora_model_id: None,
                kind: ModelKind::Normal,
                xlora_order: None,
                no_kv_cache: false,
                chat_template: opt_text(chat_template),
                tokenizer_json: opt_text(tokenizer_json),
                tgt_non_granular_index: None,
            }),
            r@.consistent(),
    {
        NormalLoaderBuilder {
            model_id,
            config,
            xlora_model_id: None,
            kind: ModelKind::Normal,
            xlora_order: None,
            no_kv_cache: false,
            chat_template,
            tokenizer_json,
            tgt_non_granular_index: None,
        }
    }

    pub fn with_no_kv_cache(self, no_kv_cache: bool) -> (r: Self)
        ensures
            r@ == (BuilderView { no_kv_cache, ..self@ }),
            r@.consistent(),
    {
        proof {
            use_type_invariant(&self);
        }
        NormalLoaderBuilder { no_kv_cache, ..self }
    }

    /// Lays an adapter over the model. Where no model is named yet, it is the one that the
    /// adapters were made for.
    fn with_adapter(
        self,
        adapter: AdapterKind,
        xlora_model_id: String,
        xlora_order: AdapterOrdering<O>,
        no_kv_cache: bool,
        tgt_non_granular_index: Option<usize>,
    ) -> (r: Self)
        ensures
            r@ == self@.with_adapter(
                adapter,
                xlora_model_id@,
                xlora_order,
                no_kv_cache,
                tgt_non_granular_index,
            ),
            r@.consistent(),
    {
        let model_id: Option<String> = match self.model_id {
            Some(id) => Some(id),
            None => Some(xlora_order.base_model_id.clone()),
        };
        NormalLoaderBuilder {
            model_id,
            config: self.config,
            xlora_model_id: Some(xlora_model_id),
            kind: ModelKind::Adapter { adapter },
            xlora_order: Some(xlora_order),
            no_kv_cache,
            chat_template: self.chat_template,
            tokenizer_json: self.tokenizer_json,
            tgt_non_granular_index,
        }
    }

    pub fn with_xlora(
        self,
        xlora_model_id: String,
        xlora_order: AdapterOrdering<O>,
        no_kv_cache: bool,
        tgt_non_granular_index: Option<usize>,
    ) -> (r: Self)
        ensures
            r@ == self@.with_adapter(
                AdapterKind::XLora,
                xlora_model_id@,
                xlora_order,
                no_kv_cache,
                tgt_non_granular_index,
            ),
            r@.consistent(),
    {
        self.with_adapter(
            AdapterKind::XLora,
            xlora_model_id,
            xlora_order,
            no_kv_cache,
            tgt_non_granular_index,
        )
    }

    pub fn with_lora(self, lora_model_id: String, lora_order: AdapterOrdering<O>) -> (r: Self)
        ensures
            r@ == self@.with_adapter(AdapterKind::Lora, lora_model_id@, lora_order, false, None),
            r@.consistent(),
    {
        self.with_adapter(AdapterKind::Lora, lora_model_id, lora_order, false, None)
    }

    /// If the loader type is not specified, loader type is automatically determined from the
    /// `architectures` array in the config.
    pub fn build(self, loader_tp: Option<NormalLoaderType>) -> (r: Result<NormalLoader<O>, LoadError>)
        requires
            self@.model_id is Some,
        ensures
            r matches Ok(loader) && loader@ == self@.built(loader_tp) && loader@.consistent(),
    {
        proof {
            use_type_invariant(&self);
        }
        let inner: ArchitectureLoader = match loader_tp {
            Some(NormalLoaderType::Mistral) => ArchitectureLoader::MistralLoader,
            Some(NormalLoaderType::Gemma) => ArchitectureLoader::GemmaLoader,
            Some(NormalLoaderType::Llama) => ArchitectureLoader::LlamaLoader,
            Some(NormalLoaderType::Mixtral) => ArchitectureLoader::MixtralLoader,
            Some(NormalLoaderType::Phi2) => ArchitectureLoader::Phi2Loader,
            Some(NormalLoaderType::Phi3) => ArchitectureLoader::Phi3Loader,
            Some(NormalLoaderType::Qwen2) => ArchitectureLoader::Qwen2Loader,
            Some(NormalLoaderType::Gemma2) => ArchitectureLoader::Gemma2Loader,
            Some(NormalLoaderType::Starcoder2) => ArchitectureLoader::Starcoder2Loader,
            Some(NormalLoaderType::Phi3_5MoE) => ArchitectureLoader::Phi3_5MoELoader,
            Some(NormalLoaderType::DeepSeekV2) => ArchitectureLoader::DeepSeekV2Loader,
            Some(NormalLoaderType::DeepSeekV3) => ArchitectureLoader::DeepSeekV3Loader,
            None => ArchitectureLoader::AutoLoader,
        };
        Ok(
            NormalLoader {
                inner,
                model_id: self.model_id.unwrap(),
                config: self.config,
                xlora_model_id: self.xlora_model_id,
                kind: self.kind,
                xlora_order: self.xlora_order,
                no_kv_cache: self.no_kv_cache,
                chat_template: self.chat_template,
                tokenizer_json: self.tokenizer_json,
                tgt_non_granular_index: self.tgt_non_granular_index,
                token_source: None,
                revision: None,
                from_uqff: None,
            },
        )
    }
}

/// A loader for a "normal" (non-quantized) model.
pub struct NormalLoader<O> {
    inner: ArchitectureLoader,
    model_id: String,
    config: NormalSpecificConfig,
    xlora_model_id: Option<String>,
    kind: ModelKind,
    xlora_order: Option<AdapterOrdering<O>>,
    no_kv_cache: bool,
    chat_template: Option<String>,
    tokenizer_json: Option<String>,
    tgt_non_granular_index: Option<usize>,
    token_source: Option<TokenSource>,
    revision: Option<String>,
    from_uqff: Option<PathBuf>,
}

/// What a loader holds.
pub struct LoaderView<O> {
    pub inner: ArchitectureLoader,
    pub model_id: Seq<char>,
    pub config: NormalSpecificConfig,
    pub xlora_model_id: Option<Seq<char>>,
    pub kind: ModelKind,
    pub xlora_order: Option<AdapterOrdering<O>>,
    pub no_kv_cache: bool,
    pub chat_template: Option<Seq<char>>,
    pub tokenizer_json: Option<Seq<char>>,
    pub tgt_non_granular_index: Option<usize>,
    /// Where the hub token of the last load from the hub came from.
    pub token_source: Option<TokenSource>,
    /// The revision that was last loaded from the hub.
    pub revision: Option<Seq<char>>,
    /// The quantised weights, once they have been fetched.
    pub from_uqff: Option<PathBuf>,
}

impl<O> LoaderView<O> {
    /// An adapter is named exactly where the kind says that there is one.
    pub open spec fn consistent(self) -> bool {
        &&& self.kind.adapted() <==> self.xlora_model_id is Some
        &&& self.kind.adapted() <==> self.xlora_order is Some
    }

    /// What a load from the hub leaves in the loader. `uqff` are the quantised weights, where some
    /// were fetched.
    pub open spec fn recorded(
        self,
        revision: Option<String>,
        token_source: TokenSource,
        uqff: Option<PathBuf>,
    ) -> LoaderView<O> {
        LoaderView {
            token_source: Some(token_source),
            revision: opt_text(revision),
            from_uqff: match uqff {
                Some(path) => Some(path),
                None => self.from_uqff,
            },
            ..self
        }
    }

    /// The id that the loader answers to: the adapter's where there is one.
    pub open spec fn id(self) -> Seq<char> {
        match self.xlora_model_id {
            Some(id) => id,
            None => self.model_id,
        }
    }
}

impl<O> BuilderView<O> {
    /// The loader that the builder makes once a model is named.
    pub open spec fn built(self, loader_tp: Option<NormalLoaderType>) -> LoaderView<O> {
        LoaderView {
            inner: architecture(loader_tp),
            model_id: self.model_id->0,
            config: self.config,
            xlora_model_id: self.xlora_model_id,
            kind: self.kind,
            xlora_order: self.xlora_order,
            no_kv_cache: self.no_kv_cache,
            chat_template: self.chat_template,
            tokenizer_json: self.tokenizer_json,
            tgt_non_granular_index: self.tgt_non_granular_index,
            token_source: None,
            revision: None,
            from_uqff: None,
        }
    }
}

impl<O> View for NormalLoader<O> {
    type V = LoaderView<O>;

    closed spec fn view(&self) -> LoaderView<O> {
        LoaderView {
            inner: self.inner,
            model_id: self.model_id@,
            config: self.config,
            xlora_model_id: opt_text(self.xlora_model_id),
            kind: self.kind,
            xlora_order: self.xlora_order,
            no_kv_cache: self.no_kv_cache,
            chat_template: opt_text(self.chat_template),
            tokenizer_json: opt_text(self.tokenizer_json),
            tgt_non_granular_index: self.tgt_non_granular_index,
            token_source: self.token_source,
            revision: opt_text(self.revision),
            from_uqff: self.from_uqff,
        }
    }
}

impl<O> NormalLoader<O> {
    #[verifier::type_invariant]
    spec fn inv(self) -> bool {
        self@.consistent()
    }

    /// Records a load from the hub, unless the quantised weights could not be fetched.
    pub(crate) fn record_hub_load<E>(
        &mut self,
        revision: Option<String>,
        token_source: TokenSource,
        uqff: Option<Result<PathBuf, E>>,
    ) -> (r: Result<(), E>)
        ensures
            match uqff {
                Some(Err(e)) => final(self)@ == old(self)@ && r == Err::<(), E>(e),
                _ => r is Ok && final(self)@ == old(self)@.recorded(
                    revision,
                    token_source,
                    match uqff {
                        Some(Ok(path)) => Some(path),
                        _ => None,
                    },
                ),
            },
    {
        proof {
            use_type_invariant(&*self);
        }
        match uqff {
            Some(Ok(path)) => {
                self.from_uqff = Some(path);
            },
            Some(Err(e)) => {
                return Err(e);
            },
            None => {},
        }
        self.token_source = Some(token_source);
        self.revision = revision;
        Ok(())
    }

    pub fn get_id(&self) -> (r: String)
        ensures
            r@ == self@.id(),
    {
        match &self.xlora_model_id {
            Some(id) => id.clone(),
            None => self.model_id.clone(),
        }
    }

    pub fn get_kind(&self) -> (r: ModelKind)
        ensures
            r == self@.kind,
    {
        self.kind
    }

    pub fn inner(&self) -> (r: ArchitectureLoader)
        ensures
            r == self@.inner,
    {
        self.inner
    }

    pub fn model_id(&self) -> (r: &String)
        ensures
            r@ == self@.model_id,
    {
        &self.model_id
    }

    pub fn config(&self) -> (r: &NormalSpecificConfig)
        ensures
            *r == self@.config,
    {
        &self.config
    }

    pub fn xlora_model_id(&self) -> (r: &Option<String>)
        ensures
            opt_text(*r) == self@.xlora_model_id,
    {
        &self.xlora_model_id
    }

    pub fn xlora_order(&self) -> (r: &Option<AdapterOrdering<O>>)
        ensures
            *r == self@.xlora_order,
    {
        &self.xlora_order
    }

    pub fn no_kv_cache(&self) -> (r: bool)
        ensures
            r == self@.no_kv_cache,
    {
        self.no_kv_cache
    }

    pub fn chat_template(&self) -> (r: &Option<String>)
        ensures
            opt_text(*r) == self@.chat_template,
    {
        &self.chat_template
    }

    pub fn tokenizer_json(&self) -> (r: &Option<String>)
        ensures
            opt_text(*r) == self@.tokenizer_json,
    {
        &self.tokenizer_json
    }

    pub fn tgt_non_granular_index(&self) -> (r: Option<usize>)
        ensures
            r == self@.tgt_non_granular_index,
    {
        self.tgt_non_granular_index
    }

    pub fn token_source(&self) -> (r: &Option<TokenSource>)
        ensures
            *r == self@.token_source,
    {
        &self.token_source
    }

    pub fn revision(&self) -> (r: &Option<String>)
        ensures
            opt_text(*r) == self@.revision,
    {
        &self.revision
    }

    pub fn from_uqff(&self) -> (r: &Option<PathBuf>)
        ensures
            *r == self@.from_uqff,
    {
        &self.from_uqff
    }
}

/// Once an adapter is laid over it, a builder always makes a loader: a model is named, and the
/// loader answers to the adapter's id.
pub proof fn law_adapter_names_a_model<O>(
    b: BuilderView<O>,
    adapter: AdapterKind,
    id: Seq<char>,
    order: AdapterOrdering<O>,
    no_kv_cache: bool,
    tgt: Option<usize>,
    loader_tp: Option<NormalLoaderType>,
)
    ensures
        ({
            let with = b.with_adapter(adapter, id, order, no_kv_cache, tgt);
            &&& with.model_id is Some
            &&& with.built(loader_tp).id() == id
            &&& with.built(loader_tp).kind == (ModelKind::Adapter { adapter })
        }),
{
}

/// A model that is named stays the model, whatever adapters are laid over it.
pub proof fn law_named_model_stays<O>(
    b: BuilderView<O>,
    adapter: AdapterKind,
    id: Seq<char>,
    order: AdapterOrdering<O>,
    no_kv_cache: bool,
    tgt: Option<usize>,
    loader_tp: Option<NormalLoaderType>,
)
    requires
        b.model_id is Some,
    ensures
        b.with_adapter(adapter, id, order, no_kv_cache, tgt).built(loader_tp).model_id
            == b.model_id->0,
{
}

/// The adapter that is laid on last is the only one, but the model is named by the first.
pub proof fn law_last_adapter_wins<O>(
    b: BuilderView<O>,
    first: AdapterKind,
    first_id: Seq<char>,
    first_order: AdapterOrdering<O>,
    first_no_kv: bool,
    first_tgt: Option<usize>,
    last: AdapterKind,
    last_id: Seq<char>,
    last_order: AdapterOrdering<O>,
    last_no_kv: bool,
    last_tgt: Option<usize>,
)
    ensures
        ({
            let once = b.with_adapter(first, first_id, first_order, first_no_kv, first_tgt);
            let twice = once.with_adapter(last, last_id, last_order, last_no_kv, last_tgt);
            twice == (BuilderView {
                model_id: once.model_id,
                ..b.with_adapter(last, last_id, last_order, last_no_kv, last_tgt)
            })
        }),
{
}

/// An adapter settles its id, its order, its sort, the KV cache and the target index, and nothing
/// else but the name of a model that had none.
pub proof fn law_adapter_settles_its_own<O>(
    b: BuilderView<O>,
    adapter: AdapterKind,
    id: Seq<char>,
    order: AdapterOrdering<O>,
    no_kv_cache: bool,
    tgt: Option<usize>,
)
    ensures
        ({
            let with = b.with_adapter(adapter, id, order, no_kv_cache, tgt);
            &&& with.kind == (ModelKind::Adapter { adapter })
            &&& with.xlora_model_id == Some(id)
            &&& with.xlora_order == Some(order)
            &&& with.no_kv_cache == no_kv_cache
            &&& with.tgt_non_granular_index == tgt
            &&& b.model_id is Some ==> with.model_id == b.model_id
            &&& b.model_id is None ==> with.model_id == Some(order.base_model_id@)
            &&& with.config == b.config
            &&& with.chat_template == b.chat_template
            &&& with.tokenizer_json == b.tokenizer_json
        }),
{
}

/// A loader holds what its builder has settled, has recorded nothing yet, and answers to the
/// adapter's id where there is one and to the model's otherwise.
pub proof fn law_loader_is_as_built<O>(b: BuilderView<O>, loader_tp: Option<NormalLoaderType>)
    requires
        b.model_id is Some,
    ensures
        ({
            let l = b.built(loader_tp);
            &&& Some(l.model_id) == b.model_id
            &&& l.config == b.config
            &&& l.xlora_model_id == b.xlora_model_id
            &&& l.kind == b.kind
            &&& l.xlora_order == b.xlora_order
            &&& l.no_kv_cache == b.no_kv_cache
            &&& l.chat_template == b.chat_template
            &&& l.tokenizer_json == b.tokenizer_json
            &&& l.tgt_non_granular_index == b.tgt_non_granular_index
            &&& l.token_source is None
            &&& l.revision is None
            &&& l.from_uqff is None
            &&& b.xlora_model_id matches Some(id) ==> l.id() == id
            &&& b.xlora_model_id is None ==> Some(l.id()) == b.model_id
        }),
{
}

/// Two loader types never share an architecture loader, and the one that reads the architecture
/// from the config stands for no loader type.
pub proof fn law_architectures_are_told_apart(
    one: Option<NormalLoaderType>,
    other: Option<NormalLoaderType>,
)
    ensures
        architecture(one) == architecture(other) ==> one == other,
        architecture(one) is AutoLoader <==> one is None,
        one matches Some(NormalLoaderType::Mistral) ==> architecture(one) is MistralLoader,
        one matches Some(NormalLoaderType::Gemma) ==> architecture(one) is GemmaLoader,
        one matches Some(NormalLoaderType::Llama) ==> architecture(one) is LlamaLoader,
        one matches Some(NormalLoaderType::Mixtral) ==> architecture(one) is MixtralLoader,
        one matches Some(NormalLoaderType::Phi2) ==> architecture(one) is Phi2Loader,
        one matches Some(NormalLoaderType::Phi3) ==> architecture(one) is Phi3Loader,
        one matches Some(NormalLoaderType::Qwen2) ==> architecture(one) is Qwen2Loader,
        one matches Some(NormalLoaderType::Gemma2) ==> architecture(one) is Gemma2Loader,
        one matches Some(NormalLoaderType::Starcoder2) ==> architecture(one) is Starcoder2Loader,
        one matches Some(NormalLoaderType::Phi3_5MoE) ==> architecture(one) is Phi3_5MoELoader,
        one matches Some(NormalLoaderType::DeepSeekV2) ==> architecture(one) is DeepSeekV2Loader,
        one matches Some(NormalLoaderType::DeepSeekV3) ==> architecture(one) is DeepSeekV3Loader,
{
}

/// A load from the hub leaves its revision, its token source and the fetched weights in the
/// loader, and nothing else; weights from before stay where none were fetched.
pub proof fn law_hub_load_leaves_its_mark<O>(
    l: LoaderView<O>,
    revision: Option<String>,
    token_source: TokenSource,
    uqff: Option<PathBuf>,
)
    ensures
        ({
            let after = l.recorded(revision, token_source, uqff);
            &&& after.token_source == Some(token_source)
            &&& revision matches Some(v) ==> after.revision == Some(v@)
            &&& revision is None ==> after.revision is None
            &&& uqff is Some ==> after.from_uqff == uqff
            &&& uqff is None ==> after.from_uqff == l.from_uqff
            &&& after.inner == l.inner
            &&& after.model_id == l.model_id
            &&& after.config == l.config
            &&& after.xlora_model_id == l.xlora_model_id
            &&& after.kind == l.kind
            &&& after.xlora_order == l.xlora_order
            &&& after.no_kv_cache == l.no_kv_cache
            &&& after.chat_template == l.chat_template
            &&& after.tokenizer_json == l.tokenizer_json
            &&& after.tgt_non_granular_index == l.tgt_non_granular_index
        }),
{
}

} // verus!
