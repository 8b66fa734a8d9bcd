//! The sorts of models, adapters, quantisation and caches that a loader tells apart.

use std::path::PathBuf;
use vstd::prelude::*;

verus! {

/// The sort of adapter that is laid over a base model.
#[derive(Clone, Copy, Debug, PartialEq, Eq, Structural)]
pub enum AdapterKind {
    XLora,
    Lora,
}

/// The sort of model that is loaded.
#[derive(Clone, Copy, Debug, PartialEq, Eq, Structural)]
pub enum ModelKind {
    Normal,
    Adapter { adapter: AdapterKind },
}

impl ModelKind {
    /// The model carries an adapter.
    pub open spec fn adapted(self) -> bool {
        self is Adapter
    }

    /// The model carries an X-LoRA adapter.
    pub open spec fn xlora(self) -> bool {
        self == (ModelKind::Adapter { adapter: AdapterKind::XLora })
    }

    pub fn is_adapted(&self) -> (r: bool)
        ensures
            r == self.adapted(),
    {
        matches!(self, ModelKind::Adapter { .. })
    }

    pub fn is_xlora(&self) -> (r: bool)
        ensures
            r == self.xlora(),
    {
        matches!(self, ModelKind::Adapter { adapter: AdapterKind::XLora })
    }
}

/// Which layers in-situ quantisation is meant for.
#[derive(Clone, Copy, Debug, PartialEq, Eq, Structural)]
pub enum IsqOrganization {
    Default,
    MoeExpertsOnly,
}

/// The formats that weights can be quantised to while loading.
#[derive(Clone, Copy, Debug, PartialEq, Eq, Structural)]
#[allow(non_camel_case_types)]
pub enum IsqType {
    Q4_0,
    Q4_1,
    Q5_0,
    Q5_1,
    Q8_0,
    Q8_1,
    Q2K,
    Q3K,
    Q4K,
    Q5K,
    Q6K,
    Q8K,
    HQQ8,
    HQQ4,
    F8E4M3,
}

/// The architectures that a loader can be asked for by name.
#[derive(Clone, Copy, Debug, PartialEq, Eq, Structural)]
#[allow(non_camel_case_types)]
pub enum NormalLoaderType {
    Mistral,
    Gemma,
    Mixtral,
    Llama,
    Phi2,
    Phi3,
    Qwen2,
    Gemma2,
    Starcoder2,
    Phi3_5MoE,
    DeepSeekV2,
    DeepSeekV3,
}

/// What reads the model's config and builds its layers.
#[derive(Clone, Copy, Debug, PartialEq, Eq, Structural)]
#[allow(non_camel_case_types)]
pub enum ArchitectureLoader {
    MistralLoader,
    GemmaLoader,
    MixtralLoader,
    LlamaLoader,
    Phi2Loader,
    Phi3Loader,
    Qwen2Loader,
    Gemma2Loader,
    Starcoder2Loader,
    Phi3_5MoELoader,
    DeepSeekV2Loader,
    DeepSeekV3Loader,
    /// Takes the architecture from the `architectures` array of the config.
    AutoLoader,
}

/// How attention is computed.
#[derive(Clone, Copy, Debug, PartialEq, Eq, Structural)]
pub enum AttentionImplementation {
    Eager,
    PagedAttention,
}

/// The sort of cache that a model keeps.
#[derive(Clone, Copy, Debug, PartialEq, Eq, Structural)]
pub enum CacheKind {
    Full,
    Normal,
}

/// How a cache is emptied between two runs.
#[derive(Clone, Copy, Debug, PartialEq, Eq, Structural)]
pub enum CacheReset {
    /// Every layer's entry is dropped.
    DropLayers,
    /// Every layer's length is set to zero.
    ZeroLengths,
}

impl CacheKind {
    /// How the cache is emptied.
    pub open spec fn emptying(self) -> CacheReset {
        match self {
            CacheKind::Full => CacheReset::DropLayers,
            CacheKind::Normal => CacheReset::ZeroLengths,
        }
    }

    /// Decides how the cache is emptied.
    pub fn reset(&self) -> (r: CacheReset)
        ensures
            r == self.emptying(),
    {
        match self {
            CacheKind::Full => CacheReset::DropLayers,
            CacheKind::Normal => CacheReset::ZeroLengths,
        }
    }
}

/// What a pipeline generates.
#[derive(Clone, Copy, Debug, PartialEq, Eq, Structural)]
pub enum ModelCategory {
    Text,
}

/// Where the importance matrix for quantisation comes from.
#[derive(Debug)]
pub enum ImatrixDataSource {
    File { path: PathBuf },
    Collected,
}

impl Clone for ImatrixDataSource {
    fn clone(&self) -> (r: Self)
        ensures
            r == *self,
    {
        match self {
            ImatrixDataSource::File { path } => ImatrixDataSource::File { path: path.clone() },
            ImatrixDataSource::Collected => ImatrixDataSource::Collected,
        }
    }
}

/// Where the access token of the model hub is taken from, in its textual form.
#[derive(Debug)]
pub struct TokenSource {
    pub text: String,
}

impl Clone for TokenSource {
    fn clone(&self) -> (r: Self)
        ensures
            r == *self,
    {
        TokenSource { text: self.text.clone() }
    }
}

/// A model is an adapted one where it carries an adapter of either sort, and an X-LoRA one for
/// that sort alone; a full cache loses its layers, and a normal one only its lengths.
pub proof fn law_kinds_are_told_apart(adapter: AdapterKind)
    ensures
        (ModelKind::Adapter { adapter }).adapted(),
        !ModelKind::Normal.adapted(),
        (ModelKind::Adapter { adapter }).xlora() <==> adapter is XLora,
        !ModelKind::Normal.xlora(),
        CacheKind::Full.emptying() is DropLayers,
        CacheKind::Normal.emptying() is ZeroLengths,
{
}

} // verus!
