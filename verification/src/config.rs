//! What the user settles about loading a model.

use std::path::PathBuf;
use vstd::prelude::*;
use crate::device::Device;
use crate::kinds::{IsqOrganization, IsqType};

verus! {

/// The number of prompt tokens that are processed at a time; never zero.
#[derive(Clone, Copy, Debug)]
pub struct ChunkSize {
    size: usize,
}

impl View for ChunkSize {
    type V = usize;

    closed spec fn view(&self) -> usize {
        self.size
    }
}

impl ChunkSize {
    #[verifier::type_invariant]
    spec fn nonzero(self) -> bool {
        self.size > 0
    }

    /// A chunk size, unless `size` is zero.
    pub fn new(size: usize) -> (r: Option<ChunkSize>)
        ensures
            match r {
                Some(c) => size > 0 && c@ == size,
                None => size == 0,
            },
    {
        if size == 0 {
            None
        } else {
            Some(ChunkSize { size })
        }
    }

    pub fn get(&self) -> (r: usize)
        ensures
            r == self@,
            r > 0,
    {
        proof {
            use_type_invariant(self);
        }
        self.size
    }
}

/// What the user settles about one layer.
#[derive(Clone, Copy, Debug, PartialEq, Eq, Structural)]
pub struct LayerTopology {
    pub isq: Option<IsqType>,
    pub device: Option<Device>,
}

/// What the user settles layer by layer.
#[derive(Debug)]
pub struct Topology {
    pub layers: Vec<Option<LayerTopology>>,
}

impl Topology {
    /// Some layer is to be quantised.
    pub open spec fn quantises(self) -> bool {
        exists|i: int|
            0 <= i < self.layers@.len() && #[trigger] self.layers@[i] is Some
                && self.layers@[i]->0.isq is Some
    }

    /// Tests whether some layer is to be quantised.
    pub fn has_isq(&self) -> (r: bool)
        ensures
            r == self.quantises(),
    {
        let mut i: usize = 0;
        while i < self.layers.len()
            invariant
                i <= self.layers.len(),
                forall|j: int|
                    0 <= j < i ==> !(#[trigger] self.layers@[j] is Some
                        && self.layers@[j]->0.isq is Some),
            decreases self.layers.len() - i,
        {
            if let Some(layer) = self.layers[i] {
                if layer.isq.is_some() {
                    return true;
                }
            }
            i = i + 1;
        }
        false
    }
}

impl Clone for Topology {
    fn clone(&self) -> (r: Self)
        ensures
            r.layers@ == self.layers@,
    {
        let mut layers: Vec<Option<LayerTopology>> = Vec::new();
        let mut i: usize = 0;
        while i < self.layers.len()
            invariant
                i <= self.layers.len(),
                layers@ == self.layers@.take(i as int),
            decreases self.layers.len() - i,
        {
            layers.push(self.layers[i]);
            i = i + 1;
            proof {
                assert(self.layers@.take(i as int) =~= self.layers@.take(i - 1).push(
                    self.layers@[i - 1],
                ));
            }
        }
        proof {
            assert(self.layers@.take(i as int) =~= self.layers@);
        }
        Topology { layers }
    }
}

/// The layers that a topology settles.
pub open spec fn topology_layers(t: Option<Topology>) -> Option<Seq<Option<LayerTopology>>> {
    match t {
        Some(t) => Some(t.layers@),
        None => None,
    }
}

/// Copies a topology.
pub fn copy_topology(t: &Option<Topology>) -> (r: Option<Topology>)
    ensures
        topology_layers(r) == topology_layers(*t),
{
    match t {
        Some(t) => Some(t.clone()),
        None => None,
    }
}

/// Config specific to loading a normal model.
#[derive(Debug)]
pub struct NormalSpecificConfig {
    pub use_flash_attn: bool,
    pub prompt_chunksize: Option<ChunkSize>,
    pub topology: Option<Topology>,
    pub organization: IsqOrganization,
    /// Where quantised weights are written.
    pub write_uqff: Option<PathBuf>,
    /// Quantised weights to load instead of quantising.
    pub from_uqff: Option<PathBuf>,
    /// An importance matrix that steers quantisation.
    pub imatrix: Option<PathBuf>,
    /// A text from which an importance matrix is collected.
    pub calibration_file: Option<PathBuf>,
}

impl Default for NormalSpecificConfig {
    fn default() -> (r: Self)
        ensures
            r == (NormalSpecificConfig {
                use_flash_attn: false,
                prompt_chunksize: None,
                topology: None,
                organization: IsqOrganization::Default,
                write_uqff: None,
                from_uqff: None,
                imatrix: None,
                calibration_file: None,
            }),
    {
        NormalSpecificConfig {
            use_flash_attn: false,
            prompt_chunksize: None,
            topology: None,
            organization: IsqOrganization::Default,
            write_uqff: None,
            from_uqff: None,
            imatrix: None,
            calibration_file: None,
        }
    }
}

/// Copies an optional text.
pub fn copy_text(t: &Option<String>) -> (r: Option<String>)
    ensures
        r == *t,
{
    match t {
        Some(t) => Some(t.clone()),
        None => None,
    }
}

/// Copies an optional path.
pub fn copy_path(p: &Option<PathBuf>) -> (r: Option<PathBuf>)
    ensures
        r == *p,
{
    match p {
        Some(p) => Some(p.clone()),
        None => None,
    }
}

impl Clone for NormalSpecificConfig {
    fn clone(&self) -> (r: Self)
        ensures
            topology_layers(r.topology) == topology_layers(self.topology),
            r == (NormalSpecificConfig { topology: r.topology, ..*self }),
    {
        NormalSpecificConfig {
            use_flash_attn: self.use_flash_attn,
            prompt_chunksize: self.prompt_chunksize,
            topology: copy_topology(&self.topology),
            organization: self.organization,
            write_uqff: copy_path(&self.write_uqff),
            from_uqff: copy_path(&self.from_uqff),
            imatrix: copy_path(&self.imatrix),
            calibration_file: copy_path(&self.calibration_file),
        }
    }
}

impl NormalSpecificConfig {
    /// The chunk size that is used: `default` unless the user settles one.
    pub open spec fn chunk_size(self, default: ChunkSize) -> ChunkSize {
        match self.prompt_chunksize {
            Some(c) => c,
            None => default,
        }
    }

    /// Weights are quantised while loading, or come quantised already.
    pub open spec fn quantises(self, in_situ_quant: Option<IsqType>) -> bool {
        ||| in_situ_quant is Some
        ||| self.from_uqff is Some
        ||| self.topology matches Some(t) && t.quantises()
    }

    /// Two sources for the importance matrix are given.
    pub open spec fn contradicts(self) -> bool {
        self.imatrix is Some && self.calibration_file is Some
    }

    /// Quantisation is left to a pass of its own once the layers are loaded.
    pub open spec fn quantises_after_loading(self, in_situ_quant: Option<IsqType>) -> bool {
        (in_situ_quant is Some || self.topology is Some) && self.from_uqff is None
    }

    /// Applies the default prompt chunk size.
    pub fn chunk_size_or(&self, default: ChunkSize) -> (r: ChunkSize)
        ensures
            r == self.chunk_size(default),
    {
        match self.prompt_chunksize {
            Some(c) => c,
            None => default,
        }
    }

    /// Tests whether quantised weights are wanted.
    pub fn wants_quantised(&self, in_situ_quant: Option<IsqType>) -> (r: bool)
        ensures
            r == self.quantises(in_situ_quant),
    {
        let mut r = in_situ_quant.is_some() || self.from_uqff.is_some();
        if let Some(topology) = &self.topology {
            r = r || topology.has_isq();
        }
        r
    }

    /// Tests whether two sources for the importance matrix are given.
    pub fn is_contradictory(&self) -> (r: bool)
        ensures
            r == self.contradicts(),
    {
        self.imatrix.is_some() && self.calibration_file.is_some()
    }
}

/// Each of three things alone calls for quantised weights: the request, weights that are quantised
/// already, and any one layer of the topology; and nothing else does.
pub proof fn law_quantisation_is_called_for(
    config: NormalSpecificConfig,
    in_situ_quant: Option<IsqType>,
    i: int,
)
    ensures
        in_situ_quant is Some ==> config.quantises(in_situ_quant),
        config.from_uqff is Some ==> config.quantises(in_situ_quant),
        config.topology matches Some(t) && 0 <= i < t.layers@.len() && (t.layers@[i] matches Some(l)
            && l.isq is Some) ==> config.quantises(in_situ_quant),
        in_situ_quant is None && config.from_uqff is None && (config.topology matches Some(t)
            ==> forall|j: int|
            0 <= j < t.layers@.len() ==> ((#[trigger] t.layers@[j]) matches Some(l) ==> l.isq is None))
            ==> !config.quantises(in_situ_quant),
{
    if let Some(t) = config.topology {
        if 0 <= i < t.layers@.len() && t.layers@[i] is Some && t.layers@[i]->0.isq is Some {
            assert(t.layers@[i] is Some && t.layers@[i]->0.isq is Some);
        }
    }
}

/// A chunk size that the user settles is used, and the default only where none is; both an
/// importance matrix and a calibration file are too much, and either alone is not.
pub proof fn law_settings_of_the_user_come_first(
    config: NormalSpecificConfig,
    own: ChunkSize,
    default: ChunkSize,
)
    ensures
        config.prompt_chunksize == Some(own) ==> config.chunk_size(default) == own,
        config.prompt_chunksize is None ==> config.chunk_size(default) == default,
        config.imatrix is Some && config.calibration_file is Some ==> config.contradicts(),
        config.imatrix is None ==> !config.contradicts(),
        config.calibration_file is None ==> !config.contradicts(),
        topology_layers(None) is None,
        config.topology matches Some(t) ==> topology_layers(config.topology) == Some(t.layers@),
{
}

} // verus!
