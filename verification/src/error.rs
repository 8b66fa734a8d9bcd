//! What loading and running a model is refused with.

use vstd::prelude::*;
#[allow(unused_imports)]
use crate::text::decimal;
use crate::text::{usize_to_string, ParseFailure};

verus! {

/// The environment variables that hold a number or that another one calls for.
#[derive(Clone, Copy, Debug, PartialEq, Eq, Structural)]
pub enum Setting {
    GlobalWorldSize,
    HeadNumWorkers,
    WorkerId,
}

impl Setting {
    /// The variable's name.
    pub open spec fn text(self) -> Seq<char> {
        match self {
            Setting::GlobalWorldSize => "MISTRALRS_MN_GLOBAL_WORLD_SIZE"@,
            Setting::HeadNumWorkers => "MISTRALRS_MN_HEAD_NUM_WORKERS"@,
            Setting::WorkerId => "MISTRALRS_MN_WORKER_ID"@,
        }
    }

    pub fn name(&self) -> (r: &'static str)
        ensures
            r@ == self.text(),
    {
        match self {
            Setting::GlobalWorldSize => "MISTRALRS_MN_GLOBAL_WORLD_SIZE",
            Setting::HeadNumWorkers => "MISTRALRS_MN_HEAD_NUM_WORKERS",
            Setting::WorkerId => "MISTRALRS_MN_WORKER_ID",
        }
    }
}

/// Why a model is not loaded.
#[derive(Debug)]
pub enum LoadError {
    /// Both an importance matrix and a calibration file were given.
    ImatrixAndCalibration,
    /// The pipeline-parallel size is zero.
    PipelineParallelZero,
    /// A numeric setting is not a number.
    NotANumber { setting: Setting, failure: ParseFailure },
    /// The global world size is no multiple of the local one.
    WorldSize { global: usize, local: usize },
    /// Pipeline parallelism was asked for across several nodes.
    PipelineParallelAcrossNodes,
    /// The head node was told how many workers it has, but not where to listen.
    NoHeadListener,
    /// A worker node was not told which worker it is.
    NoWorkerId,
    /// The devices cannot be dealt out evenly to the pipeline stages.
    UnevenStages { stages: usize, devices: usize },
    /// The calibration text could not be tokenised.
    Tokenize { reason: String },
}

impl LoadError {
    /// The message that the refusal carries.
    pub open spec fn text(self) -> Seq<char> {
        match self {
            LoadError::ImatrixAndCalibration =>
                "`imatrix` and `calibration_file` were both specified, this is not allowed."@,
            LoadError::PipelineParallelZero => "MISTRALRS_PIPELINE_PARALLEL must be nonzero"@,
            LoadError::NotANumber { setting, .. } => setting.text(),
            LoadError::WorldSize { global, local } => "Global world size "@ + decimal(global as nat)
                + " must both be at least and divide the local world size "@ + decimal(
                local as nat,
            ),
            LoadError::PipelineParallelAcrossNodes =>
                "MISTRALRS_PIPELINE_PARALLEL cannot be set at the same time as MISTRALRS_MN_GLOBAL_WORLD_SIZE; multi-node is incompatible with pipeline parallel."@,
            LoadError::NoHeadListener =>
                "Got MISTRALRS_MN_HEAD_NUM_WORKERS, expected MISTRALRS_MN_HEAD_PORT"@,
            LoadError::NoWorkerId =>
                "Got MISTRALRS_MN_WORKER_SERVER_ADDR, expected MISTRALRS_MN_WORKER_ID"@,
            LoadError::UnevenStages { stages, devices } => "Pipeline parallel size "@ + decimal(
                stages as nat,
            ) + " must divide the number of available devices "@ + decimal(devices as nat),
            LoadError::Tokenize { reason } => reason@,
        }
    }

    /// What led to the refusal, where something else did.
    pub open spec fn source(self) -> Option<ParseFailure> {
        match self {
            LoadError::NotANumber { failure, .. } => Some(failure),
            _ => None,
        }
    }

    pub fn cause(&self) -> (r: Option<ParseFailure>)
        ensures
            r == self.source(),
    {
        match self {
            LoadError::NotANumber { failure, .. } => Some(*failure),
            _ => None,
        }
    }

    pub fn message(&self) -> (r: String)
        ensures
            r@ == self.text(),
    {
        match self {
            LoadError::ImatrixAndCalibration => String::from_str(
                "`imatrix` and `calibration_file` were both specified, this is not allowed.",
            ),
            LoadError::PipelineParallelZero => String::from_str(
                "MISTRALRS_PIPELINE_PARALLEL must be nonzero",
            ),
            LoadError::NotANumber { setting, .. } => String::from_str(setting.name()),
            LoadError::WorldSize { global, local } => {
                let mut r = String::from_str("Global world size ");
                r.append(usize_to_string(*global).as_str());
                r.append(" must both be at least and divide the local world size ");
                r.append(usize_to_string(*local).as_str());
                r
            },
            LoadError::PipelineParallelAcrossNodes => String::from_str(
                "MISTRALRS_PIPELINE_PARALLEL cannot be set at the same time as MISTRALRS_MN_GLOBAL_WORLD_SIZE; multi-node is incompatible with pipeline parallel.",
            ),
            LoadError::NoHeadListener => String::from_str(
                "Got MISTRALRS_MN_HEAD_NUM_WORKERS, expected MISTRALRS_MN_HEAD_PORT",
            ),
            LoadError::NoWorkerId => String::from_str(
                "Got MISTRALRS_MN_WORKER_SERVER_ADDR, expected MISTRALRS_MN_WORKER_ID",
            ),
            LoadError::UnevenStages { stages, devices } => {
                let mut r = String::from_str("Pipeline parallel size ");
                r.append(usize_to_string(*stages).as_str());
                r.append(" must divide the number of available devices ");
                r.append(usize_to_string(*devices).as_str());
                r
            },
            LoadError::Tokenize { reason } => reason.clone(),
        }
    }
}

/// Why a forward step is not run.
#[derive(Clone, Copy, Debug, PartialEq, Eq, Structural)]
pub enum ForwardError {
    /// There are cache engines, but the step carries no paged-attention metadata.
    MissingPagedMetadata,
    /// The step carries paged-attention metadata, but there are no cache engines.
    UnexpectedPagedMetadata,
}

impl ForwardError {
    /// The message that the refusal carries.
    pub open spec fn text(self) -> Seq<char> {
        match self {
            ForwardError::MissingPagedMetadata =>
                "Forward step expected a PagedAttention input metadata. This was not provided, please ensure that the scheduler config is correctly configured for PagedAttention."@,
            ForwardError::UnexpectedPagedMetadata =>
                "Forward step got a PagedAttention input metadata but there is no cache engine. Please raise an issue."@,
        }
    }

    pub fn message(&self) -> (r: &'static str)
        ensures
            r@ == self.text(),
    {
        match self {
            ForwardError::MissingPagedMetadata =>
                "Forward step expected a PagedAttention input metadata. This was not provided, please ensure that the scheduler config is correctly configured for PagedAttention.",
            ForwardError::UnexpectedPagedMetadata =>
                "Forward step got a PagedAttention input metadata but there is no cache engine. Please raise an issue.",
        }
    }
}

/// A refusal names the numbers that it is about, in the order in which they are compared, and a
/// setting that is no number is named with the reason.
pub proof fn law_refusals_name_their_numbers(
    a: usize,
    b: usize,
    setting: Setting,
    failure: ParseFailure,
    reason: String,
)
    ensures
        (LoadError::WorldSize { global: a, local: b }).text() == "Global world size "@ + decimal(
            a as nat,
        ) + " must both be at least and divide the local world size "@ + decimal(b as nat),
        (LoadError::UnevenStages { stages: a, devices: b }).text() == "Pipeline parallel size "@
            + decimal(a as nat) + " must divide the number of available devices "@ + decimal(
            b as nat,
        ),
        (LoadError::NotANumber { setting, failure }).text() == (match setting {
            Setting::GlobalWorldSize => "MISTRALRS_MN_GLOBAL_WORLD_SIZE"@,
            Setting::HeadNumWorkers => "MISTRALRS_MN_HEAD_NUM_WORKERS"@,
            Setting::WorkerId => "MISTRALRS_MN_WORKER_ID"@,
        }),
        (LoadError::NotANumber { setting, failure }).source() == Some(failure),
        (LoadError::Tokenize { reason }).text() == reason@,
        (LoadError::Tokenize { reason }).source() is None,
{
}

} // verus!
