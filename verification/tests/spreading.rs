use normal_pipeline::device::Device;
use normal_pipeline::error::{LoadError, Setting};
use normal_pipeline::parallel::{
    barrier_plan, do_ranks_fit, id_exchange, is_world_defined, plan_world, rank_offset, seat_ranks,
    split_devices, transpose, use_nccl, BarrierPlan, CommSeat, IdExchange, ParallelEnv, WorldPlan,
};
use normal_pipeline::text::ParseFailure;

fn env() -> ParallelEnv {
    ParallelEnv {
        no_nccl: None,
        pipeline_parallel: None,
        global_world_size: None,
        head_num_workers: None,
        head_port: None,
        worker_server_addr: None,
        worker_id: None,
    }
}

fn cuda(n: usize) -> Vec<Device> {
    (0..n).map(|gpu_id| Device::Cuda { gpu_id }).collect()
}

fn some(x: &str) -> Option<String> {
    Some(x.to_string())
}

#[test]
fn nccl_needs_several_cuda_devices_and_no_refusal() {
    assert!(use_nccl(&cuda(2), &env(), true));
    assert!(!use_nccl(&cuda(2), &env(), false));
    assert!(!use_nccl(&cuda(1), &env(), true));
    assert!(!use_nccl(&vec![], &env(), true));
    assert!(!use_nccl(&vec![Device::Cuda { gpu_id: 0 }, Device::Cpu], &env(), true));
    assert!(!use_nccl(
        &vec![Device::Metal { gpu_id: 0 }, Device::Metal { gpu_id: 1 }],
        &env(),
        true
    ));
    let mut e = env();
    e.no_nccl = some("1");
    assert!(!use_nccl(&cuda(2), &e, true));
    e.no_nccl = some("0");
    assert!(use_nccl(&cuda(2), &e, true));
    e.no_nccl = some("");
    assert!(use_nccl(&cuda(2), &e, true));
}

#[test]
fn unset_environment_makes_one_world() {
    let w = plan_world(4, &env()).unwrap();
    assert_eq!(w, WorldPlan { stages: 1, local_world_size: 4, global_world_size: 4 });
    assert!(!w.use_multi_node());
}

#[test]
fn stages_divide_the_local_world() {
    let mut e = env();
    e.pipeline_parallel = some("2");
    let w = plan_world(4, &e).unwrap();
    assert_eq!(w, WorldPlan { stages: 2, local_world_size: 2, global_world_size: 2 });
}

#[test]
fn zero_stages_are_refused() {
    let mut e = env();
    e.pipeline_parallel = some("0");
    let err = plan_world(4, &e).unwrap_err();
    assert!(matches!(err, LoadError::PipelineParallelZero));
    assert_eq!(err.message(), "MISTRALRS_PIPELINE_PARALLEL must be nonzero");
}

#[test]
fn worlds_that_cannot_be_worked_out_are_told_apart() {
    let mut e = env();
    assert!(is_world_defined(4, &e));
    e.pipeline_parallel = some("x");
    assert!(!is_world_defined(4, &e));
    e.pipeline_parallel = some("5");
    assert!(!is_world_defined(4, &e));
    e.pipeline_parallel = some("4");
    assert!(is_world_defined(4, &e));
    e.pipeline_parallel = some("5");
    e.global_world_size = some("y");
    assert!(is_world_defined(4, &e));
    assert!(matches!(
        plan_world(4, &e).unwrap_err(),
        LoadError::NotANumber {
            setting: Setting::GlobalWorldSize,
            failure: ParseFailure::InvalidDigit
        }
    ));
}

#[test]
fn global_world_must_be_a_number() {
    let mut e = env();
    e.global_world_size = some("many");
    let err = plan_world(4, &e).unwrap_err();
    assert!(matches!(err, LoadError::NotANumber { setting: Setting::GlobalWorldSize, .. }));
    assert_eq!(err.message(), "MISTRALRS_MN_GLOBAL_WORLD_SIZE");
    assert_eq!(err.cause(), Some(ParseFailure::InvalidDigit));
    e.global_world_size = some("");
    assert_eq!(plan_world(4, &e).unwrap_err().cause(), Some(ParseFailure::Empty));
    e.global_world_size = some("99999999999999999999");
    assert_eq!(plan_world(4, &e).unwrap_err().cause(), Some(ParseFailure::PosOverflow));
    assert_eq!(LoadError::NoWorkerId.cause(), None);
}

#[test]
fn global_world_must_be_a_multiple_of_the_local_one() {
    let mut e = env();
    e.global_world_size = some("6");
    let err = plan_world(4, &e).unwrap_err();
    assert!(matches!(err, LoadError::WorldSize { global: 6, local: 4 }));
    assert_eq!(
        err.message(),
        "Global world size 6 must both be at least and divide the local world size 4"
    );
    e.global_world_size = some("2");
    assert!(matches!(plan_world(4, &e).unwrap_err(), LoadError::WorldSize { global: 2, local: 4 }));
    e.global_world_size = some("8");
    let w = plan_world(4, &e).unwrap();
    assert!(w.use_multi_node());
    assert_eq!(w.global_world_size, 8);
}

#[test]
fn stages_do_not_span_nodes() {
    let mut e = env();
    e.pipeline_parallel = some("2");
    e.global_world_size = some("8");
    let err = plan_world(4, &e).unwrap_err();
    assert!(matches!(err, LoadError::PipelineParallelAcrossNodes));
    assert_eq!(
        err.message(),
        "MISTRALRS_PIPELINE_PARALLEL cannot be set at the same time as MISTRALRS_MN_GLOBAL_WORLD_SIZE; multi-node is incompatible with pipeline parallel."
    );
}

fn two_nodes() -> WorldPlan {
    WorldPlan { stages: 1, local_world_size: 2, global_world_size: 4 }
}

fn one_node() -> WorldPlan {
    WorldPlan { stages: 1, local_world_size: 2, global_world_size: 2 }
}

#[test]
fn ids_are_shared_only_across_nodes() {
    let mut e = env();
    assert!(matches!(id_exchange(&two_nodes(), &e), Ok(IdExchange::Skip)));
    e.head_num_workers = some("nonsense");
    assert!(matches!(id_exchange(&one_node(), &e), Ok(IdExchange::Skip)));
    assert!(matches!(
        id_exchange(&two_nodes(), &e),
        Err(LoadError::NotANumber {
            setting: Setting::HeadNumWorkers,
            failure: ParseFailure::InvalidDigit
        })
    ));
    e.head_num_workers = some("3");
    let err = id_exchange(&two_nodes(), &e).unwrap_err();
    assert!(matches!(err, LoadError::NoHeadListener));
    assert_eq!(
        err.message(),
        "Got MISTRALRS_MN_HEAD_NUM_WORKERS, expected MISTRALRS_MN_HEAD_PORT"
    );
    e.head_port = some("8765");
    e.worker_server_addr = some("10.0.0.1:1");
    match id_exchange(&two_nodes(), &e).unwrap() {
        IdExchange::Lead { address, workers, local_world_size } => {
            assert_eq!(address, "0.0.0.0:8765");
            assert_eq!(workers, 3);
            assert_eq!(local_world_size, 2);
        }
        _ => panic!(),
    }
    e.head_num_workers = None;
    match id_exchange(&two_nodes(), &e).unwrap() {
        IdExchange::Follow { address, local_world_size } => {
            assert_eq!(address, "10.0.0.1:1");
            assert_eq!(local_world_size, 2);
        }
        _ => panic!(),
    }
}

#[test]
fn barrier_goes_by_the_environment_alone() {
    let mut e = env();
    assert!(matches!(
        barrier_plan(&one_node(), &e),
        Ok(BarrierPlan::Local { local_world_size: 2 })
    ));
    e.worker_server_addr = some("10.0.0.1:1");
    assert!(matches!(
        barrier_plan(&one_node(), &e),
        Ok(BarrierPlan::Follow { local_world_size: 2, .. })
    ));
    e.head_num_workers = some("2");
    assert!(matches!(barrier_plan(&one_node(), &e), Err(LoadError::NoHeadListener)));
    e.head_port = some("9");
    match barrier_plan(&one_node(), &e).unwrap() {
        BarrierPlan::Lead { address, workers, local_world_size } => {
            assert_eq!(address, "0.0.0.0:9");
            assert_eq!((workers, local_world_size), (2, 2));
        }
        _ => panic!(),
    }
}

#[test]
fn devices_are_dealt_out_in_order() {
    let w = WorldPlan { stages: 2, local_world_size: 2, global_world_size: 2 };
    let groups = split_devices(&cuda(4), &w).unwrap();
    assert_eq!(groups, vec![cuda(4)[..2].to_vec(), cuda(4)[2..].to_vec()]);
    let uneven = WorldPlan { stages: 2, local_world_size: 2, global_world_size: 2 };
    let err = split_devices(&cuda(5), &uneven).unwrap_err();
    assert!(matches!(err, LoadError::UnevenStages { stages: 2, devices: 5 }));
    assert_eq!(
        err.message(),
        "Pipeline parallel size 2 must divide the number of available devices 5"
    );
}

#[test]
fn workers_come_after_the_head_node() {
    let mut e = env();
    assert_eq!(rank_offset(&two_nodes(), &e).unwrap(), 0);
    e.worker_id = some("5");
    assert_eq!(rank_offset(&two_nodes(), &e).unwrap(), 0);
    e.worker_server_addr = some("h:1");
    assert_eq!(rank_offset(&two_nodes(), &e).unwrap(), 12);
    e.worker_id = some("0");
    assert_eq!(rank_offset(&two_nodes(), &e).unwrap(), 2);
    e.worker_id = some("-1");
    assert!(matches!(
        rank_offset(&two_nodes(), &e),
        Err(LoadError::NotANumber {
            setting: Setting::WorkerId,
            failure: ParseFailure::InvalidDigit
        })
    ));
    e.worker_id = None;
    let err = rank_offset(&two_nodes(), &e).unwrap_err();
    assert!(matches!(err, LoadError::NoWorkerId));
    assert_eq!(
        err.message(),
        "Got MISTRALRS_MN_WORKER_SERVER_ADDR, expected MISTRALRS_MN_WORKER_ID"
    );
}

#[test]
fn ranks_must_be_machine_words() {
    let mut e = env();
    e.worker_server_addr = some("h:1");
    e.worker_id = Some(usize::MAX.to_string());
    assert!(!do_ranks_fit(&two_nodes(), &e));
    e.worker_id = Some((usize::MAX / 2).to_string());
    assert!(!do_ranks_fit(&two_nodes(), &e));
    e.worker_id = Some((usize::MAX / 2 - 1).to_string());
    assert!(do_ranks_fit(&two_nodes(), &e));
    assert_eq!(rank_offset(&two_nodes(), &e).unwrap(), usize::MAX - 1);
}

#[test]
fn nodes_share_no_rank() {
    let mut one = env();
    one.worker_server_addr = some("h:1");
    one.worker_id = some("0");
    let mut other = env();
    other.worker_server_addr = some("h:1");
    other.worker_id = some("1");
    let a = rank_offset(&two_nodes(), &one).unwrap();
    let b = rank_offset(&two_nodes(), &other).unwrap();
    let head = rank_offset(&two_nodes(), &env()).unwrap();
    let mut all = vec![head, head + 1, a, a + 1, b, b + 1];
    all.dedup();
    assert_eq!(all, vec![0, 1, 2, 3, 4, 5]);
}

#[test]
fn seats_are_taken_stage_by_stage_and_turned_over() {
    let groups = vec![cuda(4)[..2].to_vec(), cuda(4)[2..].to_vec()];
    let seats = seat_ranks(&groups, 10, 16);
    assert_eq!(
        seats[1][0],
        CommSeat { stage: 1, device: Device::Cuda { gpu_id: 2 }, rank: 10, world_size: 16 }
    );
    assert_eq!(seats[0][1].rank, 11);
    let ranks = transpose(&seats, 2);
    assert_eq!(ranks.len(), 2);
    assert_eq!(ranks[0], vec![seats[0][0], seats[1][0]]);
    assert_eq!(ranks[1], vec![seats[0][1], seats[1][1]]);
    assert_eq!(transpose(&ranks, 2), seats);
}
